use cantact::calculate_bit_timing;
use cantact::effective_bitrate;
use cantact::BitTiming;
use cantact::Error;

#[test]
fn test_bit_timing() {
    let clk = 24000000;
    let bitrates = vec![1000000, 500000, 250000, 125000, 33333];
    for b in bitrates {
        let bt = calculate_bit_timing(clk, b).unwrap();

        // ensure error < 0.5%
        println!("{:?}", &bt);
        let err = 100.0 * (1.0 - (effective_bitrate(clk, bt) as f32 / b as f32).abs());
        println!("{:?}", err);
        assert!(err < 0.5);
    }
}

#[test]
fn solver_exact_divisions() {
    // 24 MHz clock: each of these divides exactly, so the first
    // tolerance level already yields the answer.
    let clk = 24000000;
    assert_eq!(
        calculate_bit_timing(clk, 1000000),
        Ok(BitTiming { brp: 1, prop_seg: 0, phase_seg1: 15, phase_seg2: 8, sjw: 1 })
    );
    assert_eq!(
        calculate_bit_timing(clk, 500000),
        Ok(BitTiming { brp: 2, prop_seg: 0, phase_seg1: 15, phase_seg2: 8, sjw: 1 })
    );
    // brp 3 gives exactly 32 quanta but no admissible phase segment 1,
    // so the solver must move on to brp 4.
    assert_eq!(
        calculate_bit_timing(clk, 250000),
        Ok(BitTiming { brp: 4, prop_seg: 0, phase_seg1: 15, phase_seg2: 8, sjw: 1 })
    );
    assert_eq!(
        calculate_bit_timing(clk, 125000),
        Ok(BitTiming { brp: 8, prop_seg: 0, phase_seg1: 15, phase_seg2: 8, sjw: 1 })
    );
}

#[test]
fn solver_inexact_division() {
    // 33333 bit/s does not divide 24 MHz: the exact level fails and the
    // 0.1% level finds prescaler 30 at 24 quanta per bit.
    let bt = calculate_bit_timing(24000000, 33333).unwrap();
    assert_eq!(bt, BitTiming { brp: 30, prop_seg: 0, phase_seg1: 15, phase_seg2: 8, sjw: 1 });
    assert_eq!(effective_bitrate(24000000, bt), 33333);
}

#[test]
fn solver_results_in_hardware_ranges() {
    let clk = 24000000;
    for b in [1000000, 500000, 250000, 125000, 33333] {
        let bt = calculate_bit_timing(clk, b).unwrap();
        assert!(1 <= bt.brp && bt.brp <= 32);
        assert_eq!(bt.prop_seg, 0);
        assert!(3 <= bt.phase_seg1 && bt.phase_seg1 < 18);
        assert!(2 <= bt.phase_seg2 && bt.phase_seg2 <= 8);
        assert_eq!(bt.sjw, 1);
        let quanta = bt.prop_seg + bt.phase_seg1 + bt.phase_seg2 + 1;
        assert!(4 <= quanta && quanta <= 32);
        // effective bitrate within 0.5% of the target, both sides
        let eff = effective_bitrate(clk, bt) as f64;
        let rel = (eff / b as f64 - 1.0).abs();
        assert!(rel <= 0.005);
    }
}

#[test]
fn solver_rejects_zero_bitrate() {
    assert_eq!(calculate_bit_timing(24000000, 0), Err(Error::InvalidBitrate(0)));
}

#[test]
fn solver_rejects_unreachable_bitrate() {
    // 23 bit/s would need far more than 32 * 32 quanta-prescaler steps.
    assert_eq!(calculate_bit_timing(24000000, 23), Err(Error::InvalidBitrate(23)));
}

#[test]
fn effective_bitrate_divides_down() {
    let bt = BitTiming { brp: 6, prop_seg: 0, phase_seg1: 13, phase_seg2: 2, sjw: 1 };
    // 24 MHz / 6 / 16 quanta = 250 kbit/s
    assert_eq!(effective_bitrate(24000000, bt), 250000);
}
