use vstd::prelude::*;

use crate::error::Error;

verus! {

/// Hardware bit-timing register values for one channel.
///
/// The bit period is divided into `prop_seg + phase_seg1 + phase_seg2 + 1`
/// time quanta; the quantum clock is the CAN clock divided by `brp`.
#[derive(Debug, Clone, Copy, PartialEq, Eq, Structural)]
pub struct BitTiming {
    /// Bitrate prescaler: divides the CAN clock to derive the time
    /// quantum clock.
    pub brp: u32,
    /// Propagation segment, in time quanta.
    pub prop_seg: u32,
    /// Phase segment 1, in time quanta.
    pub phase_seg1: u32,
    /// Phase segment 2, in time quanta.
    pub phase_seg2: u32,
    /// Synchronization jump width, in time quanta.
    pub sjw: u32,
}

/// Number of time quanta in one bit period under the given timing.
pub open spec fn total_quanta(bt: BitTiming) -> int {
    bt.prop_seg + bt.phase_seg1 + bt.phase_seg2 + 1
}

/// Nearest integer to `n / d` (ties rounded up), for `d > 0`.
pub open spec fn round_div(n: int, d: int) -> int {
    (2 * n + d) / (2 * d)
}

/// Quanta-per-bit candidate for a prescaler: `clk / (bitrate * brp)`
/// rounded to the nearest integer.
pub open spec fn quanta_for(clk: int, bitrate: int, brp: int) -> int {
    round_div(clk, bitrate * brp)
}

/// Distance between two integers.
pub open spec fn abs_diff(a: int, b: int) -> int {
    if a >= b {
        a - b
    } else {
        b - a
    }
}

/// The relative quantization error of the candidate `(brp, q)` is within
/// `tol_mil` per mille of the target: `|clk / (bitrate*brp*q) - 1| <=
/// tol_mil / 1000`, written without divisions.
pub open spec fn within_tolerance(clk: int, bitrate: int, brp: int, q: int, tol_mil: int) -> bool {
    1000 * abs_diff(clk, bitrate * brp * q) <= tol_mil * (bitrate * brp * q)
}

/// A prescaler is admissible at a tolerance level when its rounded
/// quanta-per-bit lies in [4, 32] and the quantization error is within
/// the tolerance.
pub open spec fn brp_admissible(clk: int, bitrate: int, tol_mil: int, brp: int) -> bool {
    let q = quanta_for(clk, bitrate, brp);
    &&& 4 <= q <= 32
    &&& within_tolerance(clk, bitrate, brp, q, tol_mil)
}

/// A phase segment 1 value fits a quanta count when the derived phase
/// segment 2 (`q - seg1 - 1`, one quantum reserved for synchronization)
/// lies in [2, 8].
pub open spec fn seg1_fits(q: int, seg1: int) -> bool {
    2 <= q - seg1 - 1 <= 8
}

/// First phase segment 1 value at or after `seg1` (and below 18) that
/// fits the quanta count `q`.
pub open spec fn first_seg1(q: int, seg1: int) -> Option<int>
    decreases 18 - seg1,
{
    if seg1 >= 18 {
        None
    } else if seg1_fits(q, seg1) {
        Some(seg1)
    } else {
        first_seg1(q, seg1 + 1)
    }
}

/// First admissible `(brp, seg1)` pair at or after `brp` (and at most
/// 32) for the given tolerance level.
pub open spec fn first_brp(clk: int, bitrate: int, tol_mil: int, brp: int) -> Option<(int, int)>
    decreases 33 - brp,
{
    if brp > 32 {
        None
    } else if brp_admissible(clk, bitrate, tol_mil, brp) {
        match first_seg1(quanta_for(clk, bitrate, brp), 3) {
            Some(s1) => Some((brp, s1)),
            None => first_brp(clk, bitrate, tol_mil, brp + 1),
        }
    } else {
        first_brp(clk, bitrate, tol_mil, brp + 1)
    }
}

/// Tolerance ladder, in per mille: exact division first, then 0.1%,
/// then 0.5%.
pub open spec fn tolerance_mil(level: int) -> int {
    if level == 0 {
        0
    } else if level == 1 {
        1
    } else {
        5
    }
}

/// First solution `(brp, phase_seg1, phase_seg2)` found at tolerance
/// level `level` or a looser one.
pub open spec fn first_solution(clk: int, bitrate: int, level: int) -> Option<(int, int, int)>
    decreases 3 - level,
{
    if level >= 3 {
        None
    } else {
        match first_brp(clk, bitrate, tolerance_mil(level), 1) {
            Some(p) => Some((p.0, p.1, quanta_for(clk, bitrate, p.0) - p.1 - 1)),
            None => first_solution(clk, bitrate, level + 1),
        }
    }
}

/// The solution the solver must return: the first admissible
/// `(brp, phase_seg1, phase_seg2)` triple in tolerance-then-prescaler-
/// then-segment order, or nothing when no bitrate (or none reachable
/// within 0.5%) was requested.
pub open spec fn timing_solution(clk: int, bitrate: int) -> Option<(int, int, int)> {
    if bitrate <= 0 {
        None
    } else {
        first_solution(clk, bitrate, 0)
    }
}

/// Law: a quantization error within `t1` per mille is also within any
/// looser bound `t2`.
pub proof fn lemma_tolerance_widens(clk: int, bitrate: int, brp: int, q: int, t1: int, t2: int)
    requires
        within_tolerance(clk, bitrate, brp, q, t1),
        t1 <= t2,
        bitrate >= 0,
        brp >= 0,
        q >= 0,
    ensures
        within_tolerance(clk, bitrate, brp, q, t2),
{
    assert(bitrate * brp * q >= 0) by (nonlinear_arith)
        requires
            bitrate >= 0,
            brp >= 0,
            q >= 0,
    ;
    let d = bitrate * brp * q;
    assert(t1 * d <= t2 * d) by (nonlinear_arith)
        requires
            t1 <= t2,
            d >= 0,
    ;
}

/// Solve for hardware bit-timing values that hit `bitrate` on a CAN
/// clock of `clk` Hz. Tolerance levels 0%, 0.1% and 0.5% are tried in
/// that order; within a level, prescalers from 1 to 32; within a
/// prescaler, phase segment 1 values from 3 up. The first admissible
/// combination is returned with a zero propagation segment and a
/// synchronization jump width of one quantum.
#[verifier::loop_isolation(false)]
pub fn calculate_bit_timing(clk: u32, bitrate: u32) -> (r: Result<BitTiming, Error>)
    ensures
        ({
            let sol = timing_solution(clk as int, bitrate as int);
            match r {
                Ok(bt) => sol == Some(
                    (bt.brp as int, bt.phase_seg1 as int, bt.phase_seg2 as int),
                ) && bt.prop_seg == 0 && bt.sjw == 1,
                Err(e) => sol is None && e == Error::InvalidBitrate(bitrate),
            }
        }),
        r matches Ok(bt) ==> {
            &&& 1 <= bt.brp <= 32
            &&& 3 <= bt.phase_seg1 < 18
            &&& 2 <= bt.phase_seg2 <= 8
            &&& 4 <= total_quanta(bt) <= 32
            &&& total_quanta(bt) == quanta_for(clk as int, bitrate as int, bt.brp as int)
            &&& within_tolerance(clk as int, bitrate as int, bt.brp as int, total_quanta(bt), 5)
        },
{
    if bitrate == 0 {
        return Err(Error::InvalidBitrate(bitrate));
    }
    let ghost ck = clk as int;
    let ghost b = bitrate as int;
    let clk64: u64 = clk as u64;
    let mut level: u32 = 0;
    while level < 3
        invariant
            level <= 3,
            first_solution(ck, b, 0) == first_solution(ck, b, level as int),
        decreases 3 - level,
    {
        let tol: u64 = if level == 0 {
            0
        } else if level == 1 {
            1
        } else {
            5
        };
        let ghost t = tol as int;
        proof {
            assert(t == tolerance_mil(level as int));
        }
        let mut brp: u32 = 1;
        while brp <= 32
            invariant
                1 <= brp <= 33,
                first_brp(ck, b, t, 1) == first_brp(ck, b, t, brp as int),
            decreases 33 - brp,
        {
            let ghost p = brp as int;
            proof {
                assert(bitrate as u64 * brp as u64 <= 0xFFFF_FFFFu64 * 32) by (nonlinear_arith)
                    requires
                        bitrate <= 0xFFFF_FFFFu32,
                        brp <= 32u32,
                ;
                assert(bitrate as u64 * brp as u64 >= 1) by (nonlinear_arith)
                    requires
                        bitrate >= 1u32,
                        brp >= 1u32,
                ;
            }
            let d: u64 = (bitrate as u64) * (brp as u64);
            let q: u64 = (2 * clk64 + d) / (2 * d);
            proof {
                assert(d == b * p);
                assert(q == quanta_for(ck, b, p));
            }
            if q >= 4 && q <= 32 {
                proof {
                    assert(d * q <= 0xFFFF_FFFFu64 * 32 * 32) by (nonlinear_arith)
                        requires
                            d <= 0xFFFF_FFFFu64 * 32,
                            q <= 32u64,
                    ;
                }
                let dq: u64 = d * q;
                let diff: u64 = if clk64 >= dq {
                    clk64 - dq
                } else {
                    dq - clk64
                };
                proof {
                    assert(diff == abs_diff(ck, b * p * (q as int)));
                }
                if 1000 * diff <= tol * dq {
                    proof {
                        assert(within_tolerance(ck, b, p, q as int, t));
                        assert(brp_admissible(ck, b, t, p));
                    }
                    let ghost qi = q as int;
                    let mut seg1: u32 = 3;
                    while seg1 < 18
                        invariant
                            3 <= seg1 <= 18,
                            first_seg1(qi, 3) == first_seg1(qi, seg1 as int),
                        decreases 18 - seg1,
                    {
                        if seg1 as u64 + 3 <= q && q <= seg1 as u64 + 9 {
                            // the derived phase segment 2 lands in [2, 8]
                            let seg2: u32 = (q as u32) - seg1 - 1;
                            proof {
                                let s1 = seg1 as int;
                                assert(seg1_fits(qi, s1));
                                assert(first_seg1(qi, s1) == Some(s1));
                                assert(first_brp(ck, b, t, p) == Some((p, s1)));
                                assert(first_solution(ck, b, level as int) == Some(
                                    (p, s1, qi - s1 - 1),
                                ));
                                lemma_tolerance_widens(ck, b, p, qi, t, 5);
                            }
                            return Ok(
                                BitTiming {
                                    brp,
                                    prop_seg: 0,
                                    phase_seg1: seg1,
                                    phase_seg2: seg2,
                                    sjw: 1,
                                },
                            );
                        } else {
                            proof {
                                assert(!seg1_fits(qi, seg1 as int));
                                assert(first_seg1(qi, seg1 as int) == first_seg1(
                                    qi,
                                    seg1 as int + 1,
                                ));
                            }
                        }
                        seg1 = seg1 + 1;
                    }
                    proof {
                        assert(first_seg1(qi, 18) is None);
                        assert(first_seg1(qi, 3) is None);
                        assert(first_brp(ck, b, t, p) == first_brp(ck, b, t, p + 1));
                    }
                } else {
                    proof {
                        assert(!within_tolerance(ck, b, p, q as int, t));
                        assert(!brp_admissible(ck, b, t, p));
                        assert(first_brp(ck, b, t, p) == first_brp(ck, b, t, p + 1));
                    }
                }
            } else {
                proof {
                    assert(!brp_admissible(ck, b, t, p));
                    assert(first_brp(ck, b, t, p) == first_brp(ck, b, t, p + 1));
                }
            }
            brp = brp + 1;
        }
        proof {
            assert(first_brp(ck, b, t, 33) is None);
            assert(first_solution(ck, b, level as int) == first_solution(ck, b, level as int + 1));
        }
        level = level + 1;
    }
    proof {
        assert(first_solution(ck, b, 3) is None);
    }
    Err(Error::InvalidBitrate(bitrate))
}

/// Bitrate actually produced by a timing setting: the quantum clock
/// `clk / brp` divided by the quanta per bit, both integer divisions.
pub fn effective_bitrate(clk: u32, bt: BitTiming) -> (r: u32)
    requires
        bt.brp >= 1,
        total_quanta(bt) <= u32::MAX,
    ensures
        r == clk as int / bt.brp as int / total_quanta(bt),
{
    clk / bt.brp / (bt.prop_seg + bt.phase_seg1 + bt.phase_seg2 + 1)
}

} // verus!
