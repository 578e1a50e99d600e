use cantact::deliveries_in_order;
use cantact::dispatch_step;
use cantact::DispatchAction;
use cantact::HostFrame;
use cantact::RxEvent;
use cantact::RX_ECHO_ID;

fn rx_frame(can_id: u32) -> HostFrame {
    HostFrame {
        echo_id: RX_ECHO_ID,
        can_id,
        can_dlc: 1,
        channel: 0,
        flags: 0,
        reserved: 0,
        data: [7, 0, 0, 0, 0, 0, 0, 0],
    }
}

#[test]
fn received_frame_is_delivered_with_timestamp() {
    match dispatch_step(RxEvent::Received(rx_frame(0x77)), 1500) {
        DispatchAction::Deliver(f) => {
            assert_eq!(f.can_id, 0x77);
            assert_eq!(f.timestamp, Some(1500));
            assert!(!f.loopback);
        }
        DispatchAction::Exit => panic!("a received frame must be delivered"),
    }
}

#[test]
fn closed_source_ends_the_loop() {
    assert!(matches!(dispatch_step(RxEvent::Closed, 0), DispatchAction::Exit));
}

#[test]
fn frames_are_delivered_fifo() {
    // three frames arrive before the source closes: three deliveries,
    // in arrival order
    let frames = vec![rx_frame(1), rx_frame(2), rx_frame(3)];
    let stamps = vec![10, 20, 30];
    let out = deliveries_in_order(&frames, &stamps);
    assert_eq!(out.len(), 3);
    for (k, f) in out.iter().enumerate() {
        assert_eq!(f.can_id, (k + 1) as u32);
        assert_eq!(f.timestamp, Some((10 * (k + 1)) as u64));
    }
}

#[test]
fn no_frames_mean_no_deliveries() {
    let out = deliveries_in_order(&Vec::new(), &Vec::new());
    assert!(out.is_empty());
}
