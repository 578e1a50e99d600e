use cantact::Frame;
use cantact::HostFrame;
use cantact::RX_ECHO_ID;
use cantact::TX_ECHO_ID;

fn test_frame(can_id: u32, ext: bool, rtr: bool) -> Frame {
    let mut f = Frame::default();
    f.can_id = can_id;
    f.can_dlc = 4;
    f.channel = 1;
    f.data = [1, 2, 3, 4, 0, 0, 0, 0];
    f.ext = ext;
    f.rtr = rtr;
    f
}

#[test]
fn default_frame_is_zeroed() {
    let f = Frame::default();
    assert_eq!(f.can_id, 0);
    assert_eq!(f.can_dlc, 0);
    assert_eq!(f.channel, 0);
    assert_eq!(f.data, [0u8; 8]);
    assert!(!f.ext);
    assert!(!f.fd);
    assert!(!f.loopback);
    assert!(!f.rtr);
    assert!(f.timestamp.is_none());
}

#[test]
fn encode_standard_frame() {
    let hf = test_frame(0x123, false, false).to_host_frame();
    assert_eq!(hf.echo_id, TX_ECHO_ID);
    assert_eq!(hf.can_id, 0x123);
    assert_eq!(hf.can_dlc, 4);
    assert_eq!(hf.channel, 1);
    assert_eq!(hf.flags, 0);
    assert_eq!(hf.reserved, 0);
    assert_eq!(hf.data, [1, 2, 3, 4, 0, 0, 0, 0]);
}

#[test]
fn round_trip_standard_frame() {
    let f = test_frame(0x123, false, false);
    let d = Frame::from_host_frame(f.to_host_frame());
    assert_eq!(d.can_id, 0x123);
    assert_eq!(d.can_dlc, 4);
    assert_eq!(d.channel, 1);
    assert_eq!(d.data, [1, 2, 3, 4, 0, 0, 0, 0]);
    assert!(!d.ext);
    assert!(!d.rtr);
    assert!(!d.fd);
}

#[test]
fn round_trip_extended_frame() {
    let f = test_frame(0x1ABCDEF0, true, false);
    let hf = f.to_host_frame();
    // the extended flag lands in bit 31 of the wire id
    assert_eq!(hf.can_id & 0x8000_0000, 0x8000_0000);
    let d = Frame::from_host_frame(hf);
    assert!(d.ext);
    assert!(!d.rtr);
    // the flag bit is stripped from the numeric id again
    assert_eq!(d.can_id, 0x1ABCDEF0);
}

#[test]
fn round_trip_rtr_frame() {
    let f = test_frame(0x456, false, true);
    let hf = f.to_host_frame();
    // the RTR flag lands in bit 30 of the wire id
    assert_eq!(hf.can_id & 0x4000_0000, 0x4000_0000);
    assert_eq!(hf.can_id & 0x8000_0000, 0);
    let d = Frame::from_host_frame(hf);
    assert!(!d.ext);
    assert!(d.rtr);
    assert_eq!(d.can_id, 0x456);
}

#[test]
fn round_trip_extended_rtr_frame() {
    let f = test_frame(0x1FFFFFFF, true, true);
    let d = Frame::from_host_frame(f.to_host_frame());
    assert!(d.ext);
    assert!(d.rtr);
    assert_eq!(d.can_id, 0x1FFFFFFF);
}

#[test]
fn sentinel_echo_id_means_genuine_receive() {
    let hf = HostFrame {
        echo_id: RX_ECHO_ID,
        can_id: 0x42,
        can_dlc: 0,
        channel: 0,
        flags: 0,
        reserved: 0,
        data: [0u8; 8],
    };
    let f = Frame::from_host_frame(hf);
    assert!(!f.loopback);
}

#[test]
fn other_echo_ids_mean_local_echo() {
    for echo in [0u32, 1, 2, 0xFFFF_FFFE] {
        let hf = HostFrame {
            echo_id: echo,
            can_id: 0x42,
            can_dlc: 0,
            channel: 0,
            flags: 0,
            reserved: 0,
            data: [0u8; 8],
        };
        let f = Frame::from_host_frame(hf);
        assert!(f.loopback);
    }
}

#[test]
fn decode_never_reports_fd() {
    let hf = HostFrame {
        echo_id: RX_ECHO_ID,
        can_id: 0xFFFF_FFFF,
        can_dlc: 8,
        channel: 3,
        flags: 0xFF,
        reserved: 0xFF,
        data: [9; 8],
    };
    let f = Frame::from_host_frame(hf);
    assert!(!f.fd);
    assert!(f.ext);
    assert!(f.rtr);
    assert_eq!(f.can_id, 0x3FFF_FFFF);
    assert!(f.timestamp.is_none());
}
