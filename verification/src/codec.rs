use vstd::prelude::*;

verus! {

/// Bit 31 of the wire identifier field: set when the frame uses an
/// extended (29 bit) arbitration identifier.
pub const EXT_FLAG: u32 = 0x8000_0000;

/// Bit 30 of the wire identifier field: set for a Remote Transmission
/// Request frame.
pub const RTR_FLAG: u32 = 0x4000_0000;

/// Mask selecting the numeric arbitration identifier, i.e. the wire
/// identifier with the two flag bits stripped.
pub const ID_MASK: u32 = 0x3FFF_FFFF;

/// Echo identifier sentinel that marks a frame as genuinely received
/// from the bus. Any other echo identifier marks an echo of a frame
/// this device transmitted.
pub const RX_ECHO_ID: u32 = 0xFFFF_FFFF;

/// Echo identifier written into frames this host transmits.
pub const TX_ECHO_ID: u32 = 1;

/// Largest arbitration identifier of an extended (29 bit) frame.
pub const MAX_EXT_ID: u32 = 0x1FFF_FFFF;

/// Largest arbitration identifier of a standard (11 bit) frame.
pub const MAX_STD_ID: u32 = 0x7FF;

/// Controller Area Network frame, as seen by callers of this library.
#[derive(Debug, Clone)]
pub struct Frame {
    /// CAN frame arbitration ID.
    pub can_id: u32,

    /// CAN frame Data Length Code (DLC).
    pub can_dlc: u8,

    /// Device channel used to send or receive the frame.
    pub channel: u8,

    /// Frame data contents.
    pub data: [u8; 8],

    /// Extended (29 bit) arbitration identifier if true,
    /// standard (11 bit) arbitration identifier if false.
    pub ext: bool,

    /// CAN Flexible Data (CAN-FD) frame flag. Unsupported: always false.
    pub fd: bool,

    /// Loopback flag. When true, the frame was sent by this device.
    /// False for genuinely received frames.
    pub loopback: bool,

    /// Remote Transmission Request (RTR) flag.
    pub rtr: bool,

    /// Microseconds elapsed between session start and reception of the
    /// frame. None for frames constructed by the caller for sending.
    pub timestamp: Option<u64>,
}

/// Fixed-size frame record exchanged with the device.
#[derive(Debug, Clone, Copy)]
pub struct HostFrame {
    /// Distinguishes genuine receives from local transmit echoes.
    pub echo_id: u32,
    /// Arbitration id in the low 30 bits; bit 31 is the extended flag
    /// and bit 30 the RTR flag.
    pub can_id: u32,
    /// Data Length Code.
    pub can_dlc: u8,
    /// Channel index.
    pub channel: u8,
    /// Reserved protocol flags, written as zero.
    pub flags: u8,
    /// Reserved padding, written as zero.
    pub reserved: u8,
    /// Frame data contents.
    pub data: [u8; 8],
}

/// The arbitration identifier fits the bit width implied by the
/// extended flag: 29 bits when extended, 11 bits when standard.
pub open spec fn frame_id_valid(f: Frame) -> bool {
    if f.ext {
        f.can_id <= MAX_EXT_ID
    } else {
        f.can_id <= MAX_STD_ID
    }
}

/// Wire identifier: the numeric id with the extended flag packed into
/// bit 31 and the RTR flag into bit 30.
pub open spec fn wire_id(can_id: u32, ext: bool, rtr: bool) -> u32 {
    (can_id | (if ext {
        EXT_FLAG
    } else {
        0u32
    }) | (if rtr {
        RTR_FLAG
    } else {
        0u32
    }))
}

/// Wire form of a caller-supplied frame: echo identifier marks it as
/// locally originated, flags and reserved fields are zero, everything
/// else is carried over with the flag bits packed into the identifier.
pub open spec fn encoded(f: Frame) -> HostFrame {
    HostFrame {
        echo_id: TX_ECHO_ID,
        can_id: wire_id(f.can_id, f.ext, f.rtr),
        can_dlc: f.can_dlc,
        channel: f.channel,
        flags: 0,
        reserved: 0,
        data: f.data,
    }
}

/// Public form of a wire frame: flag bits are read from bits 31/30 and
/// stripped from the numeric id, loopback is derived from the echo
/// identifier, FD is always absent and no timestamp is attached yet.
pub open spec fn decoded(hf: HostFrame) -> Frame {
    Frame {
        can_id: hf.can_id & ID_MASK,
        can_dlc: hf.can_dlc,
        channel: hf.channel,
        data: hf.data,
        ext: hf.can_id & EXT_FLAG != 0,
        fd: false,
        loopback: hf.echo_id != RX_ECHO_ID,
        rtr: hf.can_id & RTR_FLAG != 0,
        timestamp: None,
    }
}

impl Frame {
    /// Convert to the frame format expected by the device.
    pub fn to_host_frame(&self) -> (hf: HostFrame)
        ensures
            hf == encoded(*self),
    {
        // if the frame is extended, set the extended bit in the wire CAN ID
        let mut can_id = if self.ext {
            self.can_id | EXT_FLAG
        } else {
            self.can_id
        };
        // if the frame is RTR, set the RTR bit in the wire CAN ID
        can_id = if self.rtr {
            can_id | RTR_FLAG
        } else {
            can_id
        };
        proof {
            let id = self.can_id;
            assert(id | 0u32 == id) by (bit_vector);
            assert((id | 0x8000_0000u32) | 0u32 == (id | 0x8000_0000u32)) by (bit_vector);
        }
        HostFrame {
            echo_id: TX_ECHO_ID,
            flags: 0,
            reserved: 0,
            can_id,
            can_dlc: self.can_dlc,
            channel: self.channel,
            data: self.data,
        }
    }

    /// Returns a default CAN frame with all values set to zero/false.
    pub fn default() -> (f: Frame)
        ensures
            f.can_id == 0,
            f.can_dlc == 0,
            f.channel == 0,
            forall|i: int| 0 <= i < 8 ==> f.data[i] == 0,
            !f.ext,
            !f.fd,
            !f.loopback,
            !f.rtr,
            f.timestamp is None,
            frame_id_valid(f),
    {
        Frame {
            can_id: 0,
            can_dlc: 0,
            data: [0u8; 8],
            channel: 0,
            ext: false,
            fd: false,
            loopback: false,
            rtr: false,
            timestamp: None,
        }
    }

    /// Read a wire frame back into the public representation.
    pub fn from_host_frame(hf: HostFrame) -> (f: Frame)
        ensures
            f == decoded(hf),
            f.loopback == (hf.echo_id != RX_ECHO_ID),
    {
        // extended and RTR flags sit in the top two bits of the wire id
        let ext = (hf.can_id & EXT_FLAG) > 0;
        let rtr = (hf.can_id & RTR_FLAG) > 0;
        // remove the flag bits from the CAN ID
        let can_id = hf.can_id & ID_MASK;
        // a genuine receive carries the reserved sentinel echo id
        let loopback = hf.echo_id != RX_ECHO_ID;

        Frame {
            can_id,
            can_dlc: hf.can_dlc,
            data: hf.data,
            channel: hf.channel,
            ext,
            loopback,
            rtr,
            fd: false,
            timestamp: None,
        }
    }
}

/// Law: encoding a frame whose identifier fits its flag's bit width and
/// decoding the result reproduces the identifier, DLC, channel, payload
/// and both flag bits exactly; the decoded frame reads as a local echo
/// and carries no FD flag and no timestamp.
pub proof fn lemma_codec_round_trip(f: Frame)
    requires
        frame_id_valid(f),
    ensures
        decoded(encoded(f)).can_id == f.can_id,
        decoded(encoded(f)).can_dlc == f.can_dlc,
        decoded(encoded(f)).channel == f.channel,
        decoded(encoded(f)).data == f.data,
        decoded(encoded(f)).ext == f.ext,
        decoded(encoded(f)).rtr == f.rtr,
        !decoded(encoded(f)).fd,
        decoded(encoded(f)).loopback,
        decoded(encoded(f)).timestamp is None,
{
    let id = f.can_id;
    let w = wire_id(f.can_id, f.ext, f.rtr);
    if f.ext {
        if f.rtr {
            assert((id | 0x8000_0000u32 | 0x4000_0000u32) & 0x3FFF_FFFFu32 == id
                && (id | 0x8000_0000u32 | 0x4000_0000u32) & 0x8000_0000u32 != 0
                && (id | 0x8000_0000u32 | 0x4000_0000u32) & 0x4000_0000u32 != 0) by (bit_vector)
                requires
                    id <= 0x1FFF_FFFFu32,
            ;
        } else {
            assert((id | 0x8000_0000u32 | 0u32) & 0x3FFF_FFFFu32 == id && (id | 0x8000_0000u32
                | 0u32) & 0x8000_0000u32 != 0 && (id | 0x8000_0000u32 | 0u32) & 0x4000_0000u32
                == 0) by (bit_vector)
                requires
                    id <= 0x1FFF_FFFFu32,
            ;
        }
    } else {
        if f.rtr {
            assert((id | 0u32 | 0x4000_0000u32) & 0x3FFF_FFFFu32 == id && (id | 0u32
                | 0x4000_0000u32) & 0x8000_0000u32 == 0 && (id | 0u32 | 0x4000_0000u32)
                & 0x4000_0000u32 != 0) by (bit_vector)
                requires
                    id <= 0x7FFu32,
            ;
        } else {
            assert((id | 0u32 | 0u32) & 0x3FFF_FFFFu32 == id && (id | 0u32 | 0u32)
                & 0x8000_0000u32 == 0 && (id | 0u32 | 0u32) & 0x4000_0000u32 == 0) by (bit_vector)
                requires
                    id <= 0x7FFu32,
            ;
        }
    }
    assert(w & ID_MASK == id);
    assert((w & EXT_FLAG != 0) == f.ext);
    assert((w & RTR_FLAG != 0) == f.rtr);
}

} // verus!
