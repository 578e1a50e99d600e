//! Userspace driver core for CANtact-style USB CAN adapters.
//!
//! The crate holds the verified logic of the driver: the bit-timing
//! solver that turns a requested bitrate into hardware register values,
//! the codec between the public [`Frame`] type and the device wire
//! format, and the session state machine that tracks per-channel
//! configuration and the running/stopped state. USB transport and
//! threading live outside this crate and exchange plain values with it.

mod codec;
mod dispatch;
mod error;
mod session;
mod timing;

pub use codec::decoded;
pub use codec::encoded;
pub use codec::frame_id_valid;
pub use codec::lemma_codec_round_trip;
pub use codec::wire_id;
pub use codec::Frame;
pub use codec::HostFrame;
pub use codec::EXT_FLAG;
pub use codec::ID_MASK;
pub use codec::MAX_EXT_ID;
pub use codec::MAX_STD_ID;
pub use codec::RTR_FLAG;
pub use codec::RX_ECHO_ID;
pub use codec::TX_ECHO_ID;
pub use dispatch::deliveries_in_order;
pub use dispatch::dispatch_step;
pub use dispatch::stamped;
pub use dispatch::DispatchAction;
pub use dispatch::RxEvent;
pub use error::Error;
pub use session::channel_flags;
pub use session::command_for;
pub use session::default_channel;
pub use session::mode_commands;
pub use session::CanMode;
pub use session::Channel;
pub use session::Interface;
pub use session::ModeCommand;
pub use session::FEATURE_LISTEN_ONLY;
pub use session::FEATURE_LOOP_BACK;
pub use timing::calculate_bit_timing;
pub use timing::effective_bitrate;
pub use timing::lemma_tolerance_widens;
pub use timing::timing_solution;
pub use timing::total_quanta;
pub use timing::within_tolerance;
pub use timing::BitTiming;
