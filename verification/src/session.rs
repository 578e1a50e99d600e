use vstd::prelude::*;

use crate::codec::encoded;
use crate::codec::Frame;
use crate::codec::HostFrame;
use crate::error::Error;
use crate::timing::calculate_bit_timing;
use crate::timing::timing_solution;
use crate::timing::BitTiming;

verus! {

/// Feature flag bit selecting listen-only (monitor) mode in a mode-set
/// command.
pub const FEATURE_LISTEN_ONLY: u32 = 1;

/// Feature flag bit selecting hardware loopback mode in a mode-set
/// command.
pub const FEATURE_LOOP_BACK: u32 = 2;

/// Configuration for a device's CAN channel.
#[derive(Debug, Clone, Copy, PartialEq, Eq, Structural)]
pub struct Channel {
    /// Bitrate of the channel in bits/second.
    pub bitrate: u32,
    /// When true, the channel participates in start and stop.
    pub enabled: bool,
    /// When true, the channel runs in hardware loopback mode.
    pub loopback: bool,
    /// When true, the channel is receive-only and never transmits.
    pub monitor: bool,
}

/// On-bus state requested of a channel by a mode-set command.
#[derive(Debug, Clone, Copy, PartialEq, Eq, Structural)]
pub enum CanMode {
    /// Go on bus.
    Start,
    /// Go off bus.
    Reset,
}

/// One mode-set command for the transport to issue to the device.
#[derive(Debug, Clone, Copy, PartialEq, Eq, Structural)]
pub struct ModeCommand {
    /// Channel the command addresses.
    pub channel: u16,
    /// Requested on-bus state.
    pub mode: CanMode,
    /// Feature flag bitmask; zero when going off bus.
    pub flags: u32,
}

/// Configuration every channel starts out with: no bitrate set,
/// enabled, no loopback, no monitor mode.
pub open spec fn default_channel() -> Channel {
    Channel { bitrate: 0, enabled: true, loopback: false, monitor: false }
}

/// Feature flag bitmask reflecting a channel's monitor and loopback
/// settings.
pub open spec fn channel_flags(ch: Channel) -> u32 {
    ((if ch.monitor {
        FEATURE_LISTEN_ONLY
    } else {
        0u32
    }) | (if ch.loopback {
        FEATURE_LOOP_BACK
    } else {
        0u32
    }))
}

/// The mode-set command addressed to channel `i`: feature flags are
/// carried when going on bus and zero when going off bus.
pub open spec fn command_for(i: int, ch: Channel, mode: CanMode) -> ModeCommand {
    ModeCommand {
        channel: i as u16,
        mode,
        flags: if mode is Start {
            channel_flags(ch)
        } else {
            0
        },
    }
}

/// Mode-set commands for every enabled channel, in channel order.
pub open spec fn mode_commands(cfgs: Seq<Channel>, mode: CanMode) -> Seq<ModeCommand>
    decreases cfgs.len(),
{
    if cfgs.len() == 0 {
        Seq::empty()
    } else {
        let prefix = mode_commands(cfgs.drop_last(), mode);
        if cfgs.last().enabled {
            prefix.push(command_for(cfgs.len() - 1, cfgs.last(), mode))
        } else {
            prefix
        }
    }
}

/// Session state for one CANtact device: the descriptor values read at
/// construction, the per-channel configuration, and the running flag.
///
/// The session computes what the device must be told; issuing the
/// commands over USB is the transport's business, outside this crate.
#[derive(Debug)]
pub struct Interface {
    running: bool,
    can_clock: u32,
    // zero indexed (0 = 1 channel, 1 = 2 channels, ...)
    channel_count: usize,
    sw_version: u32,
    hw_version: u32,
    channels: Vec<Channel>,
}

impl Interface {
    /// The configuration array covers exactly the channels the device
    /// reported (its count is a zero-based maximum index), and channel
    /// indices fit the wire protocol's 16-bit channel field.
    pub closed spec fn wf(&self) -> bool {
        &&& self.channels@.len() == self.channel_count + 1
        &&& self.channels@.len() <= 0x1_0000
    }

    /// Whether the session is on bus.
    pub closed spec fn is_running(&self) -> bool {
        self.running
    }

    /// The per-channel configuration.
    pub closed spec fn config(&self) -> Seq<Channel> {
        self.channels@
    }

    /// Number of channels, inclusive of channel zero.
    pub closed spec fn num_channels(&self) -> int {
        self.channels@.len() as int
    }

    /// CAN clock frequency the device reported, in Hz.
    pub closed spec fn clock(&self) -> u32 {
        self.can_clock
    }

    /// Software and hardware version identifiers the device reported.
    pub closed spec fn versions(&self) -> (u32, u32) {
        (self.sw_version, self.hw_version)
    }

    /// Build a session from the values of the device descriptor:
    /// zero-based maximum channel index, CAN clock frequency and the
    /// two version identifiers. Starts stopped, with every channel at
    /// the default configuration.
    pub fn new(channel_count: usize, can_clock: u32, sw_version: u32, hw_version: u32) -> (i:
        Interface)
        requires
            channel_count < 0x1_0000,
        ensures
            i.wf(),
            !i.is_running(),
            i.num_channels() == channel_count + 1,
            forall|j: int| 0 <= j < i.num_channels() ==> i.config()[j] == default_channel(),
            i.clock() == can_clock,
            i.versions() == (sw_version, hw_version),
    {
        let mut channels: Vec<Channel> = Vec::new();
        let mut k: usize = 0;
        // note: channel_count is zero indexed
        while k < channel_count + 1
            invariant
                k <= channel_count + 1,
                channel_count < 0x1_0000,
                channels@.len() == k,
                forall|j: int| 0 <= j < k ==> channels@[j] == default_channel(),
            decreases channel_count + 1 - k,
        {
            channels.push(Channel { bitrate: 0, enabled: true, loopback: false, monitor: false });
            k = k + 1;
        }
        Interface { running: false, can_clock, channel_count, sw_version, hw_version, channels }
    }

    /// Returns the number of channels this interface has.
    pub fn channels(&self) -> (n: usize)
        requires
            self.wf(),
        ensures
            n == self.num_channels(),
    {
        self.channel_count + 1
    }

    /// Set the bitrate for the given channel. The timing solver runs on
    /// the device's clock; on success the solved register values are
    /// returned for the transport to push, and the requested bitrate is
    /// recorded. Allowed while running: timing registers can be
    /// reprogrammed without a bus reset.
    pub fn set_bitrate(&mut self, channel: usize, bitrate: u32) -> (r: Result<BitTiming, Error>)
        requires
            old(self).wf(),
        ensures
            final(self).wf(),
            final(self).is_running() == old(self).is_running(),
            final(self).num_channels() == old(self).num_channels(),
            final(self).clock() == old(self).clock(),
            final(self).versions() == old(self).versions(),
            channel >= old(self).num_channels() ==> r == Err::<BitTiming, Error>(
                Error::InvalidChannel,
            ) && final(self).config() == old(self).config(),
            channel < old(self).num_channels() ==> match timing_solution(
                old(self).clock() as int,
                bitrate as int,
            ) {
                Some(sol) => {
                    &&& r matches Ok(bt) && sol == (
                        bt.brp as int,
                        bt.phase_seg1 as int,
                        bt.phase_seg2 as int,
                    ) && bt.prop_seg == 0 && bt.sjw == 1
                    &&& final(self).config() == old(self).config().update(
                        channel as int,
                        (Channel {
                            bitrate,
                            enabled: old(self).config()[channel as int].enabled,
                            loopback: old(self).config()[channel as int].loopback,
                            monitor: old(self).config()[channel as int].monitor,
                        }),
                    )
                },
                None => r == Err::<BitTiming, Error>(Error::InvalidBitrate(bitrate))
                    && final(self).config() == old(self).config(),
            },
    {
        if channel > self.channel_count {
            return Err(Error::InvalidChannel);
        }
        let bt = match calculate_bit_timing(self.can_clock, bitrate) {
            Ok(bt) => bt,
            Err(e) => return Err(e),
        };
        self.channels[channel].bitrate = bitrate;
        proof {
            assert(self.channels@ =~= old(self).channels@.update(
                channel as int,
                (Channel {
                    bitrate,
                    enabled: old(self).channels@[channel as int].enabled,
                    loopback: old(self).channels@[channel as int].loopback,
                    monitor: old(self).channels@[channel as int].monitor,
                }),
            ));
        }
        Ok(bt)
    }

    /// Hand the transport caller-supplied bit-timing register values
    /// for the given channel, bypassing the solver. The propagation
    /// segment is fixed at zero.
    pub fn set_bit_timing(
        &mut self,
        channel: usize,
        brp: u32,
        phase_seg1: u32,
        phase_seg2: u32,
        sjw: u32,
    ) -> (r: Result<BitTiming, Error>)
        requires
            old(self).wf(),
        ensures
            *final(self) == *old(self),
            channel >= old(self).num_channels() ==> r == Err::<BitTiming, Error>(
                Error::InvalidChannel,
            ),
            channel < old(self).num_channels() ==> r == Ok::<BitTiming, Error>(
                (BitTiming { brp, prop_seg: 0, phase_seg1, phase_seg2, sjw }),
            ),
    {
        if channel > self.channel_count {
            return Err(Error::InvalidChannel);
        }
        Ok(BitTiming { brp, prop_seg: 0, phase_seg1, phase_seg2, sjw })
    }

    /// Enable or disable a channel's listen-only (monitor) mode. Only
    /// allowed while the session is stopped: hardware mode bits are
    /// programmed at start.
    pub fn set_monitor(&mut self, channel: usize, enabled: bool) -> (r: Result<(), Error>)
        requires
            old(self).wf(),
        ensures
            final(self).wf(),
            final(self).is_running() == old(self).is_running(),
            final(self).num_channels() == old(self).num_channels(),
            final(self).clock() == old(self).clock(),
            final(self).versions() == old(self).versions(),
            channel >= old(self).num_channels() ==> r == Err::<(), Error>(Error::InvalidChannel)
                && final(self).config() == old(self).config(),
            channel < old(self).num_channels() && old(self).is_running() ==> r == Err::<(), Error>(
                Error::Running,
            ) && final(self).config() == old(self).config(),
            channel < old(self).num_channels() && !old(self).is_running() ==> r == Ok::<(), Error>(
                (),
            ) && final(self).config() == old(self).config().update(
                channel as int,
                (Channel {
                    bitrate: old(self).config()[channel as int].bitrate,
                    enabled: old(self).config()[channel as int].enabled,
                    loopback: old(self).config()[channel as int].loopback,
                    monitor: enabled,
                }),
            ),
    {
        if channel > self.channel_count {
            return Err(Error::InvalidChannel);
        }
        if self.running {
            return Err(Error::Running);
        }
        self.channels[channel].monitor = enabled;
        proof {
            assert(self.channels@ =~= old(self).channels@.update(
                channel as int,
                (Channel {
                    bitrate: old(self).channels@[channel as int].bitrate,
                    enabled: old(self).channels@[channel as int].enabled,
                    loopback: old(self).channels@[channel as int].loopback,
                    monitor: enabled,
                }),
            ));
        }
        Ok(())
    }

    /// Enable or disable a channel's participation in start and stop.
    /// Only allowed while the session is stopped.
    pub fn set_enabled(&mut self, channel: usize, enabled: bool) -> (r: Result<(), Error>)
        requires
            old(self).wf(),
        ensures
            final(self).wf(),
            final(self).is_running() == old(self).is_running(),
            final(self).num_channels() == old(self).num_channels(),
            final(self).clock() == old(self).clock(),
            final(self).versions() == old(self).versions(),
            channel >= old(self).num_channels() ==> r == Err::<(), Error>(Error::InvalidChannel)
                && final(self).config() == old(self).config(),
            channel < old(self).num_channels() && old(self).is_running() ==> r == Err::<(), Error>(
                Error::Running,
            ) && final(self).config() == old(self).config(),
            channel < old(self).num_channels() && !old(self).is_running() ==> r == Ok::<(), Error>(
                (),
            ) && final(self).config() == old(self).config().update(
                channel as int,
                (Channel {
                    bitrate: old(self).config()[channel as int].bitrate,
                    enabled,
                    loopback: old(self).config()[channel as int].loopback,
                    monitor: old(self).config()[channel as int].monitor,
                }),
            ),
    {
        if channel > self.channel_count {
            return Err(Error::InvalidChannel);
        }
        if self.running {
            return Err(Error::Running);
        }
        self.channels[channel].enabled = enabled;
        proof {
            assert(self.channels@ =~= old(self).channels@.update(
                channel as int,
                (Channel {
                    bitrate: old(self).channels@[channel as int].bitrate,
                    enabled,
                    loopback: old(self).channels@[channel as int].loopback,
                    monitor: old(self).channels@[channel as int].monitor,
                }),
            ));
        }
        Ok(())
    }

    /// Enable or disable a channel's loopback mode, in which frames
    /// sent by the device are received back as if another node had sent
    /// them. Only allowed while the session is stopped.
    pub fn set_loopback(&mut self, channel: usize, enabled: bool) -> (r: Result<(), Error>)
        requires
            old(self).wf(),
        ensures
            final(self).wf(),
            final(self).is_running() == old(self).is_running(),
            final(self).num_channels() == old(self).num_channels(),
            final(self).clock() == old(self).clock(),
            final(self).versions() == old(self).versions(),
            channel >= old(self).num_channels() ==> r == Err::<(), Error>(Error::InvalidChannel)
                && final(self).config() == old(self).config(),
            channel < old(self).num_channels() && old(self).is_running() ==> r == Err::<(), Error>(
                Error::Running,
            ) && final(self).config() == old(self).config(),
            channel < old(self).num_channels() && !old(self).is_running() ==> r == Ok::<(), Error>(
                (),
            ) && final(self).config() == old(self).config().update(
                channel as int,
                (Channel {
                    bitrate: old(self).config()[channel as int].bitrate,
                    enabled: old(self).config()[channel as int].enabled,
                    loopback: enabled,
                    monitor: old(self).config()[channel as int].monitor,
                }),
            ),
    {
        if channel > self.channel_count {
            return Err(Error::InvalidChannel);
        }
        if self.running {
            return Err(Error::Running);
        }
        self.channels[channel].loopback = enabled;
        proof {
            assert(self.channels@ =~= old(self).channels@.update(
                channel as int,
                (Channel {
                    bitrate: old(self).channels@[channel as int].bitrate,
                    enabled: old(self).channels@[channel as int].enabled,
                    loopback: enabled,
                    monitor: old(self).channels@[channel as int].monitor,
                }),
            ));
        }
        Ok(())
    }

    /// Go on bus: flips the session to running and returns the start
    /// command for every enabled channel, carrying that channel's
    /// feature flags, for the transport to issue in order.
    pub fn start(&mut self) -> (cmds: Vec<ModeCommand>)
        requires
            old(self).wf(),
        ensures
            final(self).wf(),
            final(self).is_running(),
            final(self).config() == old(self).config(),
            final(self).num_channels() == old(self).num_channels(),
            final(self).clock() == old(self).clock(),
            final(self).versions() == old(self).versions(),
            cmds@ == mode_commands(old(self).config(), CanMode::Start),
    {
        let cmds = mode_commands_for(&self.channels, CanMode::Start);
        self.running = true;
        cmds
    }

    /// Go off bus: flips the session to stopped and returns the reset
    /// command for every enabled channel for the transport to issue in
    /// order. This is also the cooperative shutdown signal the receive
    /// dispatcher polls.
    pub fn stop(&mut self) -> (cmds: Vec<ModeCommand>)
        requires
            old(self).wf(),
        ensures
            final(self).wf(),
            !final(self).is_running(),
            final(self).config() == old(self).config(),
            final(self).num_channels() == old(self).num_channels(),
            final(self).clock() == old(self).clock(),
            final(self).versions() == old(self).versions(),
            cmds@ == mode_commands(old(self).config(), CanMode::Reset),
    {
        let cmds = mode_commands_for(&self.channels, CanMode::Reset);
        self.running = false;
        cmds
    }

    /// Encode a frame for transmission. Fails with NotRunning while the
    /// session is off bus; otherwise hands back the wire frame for the
    /// transport to send.
    pub fn send(&mut self, f: Frame) -> (r: Result<HostFrame, Error>)
        requires
            old(self).wf(),
        ensures
            final(self).wf(),
            final(self).is_running() == old(self).is_running(),
            final(self).config() == old(self).config(),
            final(self).num_channels() == old(self).num_channels(),
            final(self).clock() == old(self).clock(),
            final(self).versions() == old(self).versions(),
            !old(self).is_running() ==> r == Err::<HostFrame, Error>(Error::NotRunning),
            old(self).is_running() ==> r == Ok::<HostFrame, Error>(encoded(f)),
    {
        if !self.running {
            return Err(Error::NotRunning);
        }
        Ok(f.to_host_frame())
    }
}

/// Mode-set commands for every enabled channel in `channels`, in
/// channel order, with the feature flags implied by `mode`.
#[verifier::loop_isolation(false)]
fn mode_commands_for(channels: &Vec<Channel>, mode: CanMode) -> (cmds: Vec<ModeCommand>)
    requires
        channels@.len() <= 0x1_0000,
    ensures
        cmds@ == mode_commands(channels@, mode),
{
    let mut cmds: Vec<ModeCommand> = Vec::new();
    let mut i: usize = 0;
    while i < channels.len()
        invariant
            i <= channels@.len(),
            cmds@ == mode_commands(channels@.take(i as int), mode),
        decreases channels@.len() - i,
    {
        let ch = channels[i];
        let flags: u32 = match mode {
            CanMode::Start => {
                let m: u32 = if ch.monitor {
                    FEATURE_LISTEN_ONLY
                } else {
                    0
                };
                let l: u32 = if ch.loopback {
                    FEATURE_LOOP_BACK
                } else {
                    0
                };
                m | l
            },
            CanMode::Reset => 0,
        };
        proof {
            let s = channels@.take(i as int + 1);
            assert(s.drop_last() =~= channels@.take(i as int));
            assert(s.last() == channels@[i as int]);
        }
        if ch.enabled {
            cmds.push(ModeCommand { channel: i as u16, mode, flags });
        }
        i = i + 1;
    }
    proof {
        assert(channels@.take(channels@.len() as int) =~= channels@);
    }
    cmds
}

} // verus!
