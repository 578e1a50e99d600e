use vstd::prelude::*;

use crate::codec::decoded;
use crate::codec::Frame;
use crate::codec::HostFrame;

verus! {

/// What the inbound frame source handed the dispatcher.
#[derive(Debug, Clone, Copy)]
pub enum RxEvent {
    /// A wire frame arrived.
    Received(HostFrame),
    /// The source reported permanent closure: the transport was torn
    /// down and no further frame will ever arrive.
    Closed,
}

/// What the dispatcher must do with an event.
#[derive(Debug, Clone)]
pub enum DispatchAction {
    /// Invoke the caller's callback with this frame.
    Deliver(Frame),
    /// Leave the receive loop silently.
    Exit,
}

/// The decoded frame stamped with the time elapsed since session
/// start, in microseconds.
pub open spec fn stamped(hf: HostFrame, elapsed_micros: u64) -> Frame {
    Frame { timestamp: Some(elapsed_micros), ..decoded(hf) }
}

/// One step of the receive dispatcher: a received wire frame is
/// decoded, stamped with the elapsed time and delivered to the
/// callback; closure of the inbound source ends the loop with no error
/// surfaced. No partially-decoded frame is ever delivered.
pub fn dispatch_step(event: RxEvent, elapsed_micros: u64) -> (a: DispatchAction)
    ensures
        match event {
            RxEvent::Received(hf) => a matches DispatchAction::Deliver(f) && f == stamped(
                hf,
                elapsed_micros,
            ),
            RxEvent::Closed => a is Exit,
        },
{
    match event {
        RxEvent::Received(hf) => {
            let mut f = Frame::from_host_frame(hf);
            f.timestamp = Some(elapsed_micros);
            DispatchAction::Deliver(f)
        },
        RxEvent::Closed => DispatchAction::Exit,
    }
}

/// Law: frames that arrived before the inbound source closed are
/// delivered exactly once each and in arrival order. For wire frames
/// `frames[0..n]` with their elapsed-time stamps, the deliveries are
/// the decoded, stamped frames in the same order — one callback
/// invocation per inbound frame, none for anything after closure.
#[verifier::loop_isolation(false)]
pub fn deliveries_in_order(frames: &Vec<HostFrame>, stamps: &Vec<u64>) -> (out: Vec<Frame>)
    requires
        stamps@.len() == frames@.len(),
    ensures
        out@.len() == frames@.len(),
        forall|i: int| 0 <= i < frames@.len() ==> out@[i] == stamped(frames@[i], stamps@[i]),
{
    let mut out: Vec<Frame> = Vec::new();
    let mut i: usize = 0;
    while i < frames.len()
        invariant
            i <= frames@.len(),
            out@.len() == i,
            forall|j: int| 0 <= j < i ==> out@[j] == stamped(frames@[j], stamps@[j]),
        decreases frames@.len() - i,
    {
        match dispatch_step(RxEvent::Received(frames[i]), stamps[i]) {
            DispatchAction::Deliver(f) => out.push(f),
            DispatchAction::Exit => (),
        }
        i = i + 1;
    }
    out
}

} // verus!
