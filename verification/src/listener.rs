//! The streaming listener: a state machine that keeps a persistent
//! connection alive across failures with a fixed reconnect delay, decodes
//! inbound frames, and forwards well-formed messages to the relay in
//! arrival order. Stopping is reachable through cancellation alone.
use vstd::prelude::*;
use crate::model::{message_from_text, spec_message_of_text, MessageView};
use crate::relay::Relay;

verus! {

/// The fixed wait before every reconnect attempt, in seconds. There is no
/// backoff and no attempt cap: the listener is meant to run for the life
/// of the connection, and the server may recover at any time.
pub const RECONNECT_DELAY_SECS: u64 = 5;

/// Where the listener stands in its connect/stream/reconnect life.
#[derive(Debug, Clone, Copy, PartialEq, Eq, Structural)]
pub enum ListenerState {
    /// Before the first connect attempt.
    Idle,
    /// Attempting the transport handshake on the streaming endpoint.
    Connecting,
    /// Reading inbound frames in a loop.
    Streaming,
    /// Tearing the connection down after a close or read error.
    Closing,
    /// Waiting out the fixed delay before connecting again.
    Reconnecting,
    /// Terminal: reached only through explicit cancellation.
    Stopped,
}

/// What the outside world reports to the listener at a suspension point.
#[derive(Debug, Clone, Copy, PartialEq, Eq, Structural)]
pub enum ListenerEvent {
    /// The owning connection asks for the first attempt.
    Start,
    /// The transport handshake succeeded.
    ConnectOk,
    /// The transport handshake failed.
    ConnectFailed,
    /// A text frame arrived; its payload goes through `handle_frame`.
    FrameReceived,
    /// A control close frame or a read error ended the stream.
    StreamClosed,
    /// The transport teardown finished.
    CloseDone,
    /// The reconnect delay ran out.
    DelayElapsed,
    /// The owning connection was torn down.
    Cancel,
}

/// What the driver must do next.
#[derive(Debug, Clone, Copy, PartialEq, Eq, Structural)]
pub enum ListenerAction {
    /// Open the transport against the streaming endpoint.
    Connect,
    /// Read the next inbound frame.
    ReadFrame,
    /// Tear the transport down, best effort.
    CloseTransport,
    /// Sleep for the given number of seconds.
    Delay(u64),
    /// Release every resource and end the task.
    Stop,
    /// The event does not apply in this state; keep waiting.
    Ignore,
}

/// The transition table. Cancellation wins in every state; a lost stream
/// walks Closing, then Reconnecting with the fixed delay, then Connecting
/// again; Stopped is final.
pub open spec fn spec_step(s: ListenerState, e: ListenerEvent) -> (ListenerState, ListenerAction) {
    if e == ListenerEvent::Cancel {
        (ListenerState::Stopped, ListenerAction::Stop)
    } else if s == ListenerState::Stopped {
        (ListenerState::Stopped, ListenerAction::Stop)
    } else if s == ListenerState::Idle && e == ListenerEvent::Start {
        (ListenerState::Connecting, ListenerAction::Connect)
    } else if s == ListenerState::Connecting && e == ListenerEvent::ConnectOk {
        (ListenerState::Streaming, ListenerAction::ReadFrame)
    } else if s == ListenerState::Connecting && e == ListenerEvent::ConnectFailed {
        (ListenerState::Reconnecting, ListenerAction::Delay(RECONNECT_DELAY_SECS))
    } else if s == ListenerState::Streaming && e == ListenerEvent::FrameReceived {
        (ListenerState::Streaming, ListenerAction::ReadFrame)
    } else if s == ListenerState::Streaming && e == ListenerEvent::StreamClosed {
        (ListenerState::Closing, ListenerAction::CloseTransport)
    } else if s == ListenerState::Closing && e == ListenerEvent::CloseDone {
        (ListenerState::Reconnecting, ListenerAction::Delay(RECONNECT_DELAY_SECS))
    } else if s == ListenerState::Reconnecting && e == ListenerEvent::DelayElapsed {
        (ListenerState::Connecting, ListenerAction::Connect)
    } else {
        (s, ListenerAction::Ignore)
    }
}

/// Advances the listener by one observed event.
pub fn step(s: ListenerState, e: ListenerEvent) -> (r: (ListenerState, ListenerAction))
    ensures
        r == spec_step(s, e),
{
    if e == ListenerEvent::Cancel {
        (ListenerState::Stopped, ListenerAction::Stop)
    } else if s == ListenerState::Stopped {
        (ListenerState::Stopped, ListenerAction::Stop)
    } else if s == ListenerState::Idle && e == ListenerEvent::Start {
        (ListenerState::Connecting, ListenerAction::Connect)
    } else if s == ListenerState::Connecting && e == ListenerEvent::ConnectOk {
        (ListenerState::Streaming, ListenerAction::ReadFrame)
    } else if s == ListenerState::Connecting && e == ListenerEvent::ConnectFailed {
        (ListenerState::Reconnecting, ListenerAction::Delay(RECONNECT_DELAY_SECS))
    } else if s == ListenerState::Streaming && e == ListenerEvent::FrameReceived {
        (ListenerState::Streaming, ListenerAction::ReadFrame)
    } else if s == ListenerState::Streaming && e == ListenerEvent::StreamClosed {
        (ListenerState::Closing, ListenerAction::CloseTransport)
    } else if s == ListenerState::Closing && e == ListenerEvent::CloseDone {
        (ListenerState::Reconnecting, ListenerAction::Delay(RECONNECT_DELAY_SECS))
    } else if s == ListenerState::Reconnecting && e == ListenerEvent::DelayElapsed {
        (ListenerState::Connecting, ListenerAction::Connect)
    } else {
        (s, ListenerAction::Ignore)
    }
}

/// The listener never ends on its own: no event short of cancellation
/// takes any state to Stopped.
pub proof fn lemma_stop_only_by_cancel(s: ListenerState, e: ListenerEvent)
    requires
        s != ListenerState::Stopped,
        e != ListenerEvent::Cancel,
    ensures
        spec_step(s, e).0 != ListenerState::Stopped,
{
}

/// Every delay the machine ever asks for is the same fixed one: repeated
/// failures raise no backoff and count no attempts.
pub proof fn lemma_fixed_delay(s: ListenerState, e: ListenerEvent)
    ensures
        spec_step(s, e).1 matches ListenerAction::Delay(d) ==> d == RECONNECT_DELAY_SECS,
{
}

/// One lost connection walks exactly one cycle: established, closed, torn
/// down, the fixed delay, and connecting again — so a connection that dies
/// right after establishing, however often, repeats this same cycle.
pub proof fn lemma_reconnect_cycle()
    ensures
        spec_step(ListenerState::Connecting, ListenerEvent::ConnectOk) == (
            ListenerState::Streaming,
            ListenerAction::ReadFrame,
        ),
        spec_step(ListenerState::Streaming, ListenerEvent::StreamClosed) == (
            ListenerState::Closing,
            ListenerAction::CloseTransport,
        ),
        spec_step(ListenerState::Closing, ListenerEvent::CloseDone) == (
            ListenerState::Reconnecting,
            ListenerAction::Delay(RECONNECT_DELAY_SECS),
        ),
        spec_step(ListenerState::Reconnecting, ListenerEvent::DelayElapsed) == (
            ListenerState::Connecting,
            ListenerAction::Connect,
        ),
{
}

/// Cancellation observed during the reconnect delay stops the listener at
/// once: the next action is to stop, never another connect attempt.
pub proof fn lemma_cancel_in_delay()
    ensures
        spec_step(ListenerState::Reconnecting, ListenerEvent::Cancel) == (
            ListenerState::Stopped,
            ListenerAction::Stop,
        ),
        spec_step(ListenerState::Reconnecting, ListenerEvent::Cancel).1
            != ListenerAction::Connect,
{
}

/// What one frame contributes to the relay: the decoded message, or
/// nothing for a frame that does not decode as one.
pub open spec fn spec_frame_emission(s: Seq<char>) -> Seq<MessageView> {
    match spec_message_of_text(s) {
        Some(mv) => seq![mv],
        None => Seq::<MessageView>::empty(),
    }
}

/// Handles one inbound text frame while streaming: a frame that decodes
/// as a message is pushed to the relay in arrival order; any other frame
/// is discarded and never tears the connection down.
pub fn handle_frame(relay: &mut Relay, frame: &str)
    requires
        !old(relay).spec_closed(),
    ensures
        !final(relay).spec_closed(),
        final(relay)@ == old(relay)@ + spec_frame_emission(frame@),
{
    match message_from_text(frame) {
        Some(m) => {
            relay.push(m);
            proof {
                assert(relay@ =~= old(relay)@ + spec_frame_emission(frame@));
            }
        },
        None => {
            proof {
                assert(relay@ =~= old(relay)@ + spec_frame_emission(frame@));
            }
        },
    }
}

/// What the first `i` frames of a batch contribute, in arrival order.
pub open spec fn spec_frames_emission_upto(frames: Seq<String>, i: int) -> Seq<MessageView>
    decreases i,
{
    if i <= 0 {
        Seq::empty()
    } else {
        spec_frames_emission_upto(frames, i - 1) + spec_frame_emission(frames[i - 1]@)
    }
}

/// Feeds a batch of frames in order: exactly the frames that decode
/// appear on the relay, in arrival order, and the malformed ones add
/// nothing and fail nothing.
pub fn feed_frames(relay: &mut Relay, frames: &Vec<String>)
    requires
        !old(relay).spec_closed(),
    ensures
        !final(relay).spec_closed(),
        final(relay)@ == old(relay)@ + spec_frames_emission_upto(frames@, frames@.len() as int),
{
    let len = frames.len();
    let mut i: usize = 0;
    proof {
        assert(relay@ =~= old(relay)@ + spec_frames_emission_upto(frames@, 0));
    }
    while i < len
        invariant
            len == frames@.len(),
            0 <= i <= len,
            !relay.spec_closed(),
            relay@ == old(relay)@ + spec_frames_emission_upto(frames@, i as int),
        decreases len - i,
    {
        handle_frame(relay, frames[i].as_str());
        proof {
            assert(relay@ =~= old(relay)@ + spec_frames_emission_upto(frames@, i as int + 1));
        }
        i = i + 1;
    }
}

} // verus!
