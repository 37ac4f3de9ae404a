use vstd::prelude::*;

verus! {

use crate::relay::Relay;
use vstd::pervasive::unreached;
use crate::relay::RecvResult;
use crate::relay::SendResult;
use crate::text::channel_closed_message;
use crate::text::outbound_log_line;
use crate::text::spec_outbound_log_line;

/// What one inbound invocation decided.
#[derive(Debug)]
pub enum InboundOutcome {
    /// The command text was forwarded into the relay.
    Accepted,
    /// The relay is full: the invocation must suspend and retry with the text
    /// handed back here once the consumer has drained an item.
    MustWait(String),
    /// The relay is closed; the error string for the caller.
    Rejected(String),
}

/// One step of the inbound handler: forwards the received command text into
/// the relay when there is room, asks the caller to wait when the relay is
/// full, and rejects with the closed-channel error when the consumer is gone.
/// The surrounding task performs the waiting; this function decides.
pub fn inbound_step(relay: &mut Relay, message: String) -> (r: InboundOutcome)
    ensures
        final(relay).capacity() == old(relay).capacity(),
        final(relay).sender_open() == old(relay).sender_open(),
        final(relay).receiver_open() == old(relay).receiver_open(),
        old(relay).send_ok() ==> (r matches InboundOutcome::Accepted && final(relay).queue()
            == old(relay).queue().push(message@)),
        old(relay).send_would_block() ==> (r matches InboundOutcome::MustWait(m) && m@ == message@
            && final(relay).queue() == old(relay).queue()),
        old(relay).send_closed() ==> (r matches InboundOutcome::Rejected(e) && e@
            == "channel closed"@ && final(relay).queue() == old(relay).queue()),
        old(relay).wf() ==> final(relay).wf(),
{
    match relay.try_send(message) {
        SendResult::Sent => InboundOutcome::Accepted,
        SendResult::WouldBlock(m) => InboundOutcome::MustWait(m),
        SendResult::Closed(_) => InboundOutcome::Rejected(channel_closed_message()),
    }
}

/// The inbound surface as the presentation layer invokes it: pushes the
/// command text into the relay and reports a closed relay as an error string,
/// never as a process abort. A full relay suspends the real invocation until
/// the consumer frees a slot; this sequential model therefore asks, through
/// its precondition, to be called once that wait is over (`inbound_step` is
/// the total variant that reports the wait instead).
pub fn on_command(relay: &mut Relay, message: String) -> (r: Result<(), String>)
    requires
        old(relay).receiver_open() ==> old(relay).queue().len() < old(relay).capacity(),
    ensures
        final(relay).capacity() == old(relay).capacity(),
        final(relay).sender_open() == old(relay).sender_open(),
        final(relay).receiver_open() == old(relay).receiver_open(),
        old(relay).send_ok() ==> (r matches Ok(()) && final(relay).queue()
            == old(relay).queue().push(message@)),
        old(relay).send_closed() ==> (r matches Err(e) && e@ == "channel closed"@
            && final(relay).queue() == old(relay).queue()),
        old(relay).wf() ==> final(relay).wf(),
{
    match inbound_step(relay, message) {
        InboundOutcome::Accepted => Ok(()),
        InboundOutcome::MustWait(_) => unreached(),
        InboundOutcome::Rejected(e) => Err(e),
    }
}

/// What one step of the outbound processor decided.
#[derive(Debug)]
pub enum OutboundStep {
    /// An item was drained; the log line standing in for its transmission.
    Deliver(String),
    /// Nothing is queued yet: the processor suspends on the next receive.
    Idle,
    /// The channel has closed with nothing left: the processor exits cleanly.
    Shutdown,
}

/// One step of the outbound processor: drains the oldest in-flight command
/// and renders the log line standing in for its transmission over the (yet
/// unimplemented) transport; reports `Idle` when it would suspend on an empty
/// queue and `Shutdown` when the stream has ended, its only terminal state.
pub fn outbound_step(relay: &mut Relay) -> (r: OutboundStep)
    ensures
        final(relay).capacity() == old(relay).capacity(),
        final(relay).sender_open() == old(relay).sender_open(),
        final(relay).receiver_open() == old(relay).receiver_open(),
        old(relay).queue().len() > 0 ==> (r matches OutboundStep::Deliver(line) && line@
            == spec_outbound_log_line(old(relay).queue()[0]) && final(relay).queue()
            == old(relay).queue().drop_first()),
        old(relay).queue().len() == 0 && old(relay).sender_open() ==> (r
            matches OutboundStep::Idle && final(relay).queue() == old(relay).queue()),
        old(relay).queue().len() == 0 && !old(relay).sender_open() ==> (r
            matches OutboundStep::Shutdown && final(relay).queue() == old(relay).queue()),
        old(relay).wf() ==> final(relay).wf(),
{
    match relay.try_recv() {
        RecvResult::Item(item) => OutboundStep::Deliver(outbound_log_line(item.as_str())),
        RecvResult::Empty => OutboundStep::Idle,
        RecvResult::Disconnected => OutboundStep::Shutdown,
    }
}

} // verus!
