//! The event loop's decisions.
//!
//! The run loop merges three event sources — a periodic timer, the local
//! tray UI, and the message bus — into one ordered stream; whichever is
//! ready first is handled to completion before the loop waits again. The
//! decision what each event leads to is the function here; the surrounding
//! process performs the waits and the effects.

use vstd::prelude::*;

verus! {

/// The one signal the local tray UI sends to the run loop.
#[derive(Clone, Copy, Debug, PartialEq, Eq, Structural)]
pub enum Message {
    Quit,
}

/// One event, from any of the three sources the run loop waits on.
#[derive(Clone, Copy, Debug, PartialEq, Eq, Structural)]
pub enum LoopEvent {
    /// The periodic status timer fired.
    Tick,
    /// The local UI sent a signal.
    Ui(Message),
    /// The bus delivered an inbound message for the device.
    Inbound,
    /// The bus produced an event that carries no inbound message
    /// (an acknowledgment, an outgoing packet, a keep-alive).
    BusOther,
    /// The bus connection reported an error.
    BusFailure,
}

/// What the run loop does with one event.
#[derive(Clone, Copy, Debug, PartialEq, Eq, Structural)]
pub enum LoopDecision {
    /// Publish one fresh status snapshot; invoke no dispatcher.
    ReportStatus,
    /// Decode the inbound message and dispatch the command.
    DispatchInbound,
    /// Do nothing and wait again.
    Ignore,
    /// Leave the loop; the process terminates.
    Stop,
}

/// The run loop's decision table. A timer tick reports status and nothing
/// else; a quit signal stops the loop; an inbound message is dispatched;
/// every other bus event is absorbed so the loop stays available.
pub open spec fn spec_decide(e: LoopEvent) -> LoopDecision {
    match e {
        LoopEvent::Tick => LoopDecision::ReportStatus,
        LoopEvent::Ui(Message::Quit) => LoopDecision::Stop,
        LoopEvent::Inbound => LoopDecision::DispatchInbound,
        LoopEvent::BusOther => LoopDecision::Ignore,
        LoopEvent::BusFailure => LoopDecision::Ignore,
    }
}

/// Decide what one event leads to.
pub fn decide(e: &LoopEvent) -> (d: LoopDecision)
    ensures
        d == spec_decide(*e),
{
    match e {
        LoopEvent::Tick => LoopDecision::ReportStatus,
        LoopEvent::Ui(Message::Quit) => LoopDecision::Stop,
        LoopEvent::Inbound => LoopDecision::DispatchInbound,
        LoopEvent::BusOther => LoopDecision::Ignore,
        LoopEvent::BusFailure => LoopDecision::Ignore,
    }
}

/// A timer tick leads to exactly one status report and never to a
/// dispatcher invocation; only the quit signal stops the loop.
pub proof fn lemma_tick_reports_only(e: LoopEvent)
    ensures
        spec_decide(LoopEvent::Tick) == LoopDecision::ReportStatus,
        spec_decide(e) == LoopDecision::Stop <==> e == LoopEvent::Ui(Message::Quit),
        spec_decide(e) == LoopDecision::DispatchInbound <==> e == LoopEvent::Inbound,
{
}

} // verus!
