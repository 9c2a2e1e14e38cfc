//! Handing the log lines of a container on to whoever reads them.
//!
//! A producer reads lines from the container runtime and puts each into a
//! queue of fixed capacity, which the reader drains. A full queue holds the
//! producer back, and with it the reading from the runtime. There is no
//! signal to stop: the producer learns that the reader is gone when a line
//! cannot be handed over, and stops then. This module is the producer's
//! decisions; the reading and the handing over are the caller's.

use crate::text::copy_text;
use vstd::prelude::*;

verus! {

/// How many lines the queue between producer and reader holds.
pub const LOG_QUEUE_CAPACITY: usize = 100;

/// What the producer is doing.
#[derive(Debug, Clone, Copy, PartialEq, Eq, Structural)]
pub enum BridgeState {
    /// Awaiting the next line from the runtime.
    Reading,
    /// Awaiting room in the queue for what was read.
    Sending,
    /// Done: the connection to the runtime is released.
    Stopped,
}

/// What came of what the producer asked for.
#[derive(Debug, Clone, PartialEq, Eq)]
pub enum BridgeEvent {
    /// The runtime gave a line.
    Line(String),
    /// The runtime gave an error in place of a line.
    SourceError(String),
    /// The runtime has no more lines.
    SourceEnded,
    /// The reader has room: what was read is in the queue.
    Sent,
    /// The reader is gone: what was read could not be handed over.
    ReaderGone,
}

/// What goes through the queue: a line, or the error that the runtime gave
/// in its place.
#[derive(Debug, Clone, PartialEq, Eq)]
pub enum LogItem {
    Line(String),
    Error(String),
}

/// What the producer is to do next.
#[derive(Debug, Clone, PartialEq, Eq)]
pub enum BridgeAction {
    /// Read the next line from the runtime.
    Read,
    /// Put a line, or the error that stands in its place, into the queue.
    Send(LogItem),
    /// Release the connection to the runtime and end.
    Stop,
}

/// An event without what it carries.
#[derive(Debug, Clone, Copy, PartialEq, Eq, Structural)]
pub enum EventKind {
    Line,
    SourceError,
    SourceEnded,
    Sent,
    ReaderGone,
}

/// An action without what it carries.
#[derive(Debug, Clone, Copy, PartialEq, Eq, Structural)]
pub enum ActionKind {
    Read,
    Send,
    Stop,
}

/// The kind of an event.
pub open spec fn kind_of(event: BridgeEvent) -> EventKind {
    match event {
        BridgeEvent::Line(_) => EventKind::Line,
        BridgeEvent::SourceError(_) => EventKind::SourceError,
        BridgeEvent::SourceEnded => EventKind::SourceEnded,
        BridgeEvent::Sent => EventKind::Sent,
        BridgeEvent::ReaderGone => EventKind::ReaderGone,
    }
}

/// The kind of an action.
pub open spec fn action_kind_of(action: BridgeAction) -> ActionKind {
    match action {
        BridgeAction::Read => ActionKind::Read,
        BridgeAction::Send(_) => ActionKind::Send,
        BridgeAction::Stop => ActionKind::Stop,
    }
}

/// What the producer does next, by kind: what was read is sent, what was
/// sent is followed by the next read, and the end of the source, the loss
/// of the reader and anything out of turn stop it for good.
pub open spec fn bridge_next(state: BridgeState, event: EventKind) -> (BridgeState, ActionKind) {
    match (state, event) {
        (BridgeState::Reading, EventKind::Line) => (BridgeState::Sending, ActionKind::Send),
        (BridgeState::Reading, EventKind::SourceError) => (BridgeState::Sending, ActionKind::Send),
        (BridgeState::Sending, EventKind::Sent) => (BridgeState::Reading, ActionKind::Read),
        _ => (BridgeState::Stopped, ActionKind::Stop),
    }
}

/// The text that stands in the queue for an error of the runtime.
pub open spec fn source_error_text(error: Seq<char>) -> Seq<char> {
    "Log stream error: "@ + error
}

/// What is put into the queue for an event, where something is.
pub open spec fn carries(action: BridgeAction, state: BridgeState, event: BridgeEvent) -> bool {
    match (state, event) {
        (BridgeState::Reading, BridgeEvent::Line(line)) => action matches BridgeAction::Send(
            LogItem::Line(text),
        ) && text@ == line@,
        (BridgeState::Reading, BridgeEvent::SourceError(error)) => action matches BridgeAction::Send(
            LogItem::Error(text),
        ) && text@ == source_error_text(error@),
        _ => true,
    }
}

/// The producer as it begins: it reads.
pub fn bridge_start() -> (r: (BridgeState, BridgeAction))
    ensures
        r.0 == BridgeState::Reading,
        r.1 is Read,
{
    (BridgeState::Reading, BridgeAction::Read)
}

/// One step of the producer.
pub fn bridge_step(state: BridgeState, event: BridgeEvent) -> (r: (BridgeState, BridgeAction))
    ensures
        (r.0, action_kind_of(r.1)) == bridge_next(state, kind_of(event)),
        carries(r.1, state, event),
{
    match (state, event) {
        (BridgeState::Reading, BridgeEvent::Line(line)) => (
            BridgeState::Sending,
            BridgeAction::Send(LogItem::Line(line)),
        ),
        (BridgeState::Reading, BridgeEvent::SourceError(error)) => {
            let mut text = copy_text("Log stream error: ");
            text.push_str(error.as_str());
            (BridgeState::Sending, BridgeAction::Send(LogItem::Error(text)))
        },
        (BridgeState::Sending, BridgeEvent::Sent) => (BridgeState::Reading, BridgeAction::Read),
        _ => (BridgeState::Stopped, BridgeAction::Stop),
    }
}

/// The state that the producer is in after a run of events.
pub open spec fn state_after(state: BridgeState, events: Seq<EventKind>) -> BridgeState
    decreases events.len(),
{
    if events.len() == 0 {
        state
    } else {
        bridge_next(state_after(state, events.drop_last()), events.last()).0
    }
}

/// The actions that the producer takes in a run of events, one for each.
pub open spec fn actions_in(state: BridgeState, events: Seq<EventKind>) -> Seq<ActionKind>
    decreases events.len(),
{
    if events.len() == 0 {
        Seq::empty()
    } else {
        actions_in(state, events.drop_last()).push(
            bridge_next(state_after(state, events.drop_last()), events.last()).1,
        )
    }
}

/// A producer that has stopped stays stopped and reads no more, whatever
/// it is told.
pub proof fn stopped_reads_no_more(events: Seq<EventKind>)
    ensures
        state_after(BridgeState::Stopped, events) == BridgeState::Stopped,
        actions_in(BridgeState::Stopped, events).len() == events.len(),
        forall|i: int|
            0 <= i < events.len() ==> #[trigger] actions_in(BridgeState::Stopped, events)[i]
                == ActionKind::Stop,
    decreases events.len(),
{
    if events.len() > 0 {
        stopped_reads_no_more(events.drop_last());
        let front = actions_in(BridgeState::Stopped, events.drop_last());
        assert forall|i: int| 0 <= i < events.len() implies #[trigger] actions_in(
            BridgeState::Stopped,
            events,
        )[i] == ActionKind::Stop by {
            if i < front.len() {
                assert(actions_in(BridgeState::Stopped, events)[i] == front[i]);
            }
        }
    }
}

proof fn lemma_run_split(state: BridgeState, before: Seq<EventKind>, after: Seq<EventKind>)
    ensures
        state_after(state, before + after) == state_after(state_after(state, before), after),
        actions_in(state, before + after) == actions_in(state, before) + actions_in(
            state_after(state, before),
            after,
        ),
    decreases after.len(),
{
    if after.len() == 0 {
        assert(before + after =~= before);
        assert(actions_in(state, before) + Seq::<ActionKind>::empty() =~= actions_in(
            state,
            before,
        ));
    } else {
        assert((before + after).drop_last() =~= before + after.drop_last());
        assert((before + after).last() == after.last());
        lemma_run_split(state, before, after.drop_last());
        assert(actions_in(state, before + after) =~= actions_in(state, before) + actions_in(
            state_after(state, before),
            after,
        ));
    }
}

/// Once the reader is gone the producer reads no more. Whatever state it is
/// in when it is told so, and whatever it is told after, its answer to the
/// loss of the reader is to stop, and every action from then on is to stop.
pub proof fn reader_gone_ends_reading(
    state: BridgeState,
    before: Seq<EventKind>,
    after: Seq<EventKind>,
)
    ensures
        ({
            let events = before.push(EventKind::ReaderGone) + after;
            let actions = actions_in(state, events);
            &&& actions.len() == events.len()
            &&& state_after(state, events) == BridgeState::Stopped
            &&& forall|i: int| before.len() <= i < events.len() ==> #[trigger] actions[i]
                == ActionKind::Stop
        }),
{
    let gone = before.push(EventKind::ReaderGone);
    let events = gone + after;
    assert(gone.drop_last() =~= before);
    assert(state_after(state, gone) == BridgeState::Stopped);
    lemma_run_split(state, gone, after);
    stopped_reads_no_more(after);
    lemma_actions_len(state, gone);
    lemma_actions_len(state, before);
    let actions = actions_in(state, events);
    assert forall|i: int| before.len() <= i < events.len() implies #[trigger] actions[i]
        == ActionKind::Stop by {
        if i == before.len() {
            assert(actions[i] == actions_in(state, gone)[i]);
        } else {
            assert(actions[i] == actions_in(BridgeState::Stopped, after)[i - gone.len()]);
        }
    }
}

proof fn lemma_actions_len(state: BridgeState, events: Seq<EventKind>)
    ensures
        actions_in(state, events).len() == events.len(),
    decreases events.len(),
{
    if events.len() > 0 {
        lemma_actions_len(state, events.drop_last());
    }
}

} // verus!
