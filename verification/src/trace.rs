//! Whole runs: a session taken through a sequence of observed events.

use vstd::prelude::*;
use crate::clock::Timestamp;
use crate::session::{Action, Event, Session};
use crate::source::Outcome;

verus! {

/// An event together with the time at which the driver observed it.
#[derive(Clone, Debug, PartialEq, Eq)]
pub struct Observed {
    /// What the driver reports.
    pub event: Event,
    /// When the driver observed it.
    pub at: Timestamp,
}

/// The session that `start` is in after `events`, taken in one by one.
/// Events that the session does not accept leave it as it is.
pub open spec fn reached(start: Session, events: Seq<Observed>) -> Session
    decreases events.len(),
{
    if events.len() == 0 {
        start
    } else {
        let before = reached(start, events.drop_last());
        let last = events.last();
        if before.spec_accepts(last.event) {
            before.spec_after(last.event, last.at)
        } else {
            before
        }
    }
}

/// The actions that the driver is asked for while `start` is taken through
/// `events`: the one pending at the start, and one more after each accepted
/// event.
pub open spec fn issued(start: Session, events: Seq<Observed>) -> Seq<Action>
    decreases events.len(),
{
    if events.len() == 0 {
        seq![start.spec_pending()]
    } else {
        let earlier = issued(start, events.drop_last());
        if reached(start, events.drop_last()).spec_accepts(events.last().event) {
            earlier.push(reached(start, events).spec_pending())
        } else {
            earlier
        }
    }
}

/// The number of bytes that an accepted `event` brings in from the source.
pub open spec fn chunk_len(event: Event) -> nat {
    match event {
        Event::Read(Outcome::Data(read)) => read as nat,
        _ => 0,
    }
}

/// The number of bytes that `action` sends to the sink.
pub open spec fn write_len(action: Action) -> nat {
    match action {
        Action::Write { len } => len as nat,
        _ => 0,
    }
}

/// The bytes read from the source in all: the sum of the chunks of the
/// accepted reads.
pub open spec fn bytes_taken(start: Session, events: Seq<Observed>) -> nat
    decreases events.len(),
{
    if events.len() == 0 {
        0
    } else {
        let earlier = bytes_taken(start, events.drop_last());
        if reached(start, events.drop_last()).spec_accepts(events.last().event) {
            earlier + chunk_len(events.last().event)
        } else {
            earlier
        }
    }
}

/// The bytes sent to the sink in all by `actions`.
pub open spec fn bytes_written(actions: Seq<Action>) -> nat
    decreases actions.len(),
{
    if actions.len() == 0 {
        0
    } else {
        bytes_written(actions.drop_last()) + write_len(actions.last())
    }
}

/// Takes `session` through `events` in order and returns the actions that
/// it asks for on the way, the one pending at the start first. Events that
/// the session does not accept are passed over.
pub fn replay(session: &mut Session, events: &Vec<Observed>) -> (actions: Vec<Action>)
    ensures
        *final(session) == reached(*old(session), events@),
        actions@ == issued(*old(session), events@),
{
    let ghost start = *session;
    let mut actions: Vec<Action> = Vec::new();
    actions.push(session.pending());
    let mut index: usize = 0;
    while index < events.len()
        invariant
            index <= events.len(),
            *session == reached(start, events@.take(index as int)),
            actions@ == issued(start, events@.take(index as int)),
        decreases events.len() - index,
    {
        let observed = &events[index];
        proof {
            assert(events@.take(index + 1).drop_last() == events@.take(index as int));
        }
        match session.step(&observed.event, observed.at) {
            Some(action) => {
                actions.push(action);
            },
            None => {},
        }
        index += 1;
    }
    proof {
        assert(events@.take(index as int) == events@);
    }
    actions
}

} // verus!
