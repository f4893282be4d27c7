//! Laws of the bounded copy loop: what holds of every run, whatever the
//! source delivers and whenever it does.
//!
//! A run is a session taken through a sequence of observed events (see
//! [`crate::trace`]). Bytes count as read when a read reports them, and as
//! written when the write is asked for.

use vstd::prelude::*;
use crate::clock::{Timestamp, NANOS_PER_SECOND, POLL_INTERVAL_MS};
use crate::config::{Config, Mode};
use crate::failure::EXIT_SUCCESS;
use crate::session::{Action, Event, Phase, Session};
use crate::source::Outcome;
use crate::trace::{bytes_taken, bytes_written, issued, reached, write_len, Observed};

verus! {

/// Whether `seconds` are set as the time limit and `at` lies more than that
/// after `started`.
pub open spec fn past_time_limit(config: Config, started: Timestamp, at: Timestamp) -> bool {
    config.time_limit() matches Some(seconds) && at@ > started@ + seconds * NANOS_PER_SECOND
}

/// Whether a byte limit is set and `taken` bytes reach it.
pub open spec fn at_byte_limit(config: Config, taken: nat) -> bool {
    config.byte_limit() matches Some(limit) && taken >= limit
}

/// What is forwarded of `taken` bytes read: a one-shot run with a byte
/// limit forwards no more than the limit, every other run forwards all that
/// it reads.
pub open spec fn forwarded_of(config: Config, taken: nat) -> nat {
    match config.byte_limit() {
        Some(limit) => if config.mode() == Mode::OneShot && taken >= limit {
            limit as nat
        } else {
            taken
        },
        None => taken,
    }
}

/// While chunks are still being asked for, `forwarded` bytes have gone out
/// untrimmed, the budget has shrunk by exactly that much, and some of it is
/// left unless nothing went out yet.
spec fn on_budget(start: Session, session: Session, forwarded: nat) -> bool {
    start.remaining matches Some(budget) ==> {
        &&& session.remaining matches Some(left)
        &&& forwarded + left == budget
        &&& (forwarded == 0 || left > 0)
    }
}

/// What ends up forwarded of `taken` bytes once a run from `start` is over.
spec fn settled(start: Session, taken: nat) -> nat {
    match start.remaining {
        Some(budget) => if start.mode == Mode::OneShot && taken >= budget {
            budget as nat
        } else {
            taken
        },
        None => taken,
    }
}

/// The bookkeeping that every step keeps up, for a run from `start` that has
/// read `taken` bytes and asked for `written` bytes to be written.
spec fn accounts(start: Session, session: Session, taken: nat, written: nat) -> bool {
    &&& session.mode == start.mode
    &&& session.deadline == start.deadline
    &&& (session.remaining is None <==> start.remaining is None)
    &&& match session.phase {
        Phase::Reading | Phase::Sleeping => {
            &&& written == taken
            &&& on_budget(start, session, taken)
        },
        Phase::Writing { read } => {
            &&& taken >= read
            &&& written == taken - read + session.spec_to_forward(read)
            &&& on_budget(start, session, (taken - read) as nat)
        },
        Phase::Completed | Phase::Failed(_) => written == settled(start, taken),
    }
}

proof fn lemma_written_push(actions: Seq<Action>, action: Action)
    ensures
        bytes_written(actions.push(action)) == bytes_written(actions) + write_len(action),
{
    assert(actions.push(action).drop_last() =~= actions);
}

/// One more event: the run goes on from where the earlier events left it.
proof fn lemma_one_more(start: Session, events: Seq<Observed>, next: Observed)
    ensures
        reached(start, events).spec_accepts(next.event) ==> {
            &&& reached(start, events.push(next)) == reached(start, events).spec_after(
                next.event,
                next.at,
            )
            &&& issued(start, events.push(next)) == issued(start, events).push(
                reached(start, events.push(next)).spec_pending(),
            )
        },
        !reached(start, events).spec_accepts(next.event) ==> {
            &&& reached(start, events.push(next)) == reached(start, events)
            &&& issued(start, events.push(next)) == issued(start, events)
        },
{
    assert(events.push(next).drop_last() =~= events);
}

proof fn lemma_accounts(start: Session, events: Seq<Observed>)
    requires
        start.phase is Reading,
    ensures
        accounts(
            start,
            reached(start, events),
            bytes_taken(start, events),
            bytes_written(issued(start, events)),
        ),
    decreases events.len(),
{
    if events.len() == 0 {
        lemma_written_push(Seq::empty(), Action::Read);
        assert(seq![Action::Read] =~= Seq::<Action>::empty().push(Action::Read));
    } else {
        let earlier = events.drop_last();
        lemma_accounts(start, earlier);
        if reached(start, earlier).spec_accepts(events.last().event) {
            lemma_written_push(issued(start, earlier), reached(start, events).spec_pending());
        }
    }
}

/// A finished run stays as it is: whatever is reported to it afterwards, it
/// asks for nothing but the exit.
pub proof fn lemma_finished_is_final(start: Session, events: Seq<Observed>)
    requires
        start.spec_finished(),
    ensures
        reached(start, events) == start,
        issued(start, events) == seq![Action::Exit],
    decreases events.len(),
{
    if events.len() > 0 {
        lemma_finished_is_final(start, events.drop_last());
    }
}

/// The limits of a run are fixed at its start: the mode never changes, the
/// deadline is never computed again, a run without a budget never gets one,
/// and a budget never grows.
pub proof fn lemma_limits_are_fixed(start: Session, events: Seq<Observed>)
    ensures
        reached(start, events).mode == start.mode,
        reached(start, events).deadline == start.deadline,
        reached(start, events).remaining is None <==> start.remaining is None,
        start.remaining matches Some(budget) ==> reached(start, events).remaining->0 <= budget,
    decreases events.len(),
{
    if events.len() > 0 {
        lemma_limits_are_fixed(start, events.drop_last());
    }
}

/// As long as a run with a budget goes on asking for chunks, everything it
/// has read was forwarded untrimmed, the budget has shrunk by exactly the
/// bytes forwarded, and the budget is not used up unless nothing was read
/// yet.
pub proof fn lemma_budget_accounting(start: Session, events: Seq<Observed>, budget: usize)
    requires
        start.phase is Reading,
        start.remaining == Some(budget),
        reached(start, events).phase is Reading || reached(start, events).phase is Sleeping,
    ensures
        bytes_written(issued(start, events)) == bytes_taken(start, events),
        reached(start, events).remaining == Some((budget - bytes_taken(start, events)) as usize),
        bytes_taken(start, events) < budget || bytes_taken(start, events) == 0,
{
    lemma_accounts(start, events);
}

/// The output of every run, at every point of it: a one-shot run with a
/// byte limit has asked for exactly the first `limit` bytes of what it read
/// to be written, or for all of it where it read less; every other run has
/// asked for all that it read.
pub proof fn lemma_run_output(config: Config, started: Timestamp, events: Seq<Observed>)
    ensures
        bytes_written(issued(Session::spec_start(config, started), events)) == forwarded_of(
            config,
            bytes_taken(Session::spec_start(config, started), events),
        ),
{
    lemma_accounts(Session::spec_start(config, started), events);
}

/// The end of every run: an accepted event ends the run normally exactly
/// when a bound is found hit on it, or when a one-shot source is at its
/// end.
///
/// * After a write, a run with a byte limit ends if the bytes read have
///   reached the limit or the time limit has passed. A run without a byte
///   limit never ends after a write.
/// * On a timeout, a run ends if the time limit has passed.
/// * At the end of the stream, a one-shot run ends; a run that follows a
///   file ends if the time limit has passed.
pub proof fn lemma_run_ends(
    config: Config,
    started: Timestamp,
    events: Seq<Observed>,
    next: Observed,
)
    requires
        reached(Session::spec_start(config, started), events).spec_accepts(next.event),
    ensures
        ({
            let run = Session::spec_start(config, started);
            let late = past_time_limit(config, started, next.at);
            reached(run, events.push(next)).phase is Completed <==> match next.event {
                Event::Written => at_byte_limit(config, bytes_taken(run, events)) || (
                config.byte_limit() is Some && late),
                Event::Read(Outcome::TimedOut) => late,
                Event::Read(Outcome::EndOfStream) => config.mode() == Mode::OneShot || late,
                _ => false,
            }
        }),
{
    let run = Session::spec_start(config, started);
    lemma_accounts(run, events);
    lemma_one_more(run, events, next);
}

/// A run that ended normally exits with status zero and asks for nothing
/// more to be written.
pub proof fn lemma_normal_end(start: Session, events: Seq<Observed>)
    requires
        reached(start, events).phase is Completed,
    ensures
        reached(start, events).spec_pending() == Action::Exit,
        reached(start, events).spec_exit_code() == Some(EXIT_SUCCESS),
{
}

/// With a byte limit as the only limit, a one-shot run never asks for more
/// than `limit` bytes in all to be written; it ends at the end of the
/// stream, and after the write on which the bytes read have reached the
/// limit, whichever comes first.
pub proof fn lemma_byte_limit_alone(
    config: Config,
    started: Timestamp,
    events: Seq<Observed>,
    next: Observed,
    limit: usize,
)
    requires
        config.mode() == Mode::OneShot,
        config.byte_limit() == Some(limit),
        config.time_limit() is None,
        reached(Session::spec_start(config, started), events).spec_accepts(next.event),
    ensures
        bytes_written(issued(Session::spec_start(config, started), events)) <= limit,
        bytes_written(issued(Session::spec_start(config, started), events.push(next))) <= limit,
        reached(Session::spec_start(config, started), events.push(next)).phase is Completed <==> {
            ||| next.event == Event::Read(Outcome::EndOfStream)
            ||| next.event == Event::Written && bytes_taken(
                Session::spec_start(config, started),
                events,
            ) >= limit
        },
{
    lemma_run_output(config, started, events);
    lemma_run_output(config, started, events.push(next));
    lemma_run_ends(config, started, events, next);
}

/// Whether `event` reports an idle source or the end of a pause: no data
/// and no failure.
pub open spec fn idle(event: Event) -> bool {
    ||| event == Event::Read(Outcome::TimedOut)
    ||| event == Event::Read(Outcome::EndOfStream)
    ||| event == Event::Slept
}

/// The last time among `events` at which a read came back, or `started`
/// where none did. Over an idle source these are the times at which the
/// clock is looked at.
pub open spec fn last_look(started: Timestamp, events: Seq<Observed>) -> Timestamp
    decreases events.len(),
{
    if events.len() == 0 {
        started
    } else if events.last().event is Read {
        events.last().at
    } else {
        last_look(started, events.drop_last())
    }
}

/// A run over an idle source as a driver produces it: every event is idle
/// and answers the pending action, and every read comes back no later than
/// `gap` nanoseconds after the read before it, or after the start.
pub open spec fn idle_and_paced(
    start: Session,
    started: Timestamp,
    events: Seq<Observed>,
    gap: nat,
) -> bool {
    forall|i: int|
        0 <= i < events.len() ==> {
            &&& idle((#[trigger] events[i]).event)
            &&& reached(start, events.take(i)).spec_accepts(events[i].event)
            &&& (events[i].event is Read ==> events[i].at@ <= last_look(
                started,
                events.take(i),
            )@ + gap)
        }
}

proof fn lemma_idle_prefix(start: Session, started: Timestamp, events: Seq<Observed>, gap: nat)
    requires
        idle_and_paced(start, started, events, gap),
        events.len() > 0,
    ensures
        idle_and_paced(start, started, events.drop_last(), gap),
        events.take(events.len() - 1) == events.drop_last(),
{
    let earlier = events.drop_last();
    assert forall|i: int| 0 <= i < earlier.len() implies {
        &&& idle((#[trigger] earlier[i]).event)
        &&& reached(start, earlier.take(i)).spec_accepts(earlier[i].event)
        &&& (earlier[i].event is Read ==> earlier[i].at@ <= last_look(started, earlier.take(i))@
            + gap)
    } by {
        assert(earlier[i] == events[i]);
        assert(earlier.take(i) =~= events.take(i));
    }
    assert(events.take(events.len() - 1) =~= earlier);
}

/// While an idle run with a time limit goes on, the clock was last looked
/// at no later than the deadline.
proof fn lemma_idle_run_goes_on(
    config: Config,
    started: Timestamp,
    events: Seq<Observed>,
    seconds: u64,
    gap: nat,
)
    requires
        config.time_limit() == Some(seconds),
        idle_and_paced(Session::spec_start(config, started), started, events, gap),
        !reached(Session::spec_start(config, started), events).spec_finished(),
    ensures
        last_look(started, events)@ <= started@ + seconds * NANOS_PER_SECOND,
    decreases events.len(),
{
    let run = Session::spec_start(config, started);
    if events.len() > 0 {
        let earlier = events.drop_last();
        lemma_idle_prefix(run, started, events, gap);
        lemma_limits_are_fixed(run, earlier);
        assert(idle(events[events.len() - 1].event));
        if !(events.last().event is Read) {
            lemma_idle_run_goes_on(config, started, earlier, seconds, gap);
        }
    }
}

/// A time limit holds over an idle source: where reads come back no more
/// than `gap` nanoseconds apart and bring no data, a run that has ended did
/// so on a read that came back no later than `seconds` and `gap` after the
/// start. With the polling interval as the gap, that is the time limit and
/// one polling interval.
pub proof fn lemma_idle_run_ends_on_time(
    config: Config,
    started: Timestamp,
    events: Seq<Observed>,
    seconds: u64,
    gap: nat,
)
    requires
        config.time_limit() == Some(seconds),
        idle_and_paced(Session::spec_start(config, started), started, events, gap),
        reached(Session::spec_start(config, started), events).spec_finished(),
    ensures
        events.len() > 0,
        events.last().event is Read,
        events.last().at@ <= started@ + seconds * NANOS_PER_SECOND + gap,
        reached(Session::spec_start(config, started), events).phase is Completed,
        bytes_written(issued(Session::spec_start(config, started), events)) == 0,
{
    let run = Session::spec_start(config, started);
    let earlier = events.drop_last();
    lemma_idle_prefix(run, started, events, gap);
    assert(idle(events[events.len() - 1].event));
    lemma_idle_run_goes_on(config, started, earlier, seconds, gap);
    lemma_idle_takes_nothing(run, started, events, gap);
    lemma_accounts(run, events);
}

/// An idle run reads no bytes.
proof fn lemma_idle_takes_nothing(
    start: Session,
    started: Timestamp,
    events: Seq<Observed>,
    gap: nat,
)
    requires
        idle_and_paced(start, started, events, gap),
    ensures
        bytes_taken(start, events) == 0,
    decreases events.len(),
{
    if events.len() > 0 {
        lemma_idle_prefix(start, started, events, gap);
        lemma_idle_takes_nothing(start, started, events.drop_last(), gap);
        assert(idle(events[events.len() - 1].event));
    }
}

/// With a time limit, a run is over as soon as it finds the source idle or
/// at its end more than `seconds` after the start: it ends normally there
/// and asks for nothing more to be written.
pub proof fn lemma_time_limit_ends_idle_run(
    config: Config,
    started: Timestamp,
    events: Seq<Observed>,
    next: Observed,
    seconds: u64,
)
    requires
        config.time_limit() == Some(seconds),
        reached(Session::spec_start(config, started), events).phase is Reading,
        next.event == Event::Read(Outcome::TimedOut) || next.event == Event::Read(
            Outcome::EndOfStream,
        ),
        next.at@ > started@ + seconds * NANOS_PER_SECOND,
    ensures
        reached(Session::spec_start(config, started), events.push(next)).phase is Completed,
        bytes_written(issued(Session::spec_start(config, started), events.push(next)))
            == bytes_written(issued(Session::spec_start(config, started), events)),
{
    let run = Session::spec_start(config, started);
    lemma_run_ends(config, started, events, next);
    lemma_one_more(run, events, next);
    lemma_written_push(issued(run, events), Action::Exit);
}

/// Without a byte limit the clock is not looked at after a write: as long
/// as the source keeps delivering data, the run goes on reading, however
/// long ago the time limit has passed.
pub proof fn lemma_data_outruns_time_limit(
    config: Config,
    started: Timestamp,
    events: Seq<Observed>,
    next: Observed,
)
    requires
        config.byte_limit() is None,
        reached(Session::spec_start(config, started), events).phase is Writing,
        next.event == Event::Written,
    ensures
        reached(Session::spec_start(config, started), events.push(next)).phase is Reading,
{
    let run = Session::spec_start(config, started);
    lemma_limits_are_fixed(run, events);
    lemma_one_more(run, events, next);
}

/// With both limits set, a run ends at whichever bound is found hit first:
/// an accepted event ends it normally exactly when the bytes read have
/// reached the byte limit on a finished write, or the time limit has passed
/// on a finished write, a timeout or the end of the stream (which ends a
/// one-shot run at any time). Up to that point and at it, what was asked to
/// be written is what the mode forwards of the bytes read.
pub proof fn lemma_both_limits(
    config: Config,
    started: Timestamp,
    events: Seq<Observed>,
    next: Observed,
    limit: usize,
    seconds: u64,
)
    requires
        config.byte_limit() == Some(limit),
        config.time_limit() == Some(seconds),
        reached(Session::spec_start(config, started), events).spec_accepts(next.event),
    ensures
        ({
            let run = Session::spec_start(config, started);
            let late = next.at@ > started@ + seconds * NANOS_PER_SECOND;
            &&& reached(run, events.push(next)).phase is Completed <==> match next.event {
                Event::Written => bytes_taken(run, events) >= limit || late,
                Event::Read(Outcome::TimedOut) => late,
                Event::Read(Outcome::EndOfStream) => config.mode() == Mode::OneShot || late,
                _ => false,
            }
            &&& bytes_written(issued(run, events.push(next))) == forwarded_of(
                config,
                bytes_taken(run, events.push(next)),
            )
        }),
{
    lemma_run_ends(config, started, events, next);
    lemma_run_output(config, started, events.push(next));
}

/// A run that follows a file forwards every chunk whole, so that what it
/// writes is what it read, and while the file is at its end and the deadline
/// has not passed it keeps polling: it pauses for one polling interval and
/// reads again.
pub proof fn lemma_follow_tail_forwards_appends(
    config: Config,
    started: Timestamp,
    events: Seq<Observed>,
    end: Observed,
    slept: Observed,
)
    requires
        config.mode() == Mode::FollowTail,
        reached(Session::spec_start(config, started), events).phase is Reading,
        end.event == Event::Read(Outcome::EndOfStream),
        !past_time_limit(config, started, end.at),
        slept.event == Event::Slept,
    ensures
        ({
            let run = Session::spec_start(config, started);
            &&& bytes_written(issued(run, events)) == bytes_taken(run, events)
            &&& issued(run, events.push(end).push(slept)) == issued(run, events).push(
                Action::Sleep { millis: POLL_INTERVAL_MS },
            ).push(Action::Read)
            &&& reached(run, events.push(end).push(slept)) == reached(run, events)
        }),
{
    let run = Session::spec_start(config, started);
    lemma_run_output(config, started, events);
    lemma_limits_are_fixed(run, events);
    lemma_one_more(run, events, end);
    lemma_one_more(run, events.push(end), slept);
}

/// Overshoot when following a file: a chunk that uses up what is left of
/// the budget, or is larger than that, is forwarded in full, and the run
/// ends normally right after the write.
pub proof fn lemma_follow_tail_overshoot(
    session: Session,
    left: usize,
    read: usize,
    read_at: Timestamp,
    written_at: Timestamp,
)
    requires
        session.phase is Reading,
        session.mode == Mode::FollowTail,
        session.remaining == Some(left),
        read >= left,
    ensures
        ({
            let events = seq![
                Observed { event: Event::Read(Outcome::Data(read)), at: read_at },
                Observed { event: Event::Written, at: written_at },
            ];
            &&& issued(session, events) == seq![
                Action::Read,
                Action::Write { len: read },
                Action::Exit,
            ]
            &&& reached(session, events).phase is Completed
        }),
{
    let first = Observed { event: Event::Read(Outcome::Data(read)), at: read_at };
    let second = Observed { event: Event::Written, at: written_at };
    let none = Seq::<Observed>::empty();
    lemma_one_more(session, none, first);
    lemma_one_more(session, none.push(first), second);
    assert(seq![first, second] =~= none.push(first).push(second));
    assert(issued(session, none.push(first).push(second)) =~= seq![
        Action::Read,
        Action::Write { len: read },
        Action::Exit,
    ]);
}

/// Timeouts without a deadline change nothing: however many come in a row,
/// the session stays as it was, it asks for one more read each time, no
/// budget is used and nothing is written.
pub proof fn lemma_timeouts_without_deadline(start: Session, events: Seq<Observed>)
    requires
        start.phase is Reading,
        start.deadline is None,
        forall|i: int|
            0 <= i < events.len() ==> (#[trigger] events[i]).event == Event::Read(
                Outcome::TimedOut,
            ),
    ensures
        reached(start, events) == start,
        issued(start, events) == Seq::new(events.len() + 1, |i: int| Action::Read),
        bytes_taken(start, events) == 0,
        bytes_written(issued(start, events)) == 0,
    decreases events.len(),
{
    if events.len() > 0 {
        lemma_timeouts_without_deadline(start, events.drop_last());
        assert(events.last() == events[events.len() - 1]);
    }
    assert(issued(start, events) =~= Seq::new(events.len() + 1, |i: int| Action::Read));
    lemma_accounts(start, events);
}

} // verus!
