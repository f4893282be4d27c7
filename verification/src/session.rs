//! The bounded copy loop as a state machine.
//!
//! A [`Session`] never touches the source or the sink. It names the next
//! [`Action`]; a driver performs it and reports the [`Event`] that came of
//! it, together with the time at which it was observed.

use vstd::prelude::*;
use crate::clock::{Timestamp, POLL_INTERVAL_MS};
use crate::config::{Config, Mode};
use crate::failure::{Failure, EXIT_SUCCESS};
use crate::source::Outcome;

verus! {

/// What the driver is asked to do next.
#[derive(Clone, Copy, Debug, PartialEq, Eq, Structural)]
pub enum Action {
    /// Read once from the source into the transfer buffer, waiting no longer
    /// than the polling interval.
    Read,
    /// Write the first `len` bytes of the transfer buffer to the sink as one
    /// write.
    Write { len: usize },
    /// Pause for `millis` milliseconds.
    Sleep { millis: u64 },
    /// End the process.
    Exit,
}

/// What the driver reports back.
#[derive(Clone, Debug, PartialEq, Eq)]
pub enum Event {
    /// A read came back with this outcome.
    Read(Outcome),
    /// The write went through in full.
    Written,
    /// The write failed or was partial; the cause in words.
    WriteFailed(String),
    /// The pause is over.
    Slept,
}

/// Where a session stands in the loop.
#[derive(Clone, Debug, PartialEq, Eq)]
pub enum Phase {
    /// A read is due.
    Reading,
    /// `read` bytes have been read and are being forwarded.
    Writing { read: usize },
    /// A followed file was at its end; a pause is due before the next read.
    Sleeping,
    /// The run ended normally.
    Completed,
    /// The run ended on a failure.
    Failed(Failure),
}

/// The state of one run.
#[derive(Clone, Debug, PartialEq, Eq)]
pub struct Session {
    /// How the source is read.
    pub mode: Mode,
    /// Bytes that may still be forwarded; `None` where size is no bound.
    pub remaining: Option<usize>,
    /// The point after which the run must stop; `None` where time is no
    /// bound. Set once at the start.
    pub deadline: Option<Timestamp>,
    /// Where the run stands.
    pub phase: Phase,
}

impl Session {
    /// The session that a run with `config` starts in at time `now`: the
    /// whole byte budget is left, the deadline lies the time limit after
    /// `now`, and a read is due.
    pub open spec fn spec_start(config: Config, now: Timestamp) -> Session {
        Session {
            mode: config.mode(),
            remaining: config.byte_limit(),
            deadline: match config.time_limit() {
                Some(seconds) => Some(now.spec_plus_seconds(seconds)),
                None => None,
            },
            phase: Phase::Reading,
        }
    }

    /// Whether a deadline is set and `now` lies after it.
    pub open spec fn spec_done(&self, now: Timestamp) -> bool {
        self.deadline matches Some(deadline) && now@ > deadline@
    }

    /// How many of `read` bytes just read are forwarded. A one-shot run
    /// with a budget trims the chunk to what is left of the budget; a run
    /// that follows a file, or one without a budget, forwards the whole
    /// chunk.
    pub open spec fn spec_to_forward(&self, read: usize) -> usize {
        match self.remaining {
            Some(budget) => if self.mode == Mode::OneShot && read >= budget {
                budget
            } else {
                read
            },
            None => read,
        }
    }

    /// Whether the run has ended.
    pub open spec fn spec_finished(&self) -> bool {
        self.phase is Completed || self.phase is Failed
    }

    /// The action that the session waits for.
    pub open spec fn spec_pending(&self) -> Action {
        match self.phase {
            Phase::Reading => Action::Read,
            Phase::Writing { read } => Action::Write { len: self.spec_to_forward(read) },
            Phase::Sleeping => Action::Sleep { millis: POLL_INTERVAL_MS },
            Phase::Completed => Action::Exit,
            Phase::Failed(_) => Action::Exit,
        }
    }

    /// Whether `event` reports on the pending action. A finished session
    /// accepts nothing.
    pub open spec fn spec_accepts(&self, event: Event) -> bool {
        match self.phase {
            Phase::Reading => event is Read,
            Phase::Writing { .. } => event is Written || event is WriteFailed,
            Phase::Sleeping => event is Slept,
            Phase::Completed => false,
            Phase::Failed(_) => false,
        }
    }

    /// The session in another phase.
    pub open spec fn at(&self, phase: Phase) -> Session {
        Session { mode: self.mode, remaining: self.remaining, deadline: self.deadline, phase }
    }

    /// The session after an accepted `event` observed at `now`.
    ///
    /// * End of stream: a one-shot run ends, and so does any run past its
    ///   deadline; a run that follows a file pauses and reads again.
    /// * Data: the chunk is forwarded.
    /// * Timeout: the run ends past its deadline, else it reads again at
    ///   once.
    /// * Fatal read, failed write: the run fails.
    /// * Written: with a budget, the run ends where the chunk as read (not
    ///   as forwarded) uses up what is left, or past its deadline; else
    ///   the budget shrinks by the chunk as read. Without a budget the run
    ///   reads again, whatever the time.
    /// * Slept: the run reads again.
    pub open spec fn spec_after(&self, event: Event, now: Timestamp) -> Session {
        match self.phase {
            Phase::Reading => match event {
                Event::Read(Outcome::EndOfStream) => if self.mode == Mode::OneShot
                    || self.spec_done(now) {
                    self.at(Phase::Completed)
                } else {
                    self.at(Phase::Sleeping)
                },
                Event::Read(Outcome::Data(read)) => self.at(Phase::Writing { read }),
                Event::Read(Outcome::TimedOut) => if self.spec_done(now) {
                    self.at(Phase::Completed)
                } else {
                    *self
                },
                Event::Read(Outcome::Fatal(cause)) => self.at(
                    Phase::Failed(Failure::Read { cause }),
                ),
                _ => *self,
            },
            Phase::Writing { read } => match event {
                Event::Written => match self.remaining {
                    Some(budget) => if read >= budget || self.spec_done(now) {
                        self.at(Phase::Completed)
                    } else {
                        Session {
                            mode: self.mode,
                            remaining: Some((budget - read) as usize),
                            deadline: self.deadline,
                            phase: Phase::Reading,
                        }
                    },
                    None => self.at(Phase::Reading),
                },
                Event::WriteFailed(cause) => self.at(Phase::Failed(Failure::Write { cause })),
                _ => *self,
            },
            Phase::Sleeping => match event {
                Event::Slept => self.at(Phase::Reading),
                _ => *self,
            },
            Phase::Completed => *self,
            Phase::Failed(_) => *self,
        }
    }

    /// The exit status of a finished run: success after a normal end, the
    /// failure's status otherwise. A run in progress has none.
    pub open spec fn spec_exit_code(&self) -> Option<i32> {
        match self.phase {
            Phase::Completed => Some(EXIT_SUCCESS),
            Phase::Failed(failure) => Some(failure.spec_exit_code()),
            _ => None,
        }
    }

    /// Starts a run at time `now`. The deadline is fixed here and never
    /// computed again. Since a configuration always has a limit, the
    /// session has a budget or a deadline.
    pub fn start(config: &Config, now: Timestamp) -> (session: Session)
        ensures
            session == Session::spec_start(*config, now),
            session.remaining is Some || session.deadline is Some,
    {
        proof {
            use_type_invariant(config);
        }
        let deadline = match config.time_limit() {
            Some(seconds) => Some(now.plus_seconds(seconds)),
            None => None,
        };
        Session {
            mode: config.mode(),
            remaining: config.byte_limit(),
            deadline,
            phase: Phase::Reading,
        }
    }

    /// Whether a deadline is set and `now` lies after it.
    pub fn done(&self, now: Timestamp) -> (done: bool)
        ensures
            done == self.spec_done(now),
    {
        match self.deadline {
            Some(deadline) => now.is_after(deadline),
            None => false,
        }
    }

    /// How many of `read` bytes just read are forwarded.
    pub fn to_forward(&self, read: usize) -> (len: usize)
        ensures
            len == self.spec_to_forward(read),
            len <= read,
    {
        match self.remaining {
            Some(budget) => {
                if self.mode == Mode::OneShot && read >= budget {
                    budget
                } else {
                    read
                }
            },
            None => read,
        }
    }

    /// The action that the session waits for.
    pub fn pending(&self) -> (action: Action)
        ensures
            action == self.spec_pending(),
    {
        match &self.phase {
            Phase::Reading => Action::Read,
            Phase::Writing { read } => Action::Write { len: self.to_forward(*read) },
            Phase::Sleeping => Action::Sleep { millis: POLL_INTERVAL_MS },
            Phase::Completed => Action::Exit,
            Phase::Failed(_) => Action::Exit,
        }
    }

    /// Takes in `event`, observed at `now`, and names the next action.
    ///
    /// An event that does not report on the pending action is refused: the
    /// session stays as it is and no action is named. A write is asked for
    /// only in answer to data, and never for more bytes than were read.
    pub fn step(&mut self, event: &Event, now: Timestamp) -> (action: Option<Action>)
        ensures
            old(self).spec_accepts(*event) ==> {
                &&& *final(self) == old(self).spec_after(*event, now)
                &&& action == Some(final(self).spec_pending())
            },
            !old(self).spec_accepts(*event) ==> {
                &&& *final(self) == *old(self)
                &&& action is None
            },
            action matches Some(Action::Write { len }) ==> {
                &&& *event matches Event::Read(Outcome::Data(read))
                &&& len <= read
            },
    {
        let expired: bool = self.done(now);
        let one_shot: bool = self.mode == Mode::OneShot;
        let budget: Option<usize> = self.remaining;
        let (phase, remaining): (Phase, Option<usize>) = match &self.phase {
            Phase::Reading => match event {
                Event::Read(outcome) => match outcome {
                    Outcome::EndOfStream => {
                        if one_shot || expired {
                            (Phase::Completed, budget)
                        } else {
                            (Phase::Sleeping, budget)
                        }
                    },
                    Outcome::Data(read) => (Phase::Writing { read: *read }, budget),
                    Outcome::TimedOut => {
                        if expired {
                            (Phase::Completed, budget)
                        } else {
                            (Phase::Reading, budget)
                        }
                    },
                    Outcome::Fatal(cause) => (
                        Phase::Failed(Failure::Read { cause: cause.clone() }),
                        budget,
                    ),
                },
                _ => {
                    return None;
                },
            },
            Phase::Writing { read } => match event {
                Event::Written => match budget {
                    Some(left) => {
                        if *read >= left || expired {
                            (Phase::Completed, budget)
                        } else {
                            (Phase::Reading, Some(left - *read))
                        }
                    },
                    None => (Phase::Reading, budget),
                },
                Event::WriteFailed(cause) => (
                    Phase::Failed(Failure::Write { cause: cause.clone() }),
                    budget,
                ),
                _ => {
                    return None;
                },
            },
            Phase::Sleeping => match event {
                Event::Slept => (Phase::Reading, budget),
                _ => {
                    return None;
                },
            },
            Phase::Completed => {
                return None;
            },
            Phase::Failed(_) => {
                return None;
            },
        };
        self.phase = phase;
        self.remaining = remaining;
        Some(self.pending())
    }

    /// The exit status of a finished run; `None` while the run goes on.
    pub fn exit_code(&self) -> (code: Option<i32>)
        ensures
            code == self.spec_exit_code(),
    {
        match &self.phase {
            Phase::Completed => Some(EXIT_SUCCESS),
            Phase::Failed(failure) => Some(failure.exit_code()),
            _ => None,
        }
    }

    /// The failure that ended the run, if one did.
    pub fn failure(&self) -> (failure: Option<&Failure>)
        ensures
            match self.phase {
                Phase::Failed(reason) => failure == Some(&reason),
                _ => failure is None,
            },
    {
        match &self.phase {
            Phase::Failed(reason) => Some(reason),
            _ => None,
        }
    }
}

} // verus!
