//! What the caller asks for, and the validated configuration of a run.

use vstd::prelude::*;
use crate::failure::Failure;

verus! {

/// How the source is read.
#[derive(Clone, Copy, Debug, PartialEq, Eq, Structural)]
pub enum Mode {
    /// Drain the source once; its end ends the run.
    OneShot,
    /// Keep polling a file past its end for bytes appended later.
    FollowTail,
}

/// The caller's options, as given and not yet checked.
#[derive(Clone, Debug, PartialEq, Eq)]
pub struct Opts {
    /// Stop after that many seconds.
    pub seconds: Option<u64>,
    /// Stop after that many bytes.
    pub bytes: Option<usize>,
    /// Follow this file instead of reading standard input.
    pub tail: Option<String>,
}

/// A checked configuration: at least one of the two limits is set.
#[derive(Clone, Copy, Debug, PartialEq, Eq)]
pub struct Config {
    byte_limit: Option<usize>,
    time_limit: Option<u64>,
    mode: Mode,
}

impl Opts {
    /// The mode these options select: a file to follow, or standard input
    /// read once.
    pub open spec fn spec_mode(&self) -> Mode {
        if self.tail is Some {
            Mode::FollowTail
        } else {
            Mode::OneShot
        }
    }

    /// Whether at least one limit is given.
    pub open spec fn has_limit(&self) -> bool {
        self.seconds is Some || self.bytes is Some
    }
}

impl Config {
    /// The largest number of bytes to emit, if bounded by size.
    pub closed spec fn spec_byte_limit(&self) -> Option<usize> {
        self.byte_limit
    }

    /// The longest time to run in seconds, if bounded by time.
    pub closed spec fn spec_time_limit(&self) -> Option<u64> {
        self.time_limit
    }

    /// How the source is read.
    pub closed spec fn spec_mode(&self) -> Mode {
        self.mode
    }

    /// The invariant of the type: a limit is set, so that every run has a
    /// defined point at which it stops.
    #[verifier::type_invariant]
    pub open spec fn limited(self) -> bool {
        self.byte_limit() is Some || self.time_limit() is Some
    }

    /// Checks the caller's options. Options without any limit are refused
    /// with [`Failure::NoLimit`]; all others are taken over unchanged.
    pub fn from_opts(opts: &Opts) -> (checked: Result<Config, Failure>)
        ensures
            checked is Ok <==> opts.has_limit(),
            checked matches Ok(config) ==> {
                &&& config.byte_limit() == opts.bytes
                &&& config.time_limit() == opts.seconds
                &&& config.mode() == opts.spec_mode()
            },
            checked matches Err(failure) ==> failure == Failure::NoLimit,
    {
        if opts.bytes.is_none() && opts.seconds.is_none() {
            return Err(Failure::NoLimit);
        }
        let mode = if opts.tail.is_some() {
            Mode::FollowTail
        } else {
            Mode::OneShot
        };
        Ok(Config { byte_limit: opts.bytes, time_limit: opts.seconds, mode })
    }

    /// The largest number of bytes to emit, if bounded by size.
    #[verifier::when_used_as_spec(spec_byte_limit)]
    pub fn byte_limit(&self) -> (limit: Option<usize>)
        ensures
            limit == self.spec_byte_limit(),
    {
        self.byte_limit
    }

    /// The longest time to run in seconds, if bounded by time.
    #[verifier::when_used_as_spec(spec_time_limit)]
    pub fn time_limit(&self) -> (limit: Option<u64>)
        ensures
            limit == self.spec_time_limit(),
    {
        self.time_limit
    }

    /// How the source is read.
    #[verifier::when_used_as_spec(spec_mode)]
    pub fn mode(&self) -> (mode: Mode)
        ensures
            mode == self.spec_mode(),
    {
        self.mode
    }
}

} // verus!
