//! The timed source: what one read with a bounded wait can come back with.

use vstd::prelude::*;

verus! {

/// Capacity in bytes of the transfer buffer that a driver reads into.
pub const BUFFER_CAPACITY: usize = 4096;

/// An error of the underlying reader, reduced to what the run looks at.
#[derive(Clone, Debug, PartialEq, Eq)]
pub struct ReadError {
    /// Whether the error says that the wait for data ran out.
    pub timed_out: bool,
    /// The error in words.
    pub message: String,
}

/// The outcome of one timed read.
#[derive(Clone, Debug, PartialEq, Eq)]
pub enum Outcome {
    /// That many bytes were copied into the buffer, at least one.
    Data(usize),
    /// The source reported zero bytes and no error. Standard input stays
    /// at its end; a followed file may grow later.
    EndOfStream,
    /// No data arrived within the polling interval; the source is still
    /// open and may be read again.
    TimedOut,
    /// Any other error, in words.
    Fatal(String),
}

impl Outcome {
    /// The outcome that a reader's result stands for.
    pub open spec fn spec_from_read(result: Result<usize, ReadError>) -> Outcome {
        match result {
            Ok(count) => if count == 0 {
                Outcome::EndOfStream
            } else {
                Outcome::Data(count)
            },
            Err(error) => if error.timed_out {
                Outcome::TimedOut
            } else {
                Outcome::Fatal(error.message)
            },
        }
    }

    /// Tells the four outcomes apart: a count of zero is the end of the
    /// stream, a larger count is data, a timeout is no error, and every
    /// other error is fatal. Data is never empty; that it fits the buffer
    /// is owed by the reader that filled it.
    pub fn from_read(result: Result<usize, ReadError>) -> (outcome: Outcome)
        ensures
            outcome == Outcome::spec_from_read(result),
            outcome matches Outcome::Data(count) ==> count >= 1,
    {
        match result {
            Ok(count) => {
                if count == 0 {
                    Outcome::EndOfStream
                } else {
                    Outcome::Data(count)
                }
            },
            Err(error) => {
                if error.timed_out {
                    Outcome::TimedOut
                } else {
                    Outcome::Fatal(error.message)
                }
            },
        }
    }
}

} // verus!
