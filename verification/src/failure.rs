//! The ways a run can fail, with the exit status and the diagnostic line of
//! each.

use vstd::prelude::*;
use vstd::string::*;

verus! {

/// Exit status of a run that ended normally: a budget or the deadline was
/// reached, or a one-shot source came to its end.
pub const EXIT_SUCCESS: i32 = 0;

/// Exit status after an I/O failure.
pub const EXIT_IO_FAILURE: i32 = 1;

/// Exit status after a configuration without any limit.
pub const EXIT_INVALID_CONFIG: i32 = 2;

/// A fatal condition. `cause` is the underlying error in words.
#[derive(Clone, Debug, PartialEq, Eq)]
pub enum Failure {
    /// Neither a byte limit nor a time limit was given.
    NoLimit,
    /// The file to follow could not be opened.
    Open { path: String, cause: String },
    /// The metadata of the file to follow could not be read.
    Metadata { cause: String },
    /// The file to follow could not be positioned at its end.
    Seek { cause: String },
    /// A read from the source failed for a reason other than a timeout.
    Read { cause: String },
    /// A write to the sink failed or was partial.
    Write { cause: String },
}

impl Failure {
    /// The exit status that reports this failure.
    pub open spec fn spec_exit_code(&self) -> i32 {
        match self {
            Failure::NoLimit => EXIT_INVALID_CONFIG,
            _ => EXIT_IO_FAILURE,
        }
    }

    /// The diagnostic line of this failure, without a line end: the failing
    /// operation, followed by the underlying cause where there is one.
    pub open spec fn spec_diagnostic(&self) -> Seq<char> {
        match self {
            Failure::NoLimit => "Error: you need to specify size and/or time."@,
            Failure::Open { path, cause } => "Could not open file "@ + path@ + ": "@ + cause@,
            Failure::Metadata { cause } => "Could not read file metadata: "@ + cause@,
            Failure::Seek { cause } => "Could not jump to end of file: "@ + cause@,
            Failure::Read { cause } => "Read error: "@ + cause@,
            Failure::Write { cause } => "Write error: "@ + cause@,
        }
    }

    /// The exit status that reports this failure.
    pub fn exit_code(&self) -> (code: i32)
        ensures
            code == self.spec_exit_code(),
    {
        match self {
            Failure::NoLimit => EXIT_INVALID_CONFIG,
            _ => EXIT_IO_FAILURE,
        }
    }

    /// The diagnostic line of this failure.
    pub fn diagnostic(&self) -> (line: String)
        ensures
            line@ == self.spec_diagnostic(),
    {
        match self {
            Failure::NoLimit => String::from_str("Error: you need to specify size and/or time."),
            Failure::Open { path, cause } => {
                let mut line = String::from_str("Could not open file ");
                line.append(path.as_str());
                line.append(": ");
                line.append(cause.as_str());
                line
            },
            Failure::Metadata { cause } => labelled("Could not read file metadata: ", cause),
            Failure::Seek { cause } => labelled("Could not jump to end of file: ", cause),
            Failure::Read { cause } => labelled("Read error: ", cause),
            Failure::Write { cause } => labelled("Write error: ", cause),
        }
    }
}

/// `label` followed by `cause`.
fn labelled(label: &str, cause: &String) -> (line: String)
    ensures
        line@ == label@ + cause@,
{
    let mut line = String::from_str(label);
    line.append(cause.as_str());
    line
}

} // verus!
