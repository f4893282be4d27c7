use pipe_cutter::source::{Outcome, ReadError, BUFFER_CAPACITY};

#[test]
fn transfer_buffer_holds_4096_bytes() {
    assert_eq!(BUFFER_CAPACITY, 4096);
}

#[test]
fn zero_bytes_are_the_end_of_the_stream() {
    assert_eq!(Outcome::from_read(Ok(0)), Outcome::EndOfStream);
}

#[test]
fn a_positive_count_is_data() {
    assert_eq!(Outcome::from_read(Ok(1)), Outcome::Data(1));
    assert_eq!(Outcome::from_read(Ok(4096)), Outcome::Data(4096));
}

#[test]
fn a_timeout_is_not_fatal() {
    let error = ReadError {
        timed_out: true,
        message: String::from("timed out waiting for fd to be ready"),
    };
    assert_eq!(Outcome::from_read(Err(error)), Outcome::TimedOut);
}

#[test]
fn any_other_error_is_fatal_with_its_message() {
    let error = ReadError { timed_out: false, message: String::from("Bad file descriptor") };
    assert_eq!(
        Outcome::from_read(Err(error)),
        Outcome::Fatal(String::from("Bad file descriptor"))
    );
}
