use pipe_cutter::config::{Config, Mode, Opts};
use pipe_cutter::failure::Failure;

fn opts(seconds: Option<u64>, bytes: Option<usize>, tail: Option<&str>) -> Opts {
    Opts { seconds, bytes, tail: tail.map(String::from) }
}

#[test]
fn options_without_any_limit_are_refused() {
    assert_eq!(Config::from_opts(&opts(None, None, None)), Err(Failure::NoLimit));
}

#[test]
fn a_file_to_follow_does_not_stand_in_for_a_limit() {
    assert_eq!(Config::from_opts(&opts(None, None, Some("nginx.log"))), Err(Failure::NoLimit));
}

#[test]
fn missing_limit_exits_with_status_two() {
    let failure = Config::from_opts(&opts(None, None, None)).unwrap_err();
    assert_eq!(failure.exit_code(), 2);
    assert_eq!(failure.diagnostic(), "Error: you need to specify size and/or time.");
}

#[test]
fn byte_limit_alone_is_accepted() {
    let config = Config::from_opts(&opts(None, Some(300), None)).unwrap();
    assert_eq!(config.byte_limit(), Some(300));
    assert_eq!(config.time_limit(), None);
    assert_eq!(config.mode(), Mode::OneShot);
}

#[test]
fn time_limit_alone_is_accepted() {
    let config = Config::from_opts(&opts(Some(10), None, None)).unwrap();
    assert_eq!(config.byte_limit(), None);
    assert_eq!(config.time_limit(), Some(10));
    assert_eq!(config.mode(), Mode::OneShot);
}

#[test]
fn both_limits_are_accepted() {
    let config = Config::from_opts(&opts(Some(7), Some(0), None)).unwrap();
    assert_eq!(config.byte_limit(), Some(0));
    assert_eq!(config.time_limit(), Some(7));
}

#[test]
fn a_zero_limit_counts_as_a_limit() {
    assert!(Config::from_opts(&opts(Some(0), None, None)).is_ok());
    assert!(Config::from_opts(&opts(None, Some(0), None)).is_ok());
}

#[test]
fn a_file_to_follow_selects_follow_tail() {
    let config = Config::from_opts(&opts(Some(10), None, Some("nginx.log"))).unwrap();
    assert_eq!(config.mode(), Mode::FollowTail);
}

#[test]
fn extreme_limits_are_taken_over_unchanged() {
    let config = Config::from_opts(&opts(Some(u64::MAX), Some(usize::MAX), None)).unwrap();
    assert_eq!(config.byte_limit(), Some(usize::MAX));
    assert_eq!(config.time_limit(), Some(u64::MAX));
}
