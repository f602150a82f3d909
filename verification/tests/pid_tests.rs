use gisonet::pid::{parse_pid, pid_to_check};

#[test]
fn pid_with_whitespace() {
    assert_eq!(parse_pid("1234\n"), 1234);
    assert_eq!(parse_pid("  42  "), 42);
    assert_eq!(parse_pid("\t7\r\n"), 7);
}

#[test]
fn pid_with_plus_sign() {
    assert_eq!(parse_pid("+5"), 5);
    assert_eq!(parse_pid("+"), 0);
}

#[test]
fn invalid_pid_reads_as_zero() {
    assert_eq!(parse_pid(""), 0);
    assert_eq!(parse_pid("abc"), 0);
    assert_eq!(parse_pid("-1"), 0);
    assert_eq!(parse_pid("12 34"), 0);
    assert_eq!(parse_pid("4294967296"), 0);
    assert_eq!(parse_pid("4294967295"), 4294967295);
}

#[test]
fn only_nonzero_pids_are_checked() {
    assert_eq!(pid_to_check("0"), None);
    assert_eq!(pid_to_check("junk"), None);
    assert_eq!(pid_to_check(" 99\n"), Some(99));
}
