use cli_run::exit::RunError;
use cli_run::text::{chars_of, clone_texts, decimal, ends_with};

#[test]
fn decimal_of_small_numbers() {
    assert_eq!(decimal(0), "0");
    assert_eq!(decimal(7), "7");
    assert_eq!(decimal(10), "10");
    assert_eq!(decimal(42), "42");
    assert_eq!(decimal(1234567890), "1234567890");
}

#[test]
fn decimal_of_negative_numbers_and_limits() {
    assert_eq!(decimal(-1), "-1");
    assert_eq!(decimal(-42), "-42");
    assert_eq!(decimal(i32::MAX), "2147483647");
    assert_eq!(decimal(i32::MIN), "-2147483648");
}

#[test]
fn decimal_agrees_with_the_standard_formatting() {
    for n in [-100000, -999, -10, -9, 1, 9, 11, 99, 100, 101, 255, 256, 65535, 1000000] {
        assert_eq!(decimal(n), format!("{}", n));
    }
}

#[test]
fn message_names_the_missing_directory() {
    let error = RunError::PathResolution { path: "/home/u/gone".to_string() };
    assert_eq!(error.message(), "working directory does not exist: /home/u/gone");
}

#[test]
fn message_names_the_executable_that_did_not_start() {
    let error = RunError::Spawn {
        executable: "no-such-command".to_string(),
        os_error: Some(2),
        detail: "No such file or directory (os error 2)".to_string(),
    };
    assert_eq!(
        error.message(),
        "cannot start no-such-command: No such file or directory (os error 2)"
    );
}

#[test]
fn message_carries_the_exit_code() {
    let error = RunError::CommandFailed { code: 42, forwarding_errors: Vec::new() };
    assert_eq!(error.message(), "command failed with exit code: 42");
    let error = RunError::CommandFailed { code: -3, forwarding_errors: Vec::new() };
    assert_eq!(error.message(), "command failed with exit code: -3");
}

#[test]
fn chars_of_keeps_every_character() {
    assert_eq!(chars_of("a/b\\c"), vec!['a', '/', 'b', '\\', 'c']);
    assert_eq!(chars_of("héllo"), vec!['h', 'é', 'l', 'l', 'o']);
    assert!(chars_of("").is_empty());
}

#[test]
fn ends_with_compares_the_tail() {
    assert!(ends_with("archive.zip", ".zip"));
    assert!(ends_with(".zip", ".zip"));
    assert!(ends_with("anything", ""));
    assert!(!ends_with("zip", ".zip"));
    assert!(!ends_with("archive.zip.sig", ".zip"));
    assert!(!ends_with("archive.ZIP", ".zip"));
    assert!(ends_with("tool.tar.gz", ".tar.gz"));
}

#[test]
fn clone_texts_copies_a_list() {
    let list = vec!["a".to_string(), "".to_string(), "c d".to_string()];
    assert_eq!(clone_texts(&list), list);
    assert!(clone_texts(&Vec::new()).is_empty());
}
