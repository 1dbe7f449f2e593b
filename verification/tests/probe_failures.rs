use netprobe::probe::{classify_exit, compound_label, settle, Ending, FailureKind, RawOutput};

fn kind_of(stdout: &str, stderr: &str) -> String {
    classify_exit(stdout.as_bytes(), stderr.as_bytes()).label()
}

#[test]
fn unreachable_host_is_a_plain_failure_not_a_timeout() {
    let stderr = "From 192.168.1.1 icmp_seq=1 Destination Host Unreachable";
    let kind = classify_exit(b"", stderr.as_bytes());
    assert!(matches!(kind, FailureKind::NonZeroExit));
    assert_eq!(kind.label(), "nonzero_exit");
}

#[test]
fn timeout_is_told_by_either_word_in_either_stream() {
    assert_eq!(kind_of("Request timed out.", ""), "timeout");
    assert_eq!(kind_of("", "ping: sendto: timed out"), "timeout");
    assert_eq!(kind_of("Request timeout for icmp_seq 0", ""), "timeout");
    assert_eq!(kind_of("", "connect: Timeout"), "timeout");
    assert_eq!(kind_of("REQUEST TIMED OUT", ""), "timeout");
}

#[test]
fn unknown_host_and_permission_are_told_in_either_stream() {
    assert_eq!(kind_of("", "ping: unknown host example.invalid"), "unknown_host");
    assert_eq!(kind_of("ping: Unknown Host", ""), "unknown_host");
    assert_eq!(kind_of("", "ping: socket: Operation not permitted (permission denied)"), "permission_denied");
    assert_eq!(kind_of("Lacking Permission", ""), "permission_denied");
}

#[test]
fn the_first_keyword_in_order_decides() {
    assert_eq!(kind_of("unknown host", "timed out"), "timeout");
    assert_eq!(kind_of("permission", "unknown host"), "unknown_host");
    assert_eq!(kind_of("", ""), "nonzero_exit");
    assert_eq!(kind_of("timed  out", "time out"), "nonzero_exit");
}

#[test]
fn every_kind_has_its_label() {
    assert_eq!(FailureKind::Timeout.label(), "timeout");
    assert_eq!(FailureKind::UnknownHost.label(), "unknown_host");
    assert_eq!(FailureKind::PermissionDenied.label(), "permission_denied");
    assert_eq!(FailureKind::NonZeroExit.label(), "nonzero_exit");
    assert_eq!(FailureKind::ParseError.label(), "parse_error");
}

#[test]
fn io_errors_are_labelled_by_their_class_in_snake_case() {
    assert_eq!(FailureKind::IoError("entity not found".to_string()).label(), "io_error_entity_not_found");
    assert_eq!(FailureKind::IoError("permission denied".to_string()).label(), "io_error_permission_denied");
    assert_eq!(FailureKind::IoError("BrokenPipe".to_string()).label(), "io_error_broken_pipe");
    assert_eq!(FailureKind::IoError(String::new()).label(), "io_error_");
}

#[test]
fn fixed_labels_are_already_in_snake_case() {
    let kinds = [
        FailureKind::Timeout,
        FailureKind::UnknownHost,
        FailureKind::PermissionDenied,
        FailureKind::NonZeroExit,
        FailureKind::ParseError,
        FailureKind::IoError("connection refused".to_string()),
    ];
    for kind in kinds {
        let label = kind.label();
        assert_eq!(heck::ToSnakeCase::to_snake_case(label.as_str()), label);
    }
}

#[test]
fn compound_labels_join_family_and_cause() {
    assert_eq!(compound_label("io_error", "not_found"), "io_error_not_found");
    assert_eq!(compound_label("", ""), "_");
}

#[test]
fn a_command_that_succeeded_hands_on_its_output() {
    let output = RawOutput { exit_ok: true, stdout: b"timed out".to_vec(), stderr: b"unknown host".to_vec() };
    assert_eq!(settle(Ending::Ended(output)).unwrap(), b"timed out".to_vec());
}

#[test]
fn a_command_that_failed_is_judged_by_what_it_wrote() {
    let output = RawOutput { exit_ok: false, stdout: Vec::new(), stderr: b"ping: unknown host".to_vec() };
    assert!(matches!(settle(Ending::Ended(output)), Err(FailureKind::UnknownHost)));
    let output = RawOutput { exit_ok: false, stdout: b"time=1 ms".to_vec(), stderr: Vec::new() };
    assert!(matches!(settle(Ending::Ended(output)), Err(FailureKind::NonZeroExit)));
}

#[test]
fn a_command_that_was_overdue_timed_out() {
    assert!(matches!(settle(Ending::Overdue), Err(FailureKind::Timeout)));
}

#[test]
fn a_command_that_could_not_be_run_failed_with_the_class_of_its_error() {
    match settle(Ending::NotRun("entity not found".to_string())) {
        Err(FailureKind::IoError(class)) => assert_eq!(class, "entity not found"),
        other => panic!("{other:?}"),
    }
    let kind = settle(Ending::NotRun("permission denied".to_string())).unwrap_err();
    assert_eq!(kind.label(), "io_error_permission_denied");
}
