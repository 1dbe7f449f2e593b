use netprobe::cycle::{next, start, Signal, Step};
use netprobe::metrics::{Instrument, InstrumentKind, Reading};
use netprobe::ping::{ping_args, ping_target, record, run, Event, Platform};
use netprobe::probe::{Ending, FailureKind, ProbeOutcome, RawOutput};
use netprobe::time::TimeSpan;

fn ran(exit_ok: bool, stdout: &str, stderr: &str) -> Ending {
    Ending::Ended(RawOutput { exit_ok, stdout: stdout.as_bytes().to_vec(), stderr: stderr.as_bytes().to_vec() })
}

fn targets() -> Vec<String> {
    vec!["8.8.8.8".to_string(), "example.com".to_string(), "10.0.0.1".to_string()]
}

#[test]
fn arguments_on_linux_give_the_timeout_in_seconds() {
    let args = ping_args("8.8.8.8", TimeSpan::from_secs(5), Platform::Linux);
    assert_eq!(args, ["-c", "1", "-W", "5", "8.8.8.8"]);
    let args = ping_args("host", TimeSpan::from_millis(2_999), Platform::Linux);
    assert_eq!(args, ["-c", "1", "-W", "2", "host"]);
}

#[test]
fn arguments_on_bsd_give_the_timeout_in_milliseconds() {
    let args = ping_args("8.8.8.8", TimeSpan::from_secs(5), Platform::Bsd);
    assert_eq!(args, ["-c", "1", "-W", "5000", "8.8.8.8"]);
    let args = ping_args("host", TimeSpan::new(1, 234_567_890).unwrap(), Platform::Bsd);
    assert_eq!(args, ["-c", "1", "-W", "1234", "host"]);
}

#[test]
fn the_timeout_argument_is_never_zero() {
    assert_eq!(ping_args("h", TimeSpan::from_secs(0), Platform::Linux)[3], "1");
    assert_eq!(ping_args("h", TimeSpan::from_millis(999), Platform::Linux)[3], "1");
    assert_eq!(ping_args("h", TimeSpan::from_secs(0), Platform::Bsd)[3], "1");
    assert_eq!(ping_args("h", TimeSpan::new(0, 999_999).unwrap(), Platform::Bsd)[3], "1");
}

#[test]
fn the_longest_timeout_is_written_in_full() {
    let longest = TimeSpan::new(u64::MAX, 999_999_999).unwrap();
    assert_eq!(ping_args("h", longest, Platform::Linux)[3], "18446744073709551615");
    assert_eq!(ping_args("h", longest, Platform::Bsd)[3], "18446744073709551615999");
}

#[test]
fn a_ping_that_printed_its_time_succeeds() {
    let outcome = ping_target(ran(true, "64 bytes from 8.8.8.8: time=12.3 ms", ""));
    match outcome {
        ProbeOutcome::Success(span) => assert_eq!((span.as_secs(), span.subsec_nanos()), (0, 12_300_000)),
        other => panic!("{other:?}"),
    }
}

#[test]
fn a_ping_that_printed_nothing_to_read_is_a_parse_error() {
    assert!(matches!(ping_target(ran(true, "", "")), ProbeOutcome::Failure(FailureKind::ParseError)));
    assert!(matches!(
        ping_target(ran(true, "PING 8.8.8.8", "time=1 ms")),
        ProbeOutcome::Failure(FailureKind::ParseError)
    ));
}

#[test]
fn a_ping_that_failed_is_judged_by_its_output_not_read() {
    assert!(matches!(
        ping_target(ran(false, "time=1 ms", "Destination Host Unreachable")),
        ProbeOutcome::Failure(FailureKind::NonZeroExit)
    ));
    assert!(matches!(
        ping_target(ran(false, "Request timeout for icmp_seq 0", "")),
        ProbeOutcome::Failure(FailureKind::Timeout)
    ));
}

#[test]
fn a_ping_that_could_not_run_keeps_its_reason() {
    let outcome = ping_target(Ending::NotRun("entity not found".to_string()));
    match outcome {
        ProbeOutcome::Failure(kind) => assert_eq!(kind.label(), "io_error_entity_not_found"),
        other => panic!("{other:?}"),
    }
    assert!(matches!(ping_target(Ending::Overdue), ProbeOutcome::Failure(FailureKind::Timeout)));
}

#[test]
fn a_success_is_recorded_as_an_observation_for_the_host() {
    let span = TimeSpan::from_millis(12);
    let sample = record("8.8.8.8", &ProbeOutcome::Success(span));
    assert_eq!(sample.instrument, Instrument::PingDelay);
    assert_eq!(sample.instrument.name(), "ping_delay_seconds");
    assert_eq!(sample.instrument.kind(), InstrumentKind::Histogram);
    assert_eq!(sample.instrument.label_keys(), vec!["hostname"]);
    assert_eq!(sample.labels, vec!["8.8.8.8"]);
    assert_eq!(sample.value, Reading::Seconds(span));
}

#[test]
fn a_failure_is_recorded_as_one_more_of_its_kind_for_the_host() {
    let sample = record("example.com", &ProbeOutcome::Failure(FailureKind::UnknownHost));
    assert_eq!(sample.instrument, Instrument::PingFails);
    assert_eq!(sample.instrument.name(), "ping_fails");
    assert_eq!(sample.instrument.kind(), InstrumentKind::Counter);
    assert_eq!(sample.instrument.label_keys(), vec!["hostname", "error_type"]);
    assert_eq!(sample.labels, vec!["example.com", "unknown_host"]);
    assert_eq!(sample.value, Reading::Increment);
}

#[test]
fn a_cycle_probes_every_target_once_and_then_waits() {
    let targets = targets();
    let mut step = start(targets.len());
    let mut recorded = Vec::new();
    for expected in 0..targets.len() {
        assert_eq!(step, Step::Probe(expected));
        let outcome = ProbeOutcome::Success(TimeSpan::from_millis(expected as u64));
        let (after, samples) = run(&targets, step, Event::Probed(outcome));
        assert_eq!(samples.len(), 1);
        recorded.push(samples[0].labels[0].clone());
        step = after;
    }
    assert_eq!(step, Step::Wait);
    assert_eq!(recorded, targets);
    let (after, samples) = run(&targets, step, Event::WaitElapsed);
    assert_eq!(after, Step::Probe(0));
    assert!(samples.is_empty());
}

#[test]
fn a_timeout_is_recorded_once_and_the_loop_moves_on() {
    let targets = targets();
    let timeout = Event::Probed(ProbeOutcome::Failure(FailureKind::Timeout));
    let (after, samples) = run(&targets, Step::Probe(1), timeout);
    assert_eq!(after, Step::Probe(2));
    assert_eq!(samples.len(), 1);
    assert_eq!(samples[0].instrument, Instrument::PingFails);
    assert_eq!(samples[0].labels, vec!["example.com", "timeout"]);
    assert_eq!(samples[0].value, Reading::Increment);
    let timeout = Event::Probed(ProbeOutcome::Failure(FailureKind::Timeout));
    let (after, samples) = run(&targets, Step::Probe(2), timeout);
    assert_eq!(after, Step::Wait);
    assert_eq!(samples.len(), 1);
}

#[test]
fn shutdown_during_the_wait_stops_the_loop_at_once() {
    let targets = targets();
    let (after, samples) = run(&targets, Step::Wait, Event::Shutdown);
    assert_eq!(after, Step::Stop);
    assert!(samples.is_empty());
    let (after, samples) = run(&targets, Step::Stop, Event::WaitElapsed);
    assert_eq!(after, Step::Stop);
    assert!(samples.is_empty());
}

#[test]
fn shutdown_between_two_probes_stops_the_loop() {
    let targets = targets();
    let (after, samples) = run(&targets, Step::Probe(1), Event::Shutdown);
    assert_eq!(after, Step::Stop);
    assert!(samples.is_empty());
}

#[test]
fn an_event_that_does_not_answer_the_step_changes_nothing() {
    let targets = targets();
    let stray = Event::Probed(ProbeOutcome::Failure(FailureKind::ParseError));
    let (after, samples) = run(&targets, Step::Wait, stray);
    assert_eq!(after, Step::Wait);
    assert!(samples.is_empty());
    let (after, samples) = run(&targets, Step::Probe(1), Event::WaitElapsed);
    assert_eq!(after, Step::Probe(1));
    assert!(samples.is_empty());
    let stray = Event::Probed(ProbeOutcome::Failure(FailureKind::ParseError));
    let (after, samples) = run(&targets, Step::Probe(7), stray);
    assert_eq!(after, Step::Wait);
    assert!(samples.is_empty());
}

#[test]
fn a_loop_without_targets_only_waits() {
    assert_eq!(start(0), Step::Wait);
    assert_eq!(next(0, Step::Wait, Signal::WaitElapsed), Step::Wait);
    assert_eq!(next(0, Step::Wait, Signal::Shutdown), Step::Stop);
}

#[test]
fn the_last_index_does_not_overflow() {
    assert_eq!(next(usize::MAX, Step::Probe(usize::MAX - 1), Signal::ProbeDone), Step::Wait);
    assert_eq!(next(usize::MAX, Step::Probe(usize::MAX), Signal::ProbeDone), Step::Wait);
    assert_eq!(next(usize::MAX, Step::Probe(usize::MAX - 2), Signal::ProbeDone), Step::Probe(usize::MAX - 1));
}
