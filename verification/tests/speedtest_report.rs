use netprobe::json::Fault;
use netprobe::metrics::{Instrument, Reading, Sample};
use netprobe::probe::{Ending, RawOutput};
use netprobe::speedtest::{
    decode, decode_bytes, decode_document, default_latency, default_packet_loss, fields, record,
    speedtest, DecodeError, SpeedtestResult, TestFailure,
};
use netprobe::time::TimeSpan;
use std::time::Duration;

fn std_duration(span: TimeSpan) -> Duration {
    Duration::new(span.as_secs(), span.subsec_nanos())
}

const REPORT: &str = r#"{
    "type": "result",
    "timestamp": "2025-10-26T11:36:26Z",
    "ping": {
        "jitter": 3.245,
        "low": 13.379,
        "high": 21.874
    },
    "download": {
        "bandwidth": 115116205,
        "bytes": 1162635603,
        "elapsed": 10312,
        "latency": {
            "iqm": 69.730,
            "low": 11.473,
            "high": 395.030,
            "jitter": 24.770
        }
    },
    "upload": {
        "bandwidth": 12071584,
        "bytes": 97041069,
        "elapsed": 8101,
        "latency": {
            "iqm": 177.390,
            "low": 10.735,
            "high": 322.531,
            "jitter": 52.124
        }
    },
    "server": {
        "id": 52365,
        "host": "speedtest.ams.t-mobile.nl",
        "port": 8080,
        "name": "Odido",
        "location": "Amsterdam",
        "country": "Netherlands",
        "ip": "2a02:4240::e"
    }
}"#;

/// A report whose numbers are all exact in binary.
const EXACT: &str = r#"{
    "ping": { "latency": 17.5, "jitter": 0.25, "low": 8, "high": 1024.125 },
    "download": {
        "bandwidth": 1000, "bytes": 2000, "elapsed": 1500,
        "latency": { "iqm": 1.5, "low": 0.5, "high": 2.75, "jitter": 0.125 }
    },
    "upload": {
        "bandwidth": 18446744073709551615, "bytes": 0, "elapsed": 0,
        "latency": { "iqm": 3, "low": 2, "high": 4, "jitter": 1 }
    },
    "packetLoss": 12.5,
    "server": {
        "host": "h", "ip": "10.0.0.1", "port": 65535, "name": "n",
        "location": "l", "country": "c"
    }
}"#;

fn without(member: &str) -> String {
    let mut doc: serde_json::Value = serde_json::from_str(EXACT).unwrap();
    let (parent, key) = member.rsplit_once('/').unwrap();
    let removed = doc.pointer_mut(parent).unwrap().as_object_mut().unwrap().remove(key);
    assert!(removed.is_some(), "{member}");
    doc.to_string()
}

fn with(member: &str, value: serde_json::Value) -> String {
    let mut doc: serde_json::Value = serde_json::from_str(EXACT).unwrap();
    *doc.pointer_mut(member).unwrap() = value;
    doc.to_string()
}

#[test]
fn test_parse_json() {
    let result: SpeedtestResult = decode(REPORT).unwrap();
    assert_eq!(std_duration(result.ping.latency), Duration::from_secs(0));
    assert_eq!(result.download.bandwidth, 115116205);
    assert_eq!(result.upload.bandwidth, 12071584);
    assert_eq!(f64::from_bits(result.packet_loss.bits), 0.0);
    assert_eq!(result.server.host, "speedtest.ams.t-mobile.nl");
    assert_eq!(result.server.port, 8080);
    assert_eq!(result.server.name, "Odido");
    assert_eq!(result.server.location, "Amsterdam");
}

#[test]
fn idle_latency_is_read_when_the_report_states_it() {
    let stated = REPORT.replacen(r#""jitter": 3.245,"#, r#""latency": 17.634, "jitter": 3.245,"#, 1);
    assert_ne!(stated, REPORT);
    let result = decode(&stated).unwrap();
    assert_eq!(std_duration(result.ping.latency), Duration::from_micros(17634));
    assert_eq!(std_duration(result.ping.jitter), Duration::from_micros(3245));
}

#[test]
fn every_field_is_decoded_from_its_member() {
    let report = decode(EXACT).unwrap();
    assert_eq!(std_duration(report.ping.latency), Duration::from_micros(17_500));
    assert_eq!(std_duration(report.ping.jitter), Duration::from_micros(250));
    assert_eq!(std_duration(report.ping.low), Duration::from_millis(8));
    assert_eq!(std_duration(report.ping.high), Duration::from_micros(1_024_125));
    assert_eq!(report.download.bandwidth, 1000);
    assert_eq!(report.download.bytes, 2000);
    assert_eq!(std_duration(report.download.elapsed), Duration::from_millis(1500));
    assert_eq!(std_duration(report.download.latency.mean), Duration::from_micros(1_500));
    assert_eq!(std_duration(report.download.latency.low), Duration::from_micros(500));
    assert_eq!(std_duration(report.download.latency.high), Duration::from_micros(2_750));
    assert_eq!(std_duration(report.download.latency.jitter), Duration::from_micros(125));
    assert_eq!(report.upload.bandwidth, u64::MAX);
    assert_eq!(report.upload.bytes, 0);
    assert_eq!(std_duration(report.upload.elapsed), Duration::ZERO);
    assert_eq!(std_duration(report.upload.latency.mean), Duration::from_millis(3));
    assert_eq!(std_duration(report.upload.latency.low), Duration::from_millis(2));
    assert_eq!(std_duration(report.upload.latency.high), Duration::from_millis(4));
    assert_eq!(std_duration(report.upload.latency.jitter), Duration::from_millis(1));
    assert_eq!(f64::from_bits(report.packet_loss.bits), 12.5);
    assert_eq!(report.server.host, "h");
    assert_eq!(report.server.ip, "10.0.0.1");
    assert_eq!(report.server.port, 65535);
    assert_eq!(report.server.name, "n");
    assert_eq!(report.server.location, "l");
    assert_eq!(report.server.country, "c");
}

#[test]
fn elapsed_is_whole_milliseconds_and_latency_fractional() {
    let report = decode(REPORT).unwrap();
    assert_eq!(std_duration(report.download.elapsed), Duration::from_millis(10_312));
    assert_eq!(std_duration(report.upload.elapsed), Duration::from_millis(8_101));
    assert_eq!(decode(&with("/download/elapsed", serde_json::Value::from(1.5))).unwrap_err(), DecodeError::InvalidField);
    let whole = decode(&with("/ping/low", serde_json::Value::from(7u64))).unwrap();
    assert_eq!(std_duration(whole.ping.low), Duration::from_millis(7));
}

#[test]
fn latency_round_trips_within_tolerance() {
    let report = decode(REPORT).unwrap();
    let stated = [
        (report.ping.jitter, 3.245),
        (report.ping.low, 13.379),
        (report.ping.high, 21.874),
        (report.download.latency.mean, 69.730),
        (report.download.latency.high, 395.030),
        (report.upload.latency.mean, 177.390),
        (report.upload.latency.jitter, 52.124),
    ];
    for (span, millis) in stated {
        let back = std_duration(span).as_secs_f64() * 1000.0;
        assert!((back - millis).abs() < 1e-5, "{millis} came back as {back}");
    }
}

#[test]
fn missing_packet_loss_is_zero() {
    let report = decode(&without("/packetLoss")).unwrap();
    assert_eq!(report.packet_loss, default_packet_loss());
    assert_eq!(f64::from_bits(report.packet_loss.bits), 0.0);
}

#[test]
fn missing_idle_latency_is_zero() {
    let report = decode(&without("/ping/latency")).unwrap();
    assert_eq!(report.ping.latency, default_latency());
    assert_eq!(std_duration(report.ping.latency), Duration::ZERO);
}

#[test]
fn every_other_member_is_required() {
    let mut required = 0;
    for entry in fields() {
        let text = without(entry.pointer);
        if entry.required {
            required += 1;
            assert_eq!(decode(&text).unwrap_err(), DecodeError::MissingField, "{}", entry.pointer);
        } else {
            assert!(decode(&text).is_ok(), "{}", entry.pointer);
        }
    }
    assert_eq!(required, 23);
}

#[test]
fn members_of_the_wrong_form_are_refused() {
    let wrong = [
        ("/ping/latency", serde_json::Value::from("17.5")),
        ("/ping/low", serde_json::Value::Null),
        ("/ping/high", serde_json::Value::from(-1.0)),
        ("/download/bandwidth", serde_json::Value::from(-1)),
        ("/download/bytes", serde_json::Value::from(1.0)),
        ("/upload/elapsed", serde_json::Value::from("10")),
        ("/packetLoss", serde_json::Value::from("none")),
        ("/packetLoss", serde_json::Value::Null),
        ("/server/host", serde_json::Value::from(1)),
        ("/server/port", serde_json::Value::from(65536)),
        ("/server/port", serde_json::Value::from("8080")),
        ("/server/country", serde_json::Value::Bool(true)),
    ];
    for (member, value) in wrong {
        let text = with(member, value);
        assert_eq!(decode(&text).unwrap_err(), DecodeError::InvalidField, "{member}");
    }
}

#[test]
fn a_missing_member_counts_before_a_wrong_one() {
    let mut doc: serde_json::Value = serde_json::from_str(EXACT).unwrap();
    *doc.pointer_mut("/ping/low").unwrap() = serde_json::Value::Null;
    doc.pointer_mut("/server").unwrap().as_object_mut().unwrap().remove("country");
    assert_eq!(decode_document(&doc).unwrap_err(), DecodeError::MissingField);
}

#[test]
fn text_that_is_no_json_is_malformed() {
    assert_eq!(decode("{ not json").unwrap_err(), DecodeError::Malformed(Fault::Syntax));
    assert_eq!(decode(r#"{"ping": {"#).unwrap_err(), DecodeError::Malformed(Fault::Eof));
    assert_eq!(decode("").unwrap_err(), DecodeError::Malformed(Fault::Eof));
    assert_eq!(decode_bytes(&[b'"', 0xff, b'"']).unwrap_err(), DecodeError::Malformed(Fault::Syntax));
}

#[test]
fn json_of_another_shape_lacks_the_members() {
    assert_eq!(decode("[]").unwrap_err(), DecodeError::MissingField);
    assert_eq!(decode("null").unwrap_err(), DecodeError::MissingField);
    assert_eq!(decode(r#"{"type": "log"}"#).unwrap_err(), DecodeError::MissingField);
}

#[test]
fn decode_errors_have_short_labels() {
    assert_eq!(DecodeError::Malformed(Fault::Syntax).label(), "json_error_syntax");
    assert_eq!(DecodeError::Malformed(Fault::Eof).label(), "json_error_eof");
    assert_eq!(DecodeError::Malformed(Fault::Data).label(), "json_error_data");
    assert_eq!(DecodeError::Malformed(Fault::Io).label(), "json_error_io");
    assert_eq!(DecodeError::MissingField.label(), "json_error_missing_field");
    assert_eq!(DecodeError::InvalidField.label(), "json_error_invalid_field");
}

fn ran(exit_ok: bool, stdout: &str, stderr: &str) -> Ending {
    Ending::Ended(RawOutput { exit_ok, stdout: stdout.as_bytes().to_vec(), stderr: stderr.as_bytes().to_vec() })
}

#[test]
fn a_test_that_printed_its_report_succeeds() {
    let report = speedtest(ran(true, REPORT, "")).unwrap();
    assert_eq!(report.server.name, "Odido");
}

#[test]
fn a_test_that_failed_has_the_reason() {
    let failure = speedtest(ran(false, REPORT, "")).unwrap_err();
    assert_eq!(failure.label(), "nonzero_exit");
    let failure = speedtest(ran(false, "", "speedtest: connection timed out")).unwrap_err();
    assert_eq!(failure.label(), "timeout");
    let failure = speedtest(Ending::Overdue).unwrap_err();
    assert_eq!(failure.label(), "timeout");
    let failure = speedtest(Ending::NotRun("entity not found".to_string())).unwrap_err();
    assert_eq!(failure.label(), "io_error_entity_not_found");
    let failure = speedtest(ran(true, "Usage: speedtest", "")).unwrap_err();
    assert_eq!(failure.label(), "json_error_syntax");
    let failure = speedtest(ran(true, "{}", "")).unwrap_err();
    assert_eq!(failure.label(), "json_error_missing_field");
}

fn written(sample: &Sample) -> (Instrument, Vec<&str>, Reading) {
    (sample.instrument, sample.labels.iter().map(String::as_str).collect(), sample.value)
}

#[test]
fn a_report_is_recorded_as_seven_gauges_and_twelve_observations() {
    let report = decode(EXACT).unwrap();
    let samples = record(&Ok(report.clone()));
    let got: Vec<_> = samples.iter().map(written).collect();
    let loss = Reading::Share(report.packet_loss);
    let want = vec![
        (Instrument::Speed, vec!["download"], Reading::Count(1000)),
        (Instrument::Speed, vec!["upload"], Reading::Count(u64::MAX)),
        (Instrument::SpeedtestBytes, vec!["download"], Reading::Count(2000)),
        (Instrument::SpeedtestBytes, vec!["upload"], Reading::Count(0)),
        (Instrument::SpeedtestElapsed, vec!["download"], Reading::Seconds(report.download.elapsed)),
        (Instrument::SpeedtestElapsed, vec!["upload"], Reading::Seconds(report.upload.elapsed)),
        (Instrument::SpeedtestPacketLoss, vec![], loss),
        (Instrument::SpeedtestLatency, vec!["idle", "latency"], Reading::Seconds(report.ping.latency)),
        (Instrument::SpeedtestLatency, vec!["idle", "low"], Reading::Seconds(report.ping.low)),
        (Instrument::SpeedtestLatency, vec!["idle", "high"], Reading::Seconds(report.ping.high)),
        (Instrument::SpeedtestLatency, vec!["idle", "jitter"], Reading::Seconds(report.ping.jitter)),
        (Instrument::SpeedtestLatency, vec!["download", "latency"], Reading::Seconds(report.download.latency.mean)),
        (Instrument::SpeedtestLatency, vec!["download", "low"], Reading::Seconds(report.download.latency.low)),
        (Instrument::SpeedtestLatency, vec!["download", "high"], Reading::Seconds(report.download.latency.high)),
        (Instrument::SpeedtestLatency, vec!["download", "jitter"], Reading::Seconds(report.download.latency.jitter)),
        (Instrument::SpeedtestLatency, vec!["upload", "latency"], Reading::Seconds(report.upload.latency.mean)),
        (Instrument::SpeedtestLatency, vec!["upload", "low"], Reading::Seconds(report.upload.latency.low)),
        (Instrument::SpeedtestLatency, vec!["upload", "high"], Reading::Seconds(report.upload.latency.high)),
        (Instrument::SpeedtestLatency, vec!["upload", "jitter"], Reading::Seconds(report.upload.latency.jitter)),
    ];
    assert_eq!(got, want);
    for sample in &samples {
        assert_eq!(sample.labels.len(), sample.instrument.label_keys().len());
    }
}

#[test]
fn a_failed_test_is_recorded_as_one_failure() {
    let samples = record(&Err(TestFailure::Decode(DecodeError::MissingField)));
    let got: Vec<_> = samples.iter().map(written).collect();
    assert_eq!(got, vec![(Instrument::SpeedtestFails, vec!["json_error_missing_field"], Reading::Increment)]);
}
