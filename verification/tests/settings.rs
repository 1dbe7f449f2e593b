use netprobe::config::{parse_port, split_targets, Config, ConfigError, Settings};
use netprobe::decimal::{read_millis, render};
use netprobe::server::{handle_connection, headers, serve, Duty, Exporter, Incident};
use netprobe::time::TimeSpan;

fn unset() -> Settings {
    Settings { port: None, targets: None, delay: None, timeout: None, speedtest_interval: None, speedtest_timeout: None }
}

#[test]
fn unset_settings_take_their_defaults() {
    let config = Config::load(unset()).ok().unwrap();
    assert_eq!(config.port, 9090);
    assert_eq!(config.targets, vec!["8.8.8.8"]);
    assert_eq!(config.delay, TimeSpan::from_secs(5));
    assert_eq!(config.timeout, TimeSpan::from_secs(5));
    assert_eq!(config.speedtest_interval, TimeSpan::from_secs(300));
    assert_eq!(config.speedtest_timeout, TimeSpan::from_secs(60));
}

#[test]
fn given_settings_are_kept() {
    let settings = Settings {
        port: Some("8080".to_string()),
        targets: Some("1.1.1.1,example.com".to_string()),
        delay: Some(TimeSpan::from_millis(2_500)),
        timeout: Some(TimeSpan::from_secs(1)),
        speedtest_interval: Some(TimeSpan::from_secs(3_600)),
        speedtest_timeout: Some(TimeSpan::from_secs(90)),
    };
    let config = Config::load(settings).ok().unwrap();
    assert_eq!(config.port, 8080);
    assert_eq!(config.targets, vec!["1.1.1.1", "example.com"]);
    assert_eq!(config.delay, TimeSpan::from_millis(2_500));
    assert_eq!(config.timeout, TimeSpan::from_secs(1));
    assert_eq!(config.speedtest_interval, TimeSpan::from_secs(3_600));
    assert_eq!(config.speedtest_timeout, TimeSpan::from_secs(90));
}

#[test]
fn a_port_that_is_none_is_refused() {
    for text in ["", "http", "65536", "-1", " 80", "80 ", "8_0", "+", "0x50", "80.0"] {
        let settings = Settings { port: Some(text.to_string()), ..unset() };
        assert_eq!(Config::load(settings).err(), Some(ConfigError::InvalidPort), "{text:?}");
    }
}

#[test]
fn ports_are_read_as_the_standard_library_reads_them() {
    let texts = [
        "0", "1", "80", "9090", "65535", "65536", "99999999999999999999", "+443", "++1", "+", "",
        "007", "0000000000000000000000000000000065535", "-0", "1e3", "12a", "\u{661}\u{662}", "８０",
    ];
    for text in texts {
        assert_eq!(parse_port(text), text.parse::<u16>().ok(), "{text:?}");
    }
}

#[test]
fn targets_are_split_at_every_comma() {
    assert_eq!(split_targets("a,b,c"), vec!["a", "b", "c"]);
    assert_eq!(split_targets("8.8.8.8"), vec!["8.8.8.8"]);
    assert_eq!(split_targets(""), vec![""]);
    assert_eq!(split_targets(","), vec!["", ""]);
    assert_eq!(split_targets("a,,b,"), vec!["a", "", "b", ""]);
    assert_eq!(split_targets(" a , b "), vec![" a ", " b "]);
    assert_eq!(split_targets("bücher.example,例え.jp"), vec!["bücher.example", "例え.jp"]);
}

#[test]
fn targets_are_split_as_the_standard_library_splits_them() {
    for text in ["", ",", ",,", "a", "a,b", ",a,,b,", "ä,ö,ü", "one, two"] {
        let expected: Vec<String> = text.split(',').map(String::from).collect();
        assert_eq!(split_targets(text), expected, "{text:?}");
        assert_eq!(split_targets(text).join(","), text);
    }
}

#[test]
fn the_head_names_the_status_and_the_type_of_the_content() {
    assert_eq!(
        headers("text/plain; version=0.0.4"),
        "HTTP/1.1 200 OK\r\nContent-Type: text/plain; version=0.0.4\r\n\r\n"
    );
    let joined = ["HTTP/1.1 200 OK", "Content-Type: text/plain", "\r\n"].join("\r\n");
    assert_eq!(headers("text/plain"), joined);
}

#[test]
fn the_response_is_the_head_and_then_the_snapshot() {
    let snapshot = b"# HELP speed_bps speed in bytes per second\nspeed_bps{direction=\"download\"} 42\n";
    let response = handle_connection("text/plain", snapshot);
    let head = b"HTTP/1.1 200 OK\r\nContent-Type: text/plain\r\n\r\n";
    assert_eq!(&response[..head.len()], head);
    assert_eq!(&response[head.len()..], snapshot);
    assert_eq!(handle_connection("", b""), b"HTTP/1.1 200 OK\r\nContent-Type: \r\n\r\n");
}

#[test]
fn a_span_is_made_of_whole_seconds_and_nanoseconds() {
    assert_eq!(TimeSpan::new(1, 999_999_999).map(|t| (t.as_secs(), t.subsec_nanos())), Some((1, 999_999_999)));
    assert_eq!(TimeSpan::new(1, 1_000_000_000), None);
    assert_eq!(TimeSpan::from_secs(7).as_millis(), 7_000);
    assert_eq!(TimeSpan::from_millis(1_234).as_secs(), 1);
    assert_eq!(TimeSpan::from_millis(1_234).subsec_nanos(), 234_000_000);
    assert_eq!(TimeSpan::from_millis(u64::MAX).as_millis(), u64::MAX as u128);
    assert_eq!(TimeSpan::new(3, 999_999).unwrap().as_millis(), 3_000);
    assert_eq!(TimeSpan::new(3, 1_000_000).unwrap().as_millis(), 3_001);
}

#[test]
fn a_span_from_nanoseconds_fits_or_does_not() {
    let most: u128 = 18_446_744_073_709_551_615_999_999_999;
    assert_eq!(TimeSpan::from_nanos(0), Some(TimeSpan::from_secs(0)));
    assert_eq!(TimeSpan::from_nanos(1_500_000_000), TimeSpan::new(1, 500_000_000));
    assert_eq!(TimeSpan::from_nanos(most), TimeSpan::new(u64::MAX, 999_999_999));
    assert_eq!(TimeSpan::from_nanos(most + 1), None);
    assert_eq!(TimeSpan::from_nanos(u128::MAX), None);
}

#[test]
fn numbers_are_written_in_decimal() {
    assert_eq!(render(0), "0");
    assert_eq!(render(9), "9");
    assert_eq!(render(10), "10");
    assert_eq!(render(1_234_567_890), "1234567890");
    assert_eq!(render(u128::MAX), u128::MAX.to_string());
}

#[test]
fn milliseconds_are_read_from_a_slice_of_the_text() {
    let text = b"avg=12.5ms";
    assert_eq!(read_millis(text, 4, 8), TimeSpan::new(0, 12_500_000));
    assert_eq!(read_millis(text, 4, 6), TimeSpan::new(0, 12_000_000));
    assert_eq!(read_millis(text, 4, 7), TimeSpan::new(0, 12_000_000));
    assert_eq!(read_millis(text, 6, 8), TimeSpan::new(0, 500_000));
    assert_eq!(read_millis(text, 6, 7), None);
    assert_eq!(read_millis(text, 4, 4), None);
    assert_eq!(read_millis(text, 3, 8), None);
    assert_eq!(read_millis(text, 4, 9), None);
    assert_eq!(read_millis(b"1.2.3", 0, 5), None);
}

#[test]
fn the_exporter_listens_once_its_port_is_bound() {
    assert_eq!(serve(Exporter::Starting, Incident::Bound), (Exporter::Listening, Duty::Accept));
    assert_eq!(serve(Exporter::Starting, Incident::BindFailed), (Exporter::Failed, Duty::Abort));
    assert_eq!(serve(Exporter::Starting, Incident::Shutdown), (Exporter::Stopped, Duty::Stop));
    assert_eq!(serve(Exporter::Starting, Incident::Accepted), (Exporter::Starting, Duty::Bind));
    assert_eq!(serve(Exporter::Starting, Incident::AcceptFailed), (Exporter::Starting, Duty::Bind));
}

#[test]
fn the_exporter_serves_every_connection_and_passes_over_failures() {
    assert_eq!(serve(Exporter::Listening, Incident::Accepted), (Exporter::Listening, Duty::Serve));
    assert_eq!(serve(Exporter::Listening, Incident::AcceptFailed), (Exporter::Listening, Duty::Accept));
    assert_eq!(serve(Exporter::Listening, Incident::Bound), (Exporter::Listening, Duty::Accept));
    assert_eq!(serve(Exporter::Listening, Incident::BindFailed), (Exporter::Listening, Duty::Accept));
    assert_eq!(serve(Exporter::Listening, Incident::Shutdown), (Exporter::Stopped, Duty::Stop));
}

#[test]
fn an_exporter_that_has_ended_stays_as_it_is() {
    for incident in [Incident::Bound, Incident::BindFailed, Incident::Accepted, Incident::AcceptFailed, Incident::Shutdown] {
        assert_eq!(serve(Exporter::Stopped, incident), (Exporter::Stopped, Duty::Stop));
        assert_eq!(serve(Exporter::Failed, incident), (Exporter::Failed, Duty::Abort));
    }
}
