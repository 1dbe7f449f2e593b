//! The settings of the daemon, from the values that the environment gave.
//!
//! Reading the environment is left to the caller, and so is reading the four
//! spans of time, which are written as floating-point seconds. What is decided
//! here is what a setting is when the environment is silent, what a port is,
//! and where one target ends and the next begins.

use crate::ascii::{all_in, skip_run, ByteClass, PLUS};
use crate::decimal::{bounded_value, digits_value};
use crate::time::TimeSpan;
use vstd::prelude::*;
use vstd::string::{StrSliceExecFns, StringExecFns, StringSliceAdditionalSpecFns};
use vstd::utf8::encode_utf8;

verus! {

/// The port that is listened on when `PORT` is not set.
pub const DEFAULT_PORT: u16 = 9090;

/// The targets that are probed when `TARGETS` is not set.
pub const DEFAULT_TARGETS: &'static str = "8.8.8.8";

/// The seconds between two reachability cycles when `DELAY` is not set.
pub const DEFAULT_DELAY_SECS: u64 = 5;

/// The seconds that one ping may take when `TIMEOUT` is not set.
pub const DEFAULT_TIMEOUT_SECS: u64 = 5;

/// The seconds between two speed tests when `SPEEDTEST_INTERVAL` is not set.
pub const DEFAULT_SPEEDTEST_INTERVAL_SECS: u64 = 300;

/// The seconds that one speed test may take when `SPEEDTEST_TIMEOUT` is not
/// set.
pub const DEFAULT_SPEEDTEST_TIMEOUT_SECS: u64 = 60;

/// The comma that separates two targets.
pub const SEPARATOR: char = ',';

/// What the environment gave, with `None` for what it did not set.
pub struct Settings {
    /// `PORT`, as written.
    pub port: Option<String>,
    /// `TARGETS`, as written.
    pub targets: Option<String>,
    /// `DELAY`.
    pub delay: Option<TimeSpan>,
    /// `TIMEOUT`.
    pub timeout: Option<TimeSpan>,
    /// `SPEEDTEST_INTERVAL`.
    pub speedtest_interval: Option<TimeSpan>,
    /// `SPEEDTEST_TIMEOUT`.
    pub speedtest_timeout: Option<TimeSpan>,
}

/// The settings of the daemon.
pub struct Config {
    /// The port that the exporter listens on.
    pub port: u16,
    /// The hosts that are probed, in the order in which they were given.
    pub targets: Vec<String>,
    /// The time between two reachability cycles.
    pub delay: TimeSpan,
    /// The time that one ping may take.
    pub timeout: TimeSpan,
    /// The time between two speed tests.
    pub speedtest_interval: TimeSpan,
    /// The time that one speed test may take.
    pub speedtest_timeout: TimeSpan,
}

/// Why the settings are refused.
#[derive(Clone, Copy, Debug, PartialEq, Eq, Structural)]
pub enum ConfigError {
    /// `PORT` is not a port.
    InvalidPort,
}

/// The port that a text states: digits, with or without a plus sign before
/// them, that make a number up to `u16::MAX`. Nothing else is a port, not the
/// empty text and not a number with a blank beside it.
pub open spec fn port_reading(text: Seq<u8>) -> Option<u16> {
    let digits = if text.len() > 0 && text[0] == PLUS {
        text.skip(1)
    } else {
        text
    };
    if digits.len() > 0 && all_in(digits, 0, digits.len() as int, ByteClass::Digit)
        && digits_value(digits) <= u16::MAX {
        Some(digits_value(digits) as u16)
    } else {
        None
    }
}

/// The port that `text` states, if it states one.
pub fn parse_port(text: &str) -> (port: Option<u16>)
    ensures
        port == port_reading(text.spec_bytes()),
{
    let bytes = text.as_bytes();
    let first: usize = if bytes.len() > 0 && bytes[0] == PLUS {
        1
    } else {
        0
    };
    let ghost digits = if first == 1 {
        bytes@.skip(1)
    } else {
        bytes@
    };
    assert(digits =~= bytes@.subrange(first as int, bytes.len() as int));
    let end = skip_run(bytes, first, ByteClass::Digit);
    proof {
        crate::ascii::lemma_run_end_bounds(bytes@, first as int, ByteClass::Digit);
    }
    if end == first || end < bytes.len() {
        assert(!(digits.len() > 0 && all_in(digits, 0, digits.len() as int, ByteClass::Digit))) by {
            if end < bytes.len() && digits.len() > 0 && all_in(
                digits,
                0,
                digits.len() as int,
                ByteClass::Digit,
            ) {
                assert(digits[end - first] == bytes@[end as int]);
            }
        }
        return None;
    }
    assert(all_in(digits, 0, digits.len() as int, ByteClass::Digit)) by {
        assert forall|k: int| 0 <= k < digits.len() implies ByteClass::Digit.holds(
            #[trigger] digits[k],
        ) by {
            assert(digits[k] == bytes@[first + k]);
        }
    }
    assert(bytes@.subrange(first as int, end as int) =~= digits);
    match bounded_value(bytes, first, end, 65_535) {
        Some(value) => Some(value as u16),
        None => None,
    }
}

/// The pieces of `text` between its separators. A text without a separator is
/// one piece, the empty text too; two separators side by side have an empty
/// piece between them.
pub open spec fn split(text: Seq<char>, separator: char) -> Seq<Seq<char>>
    decreases text.len(),
{
    if text.len() == 0 {
        seq![Seq::empty()]
    } else {
        let pieces = split(text.drop_last(), separator);
        if text.last() == separator {
            pieces.push(Seq::empty())
        } else {
            pieces.update(pieces.len() - 1, pieces.last().push(text.last()))
        }
    }
}

/// The pieces with a separator between each two of them.
pub open spec fn join(pieces: Seq<Seq<char>>, separator: char) -> Seq<char>
    decreases pieces.len(),
{
    if pieces.len() == 0 {
        Seq::empty()
    } else if pieces.len() == 1 {
        pieces[0]
    } else {
        join(pieces.drop_last(), separator) + seq![separator] + pieces.last()
    }
}

/// Splitting loses nothing and leaves no separator behind: there is always at
/// least one piece, no piece holds a separator, and the pieces joined by
/// separators are the text again.
pub proof fn law_split_then_join(text: Seq<char>, separator: char)
    ensures
        split(text, separator).len() >= 1,
        forall|k: int|
            0 <= k < split(text, separator).len() ==> !(#[trigger] split(text, separator)[k]).contains(
                separator,
            ),
        join(split(text, separator), separator) == text,
    decreases text.len(),
{
    if text.len() == 0 {
        assert(join(split(text, separator), separator) =~= text);
    } else {
        let before = text.drop_last();
        let pieces = split(before, separator);
        law_split_then_join(before, separator);
        let after = split(text, separator);
        assert(text =~= before.push(text.last()));
        if text.last() == separator {
            assert(after.drop_last() =~= pieces);
            assert(after.last() =~= Seq::<char>::empty());
            assert(join(after, separator) == join(pieces, separator) + seq![separator]
                + Seq::<char>::empty());
            assert(join(after, separator) =~= text);
        } else {
            let grown = pieces.last().push(text.last());
            assert(!grown.contains(separator)) by {
                if grown.contains(separator) {
                    let at = choose|at: int| 0 <= at < grown.len() && grown[at] == separator;
                    assert(pieces.last()[at] == separator);
                }
            }
            assert(after.last() == grown);
            if pieces.len() == 1 {
                assert(join(after, separator) =~= text);
            } else {
                assert(after.drop_last() =~= pieces.drop_last());
                assert(join(after, separator) == join(pieces.drop_last(), separator)
                    + seq![separator] + grown);
                assert(join(pieces, separator) == join(pieces.drop_last(), separator)
                    + seq![separator] + pieces.last());
                assert(join(after, separator) =~= text);
            }
        }
    }
}

/// The targets that `text` lists, separated by commas.
pub fn split_targets(text: &str) -> (targets: Vec<String>)
    ensures
        targets.deep_view() == split(text@, SEPARATOR),
{
    let n = text.unicode_len();
    let mut targets: Vec<String> = Vec::new();
    let mut from: usize = 0;
    let mut i: usize = 0;
    assert(text@.take(0) =~= Seq::<char>::empty());
    assert(split(text@.take(0), SEPARATOR) =~= targets.deep_view().push(text@.subrange(0, 0)));
    while i < n
        invariant
            from <= i <= n,
            n == text@.len(),
            split(text@.take(i as int), SEPARATOR) == targets.deep_view().push(
                text@.subrange(from as int, i as int),
            ),
        decreases n - i,
    {
        let ghost done = targets.deep_view();
        let ghost before = text@.take(i as int);
        assert(text@.take(i + 1).drop_last() =~= before);
        if text.get_char(i) == SEPARATOR {
            targets.push(String::from_str(text.substring_char(from, i)));
            assert(targets.deep_view() =~= done.push(text@.subrange(from as int, i as int)));
            from = i + 1;
            assert(text@.subrange(from as int, from as int) =~= Seq::<char>::empty());
        } else {
            assert(text@.subrange(from as int, i + 1) =~= text@.subrange(from as int, i as int).push(
                text@[i as int],
            ));
            assert(done.push(text@.subrange(from as int, i as int)).update(
                done.len() as int,
                text@.subrange(from as int, i + 1),
            ) =~= done.push(text@.subrange(from as int, i + 1)));
        }
        i += 1;
    }
    let ghost done = targets.deep_view();
    targets.push(String::from_str(text.substring_char(from, n)));
    assert(targets.deep_view() =~= done.push(text@.subrange(from as int, n as int)));
    assert(text@.take(n as int) =~= text@);
    targets
}

/// The span that was given, or else that of `default_secs` seconds.
fn span_or(given: Option<TimeSpan>, default_secs: u64) -> (span: TimeSpan)
    ensures
        span.total_nanos() == match given {
            Some(t) => t.total_nanos(),
            None => default_secs as nat * 1_000_000_000,
        },
{
    match given {
        Some(span) => span,
        None => TimeSpan::from_secs(default_secs),
    }
}

impl Config {
    /// `config` holds what `settings` gave, and for what they did not give
    /// port 9090, the target `8.8.8.8`, a delay and a timeout of five seconds,
    /// five minutes between speed tests and one minute for each.
    pub open spec fn loaded_from(config: Config, settings: Settings) -> bool {
        &&& Some(config.port) == match settings.port {
            Some(text) => port_reading(encode_utf8(text@)),
            None => Some(DEFAULT_PORT),
        }
        &&& config.targets.deep_view() == split(
            match settings.targets {
                Some(text) => text@,
                None => DEFAULT_TARGETS@,
            },
            SEPARATOR,
        )
        &&& config.delay.total_nanos() == match settings.delay {
            Some(span) => span.total_nanos(),
            None => DEFAULT_DELAY_SECS as nat * 1_000_000_000,
        }
        &&& config.timeout.total_nanos() == match settings.timeout {
            Some(span) => span.total_nanos(),
            None => DEFAULT_TIMEOUT_SECS as nat * 1_000_000_000,
        }
        &&& config.speedtest_interval.total_nanos() == match settings.speedtest_interval {
            Some(span) => span.total_nanos(),
            None => DEFAULT_SPEEDTEST_INTERVAL_SECS as nat * 1_000_000_000,
        }
        &&& config.speedtest_timeout.total_nanos() == match settings.speedtest_timeout {
            Some(span) => span.total_nanos(),
            None => DEFAULT_SPEEDTEST_TIMEOUT_SECS as nat * 1_000_000_000,
        }
    }

    /// The settings of the daemon, from what the environment gave. They are
    /// refused exactly if `PORT` is set and is no port.
    pub fn load(settings: Settings) -> (result: Result<Config, ConfigError>)
        ensures
            match result {
                Ok(config) => Config::loaded_from(config, settings),
                Err(error) => {
                    &&& error == ConfigError::InvalidPort
                    &&& settings.port matches Some(text)
                    &&& port_reading(encode_utf8(text@)) is None
                },
            },
    {
        let port: u16 = match &settings.port {
            Some(text) => match parse_port(text.as_str()) {
                Some(port) => port,
                None => {
                    return Err(ConfigError::InvalidPort);
                },
            },
            None => DEFAULT_PORT,
        };
        let targets = match &settings.targets {
            Some(text) => split_targets(text.as_str()),
            None => split_targets(DEFAULT_TARGETS),
        };
        Ok(
            Config {
                port,
                targets,
                delay: span_or(settings.delay, DEFAULT_DELAY_SECS),
                timeout: span_or(settings.timeout, DEFAULT_TIMEOUT_SECS),
                speedtest_interval: span_or(
                    settings.speedtest_interval,
                    DEFAULT_SPEEDTEST_INTERVAL_SECS,
                ),
                speedtest_timeout: span_or(
                    settings.speedtest_timeout,
                    DEFAULT_SPEEDTEST_TIMEOUT_SECS,
                ),
            },
        )
    }
}

} // verus!
