//! The reachability probe: how `ping` is invoked, how its output is read, and
//! the cycle that probes every target in turn.
//!
//! `ping` prints its round-trip time in one of two shapes. Every reply line
//! carries `time=12.3 ms` (or `time<1 ms`), and the closing summary carries
//! `rtt min/avg/max/mdev = 11.2/12.3/13.4/0.9 ms` (`round-trip ...` on BSD and
//! macOS). The reply line is preferred; the summary's second field, the
//! average, is the fallback.

use crate::ascii::{all_in, ascii, ascii_bytes, has_word_at, is_space, lemma_run_end_bounds,
    lemma_run_end_is, lower, run_end, skip_run, word_at, ByteClass, DOT, EQUALS, HYPHEN, LESS,
    SLASH, SPACE};
use crate::cycle::{next, next_step, Signal, Step};
use crate::decimal::{decimal_text, digits_after, digits_value, fraction_millionths,
    lemma_decimal_parts, millis_reading, read_millis, render, span_nanos};
use crate::metrics::{models, Instrument, Reading, Sample, SampleModel};
use crate::probe::{settle, settled, Ending, FailureKind, ProbeOutcome, RawOutput};
use crate::time::{max_total_nanos, TimeSpan};
use vstd::prelude::*;
use vstd::string::{StringExecFns, StringSliceAdditionalSpecFns};

verus! {

/// `time`
pub open spec fn word_time() -> Seq<u8> {
    ascii("time"@)
}

/// `ms`
pub open spec fn word_ms() -> Seq<u8> {
    ascii("ms"@)
}

/// `rtt`
pub open spec fn word_rtt() -> Seq<u8> {
    ascii("rtt"@)
}

/// `round`
pub open spec fn word_round() -> Seq<u8> {
    ascii("round"@)
}

/// `trip`
pub open spec fn word_trip() -> Seq<u8> {
    ascii("trip"@)
}

/// Where the number that starts at `from` ends: a run of digits, then, if a dot
/// follows, the dot and the digits after it.
pub open spec fn number_end(text: Seq<u8>, from: int) -> int {
    let d = run_end(text, from, ByteClass::Digit);
    if d < text.len() && text[d] == DOT {
        run_end(text, d + 1, ByteClass::Digit)
    } else {
        d
    }
}

/// The reply-line pattern at position `i`: `time`, then `=` or `<`, a number
/// with at least one digit before its point, optional whitespace, `ms`. Letters
/// match in either case. The result is where the number starts and ends.
pub open spec fn time_match_at(text: Seq<u8>, i: int) -> Option<(int, int)> {
    let from = i + 5;
    let to = number_end(text, from);
    let unit = run_end(text, to, ByteClass::Space);
    if {
        &&& word_at(text, i, word_time())
        &&& from <= text.len()
        &&& (text[i + 4] == EQUALS || text[i + 4] == LESS)
        &&& run_end(text, from, ByteClass::Digit) > from
        &&& word_at(text, unit, word_ms())
    } {
        Some((from, to))
    } else {
        None
    }
}

/// Where the summary's keyword ends if it stands at `i`: `rtt`, `roundtrip`,
/// `round-trip` or `round trip`, in either case.
pub open spec fn keyword_end(text: Seq<u8>, i: int) -> Option<int> {
    if word_at(text, i, word_rtt()) {
        Some(i + 3)
    } else if word_at(text, i, word_round()) {
        let j = i + 5;
        let k = if j < text.len() && (text[j] == HYPHEN || text[j] == SPACE) {
            j + 1
        } else {
            j
        };
        if word_at(text, k, word_trip()) {
            Some(k + 4)
        } else {
            None
        }
    } else {
        None
    }
}

/// Where a list of fields ends when its fields so far end at `p`: each further
/// field is a slash followed by at least one digit or dot.
pub open spec fn fields_end(text: Seq<u8>, p: int) -> int
    decreases text.len() - p,
    when 0 <= p
    via fields_end_decreases
{
    if p < text.len() && text[p] == SLASH && run_end(text, p + 1, ByteClass::Numeric) > p + 1 {
        fields_end(text, run_end(text, p + 1, ByteClass::Numeric))
    } else {
        p
    }
}

#[via_fn]
proof fn fields_end_decreases(text: Seq<u8>, p: int) {
    if p < text.len() && text[p] == SLASH && run_end(text, p + 1, ByteClass::Numeric) > p + 1 {
        lemma_run_end_bounds(text, p + 1, ByteClass::Numeric);
    }
}

/// The summary pattern at position `i`: the keyword, whitespace, a label of at
/// least one byte that holds no `=`, then `=`, optional whitespace, two or more
/// fields of digits and dots separated by slashes, optional whitespace, `ms`.
/// The result is where the second field starts and ends.
pub open spec fn rtt_match_at(text: Seq<u8>, i: int) -> Option<(int, int)> {
    match keyword_end(text, i) {
        None => None,
        Some(k) => {
            let eq = run_end(text, k, ByteClass::NotEquals);
            let first = run_end(text, eq + 1, ByteClass::Space);
            let first_end = run_end(text, first, ByteClass::Numeric);
            let second = first_end + 1;
            let second_end = run_end(text, second, ByteClass::Numeric);
            let unit = run_end(text, fields_end(text, second_end), ByteClass::Space);
            if {
                &&& k < text.len()
                &&& is_space(text[k])
                &&& k + 2 <= eq < text.len()
                &&& first < first_end < text.len()
                &&& text[first_end] == SLASH
                &&& second < second_end
                &&& word_at(text, unit, word_ms())
            } {
                Some((second, second_end))
            } else {
                None
            }
        },
    }
}

/// The two patterns.
#[derive(Clone, Copy, Debug, PartialEq, Eq, Structural)]
pub enum Pattern {
    /// `time=12.3 ms` on a reply line.
    ReplyTime,
    /// `rtt min/avg/max/mdev = a/b/c/d ms` in the summary.
    Summary,
}

impl Pattern {
    /// The pattern at position `i` of `text`: where the number it yields starts
    /// and ends, or `None` if the pattern does not match there.
    pub open spec fn match_at(self, text: Seq<u8>, i: int) -> Option<(int, int)> {
        match self {
            Pattern::ReplyTime => time_match_at(text, i),
            Pattern::Summary => rtt_match_at(text, i),
        }
    }

    /// The match at the least position that is not below `from`.
    pub open spec fn first_match(self, text: Seq<u8>, from: int) -> Option<(int, int)>
        decreases text.len() - from,
    {
        if from >= text.len() {
            None
        } else if self.match_at(text, from) is Some {
            self.match_at(text, from)
        } else {
            self.first_match(text, from + 1)
        }
    }

    /// The latency in nanoseconds that the pattern finds in `text`: the number
    /// of its leftmost match, read as milliseconds. There is none when the
    /// pattern matches nowhere, and none when the number of the leftmost match
    /// cannot be read.
    pub open spec fn reading(self, text: Seq<u8>) -> Option<nat> {
        match self.first_match(text, 0) {
            Some((from, to)) => millis_reading(text.subrange(from, to)),
            None => None,
        }
    }
}

/// The latency in nanoseconds that `ping` reported: what the reply line says,
/// and only without it what the summary says.
pub open spec fn latency_reading(text: Seq<u8>) -> Option<nat> {
    match Pattern::ReplyTime.reading(text) {
        Some(nanos) => Some(nanos),
        None => Pattern::Summary.reading(text),
    }
}

/// Where the number of the reply-line pattern at `i` starts and ends.
fn reply_time_at(text: &[u8], i: usize) -> (r: Option<(usize, usize)>)
    requires
        i < text.len(),
    ensures
        match r {
            Some((from, to)) => time_match_at(text@, i as int) == Some((from as int, to as int))
                && from <= to <= text.len(),
            None => time_match_at(text@, i as int) is None,
        },
{
    proof {
        reveal_strlit("time");
        reveal_strlit("ms");
    }
    if !has_word_at(text, i, ascii_bytes("time")) {
        return None;
    }
    assert(i + 4 <= text.len());
    if text.len() - i < 5 {
        return None;
    }
    let mark: u8 = text[i + 4];
    if mark != EQUALS && mark != LESS {
        return None;
    }
    let from: usize = i + 5;
    let digits: usize = skip_run(text, from, ByteClass::Digit);
    if digits == from {
        return None;
    }
    let to: usize = if digits < text.len() && text[digits] == DOT {
        skip_run(text, digits + 1, ByteClass::Digit)
    } else {
        digits
    };
    let unit: usize = skip_run(text, to, ByteClass::Space);
    if has_word_at(text, unit, ascii_bytes("ms")) {
        Some((from, to))
    } else {
        None
    }
}

/// Where the summary's keyword ends if it stands at `i`.
fn summary_keyword_at(text: &[u8], i: usize) -> (r: Option<usize>)
    requires
        i < text.len(),
    ensures
        match r {
            Some(k) => keyword_end(text@, i as int) == Some(k as int) && k <= text.len(),
            None => keyword_end(text@, i as int) is None,
        },
{
    proof {
        reveal_strlit("rtt");
        reveal_strlit("round");
        reveal_strlit("trip");
    }
    if has_word_at(text, i, ascii_bytes("rtt")) {
        return Some(i + 3);
    }
    if !has_word_at(text, i, ascii_bytes("round")) {
        return None;
    }
    let j: usize = i + 5;
    let k: usize = if j < text.len() && (text[j] == HYPHEN || text[j] == SPACE) {
        j + 1
    } else {
        j
    };
    if has_word_at(text, k, ascii_bytes("trip")) {
        Some(k + 4)
    } else {
        None
    }
}

/// Where a list of fields ends when its fields so far end at `p`.
fn skip_fields(text: &[u8], p: usize) -> (end: usize)
    requires
        p <= text.len(),
    ensures
        end == fields_end(text@, p as int),
        p <= end <= text.len(),
{
    let mut at: usize = p;
    loop
        invariant
            p <= at <= text.len(),
            fields_end(text@, p as int) == fields_end(text@, at as int),
        decreases text.len() - at,
    {
        if at >= text.len() || text[at] != SLASH {
            return at;
        }
        let next: usize = skip_run(text, at + 1, ByteClass::Numeric);
        if next == at + 1 {
            return at;
        }
        at = next;
    }
}

/// Where the second field of the summary pattern at `i` starts and ends.
fn summary_at(text: &[u8], i: usize) -> (r: Option<(usize, usize)>)
    requires
        i < text.len(),
    ensures
        match r {
            Some((from, to)) => rtt_match_at(text@, i as int) == Some((from as int, to as int))
                && from <= to <= text.len(),
            None => rtt_match_at(text@, i as int) is None,
        },
{
    proof {
        reveal_strlit("ms");
    }
    let k: usize = match summary_keyword_at(text, i) {
        Some(k) => k,
        None => {
            return None;
        },
    };
    if k >= text.len() || !ByteClass::Space.contains(text[k]) {
        return None;
    }
    let eq: usize = skip_run(text, k, ByteClass::NotEquals);
    if eq >= text.len() || eq - k < 2 {
        return None;
    }
    let first: usize = skip_run(text, eq + 1, ByteClass::Space);
    let first_end: usize = skip_run(text, first, ByteClass::Numeric);
    if first_end == first || first_end >= text.len() || text[first_end] != SLASH {
        return None;
    }
    let second: usize = first_end + 1;
    let second_end: usize = skip_run(text, second, ByteClass::Numeric);
    if second_end == second {
        return None;
    }
    let list_end: usize = skip_fields(text, second_end);
    let unit: usize = skip_run(text, list_end, ByteClass::Space);
    if has_word_at(text, unit, ascii_bytes("ms")) {
        Some((second, second_end))
    } else {
        None
    }
}

/// The number of the leftmost match of `pattern` in `text`.
fn find(text: &[u8], pattern: Pattern) -> (r: Option<(usize, usize)>)
    ensures
        match r {
            Some((from, to)) => pattern.first_match(text@, 0) == Some((from as int, to as int))
                && from <= to <= text.len(),
            None => pattern.first_match(text@, 0) is None,
        },
{
    let mut i: usize = 0;
    while i < text.len()
        invariant
            i <= text.len(),
            pattern.first_match(text@, 0) == pattern.first_match(text@, i as int),
        decreases text.len() - i,
    {
        let hit = match pattern {
            Pattern::ReplyTime => reply_time_at(text, i),
            Pattern::Summary => summary_at(text, i),
        };
        if hit.is_some() {
            return hit;
        }
        i += 1;
    }
    None
}

/// The latency that `pattern` finds in `text`.
pub fn read_pattern(text: &[u8], pattern: Pattern) -> (r: Option<TimeSpan>)
    ensures
        span_nanos(r) == pattern.reading(text@),
{
    match find(text, pattern) {
        Some((from, to)) => read_millis(text, from, to),
        None => None,
    }
}

/// The round-trip time of the first reply line in `s`, such as `time=12.3 ms`
/// or `time<1 ms`.
pub fn parse_time_ms_from_line(s: &str) -> (r: Option<TimeSpan>)
    ensures
        span_nanos(r) == Pattern::ReplyTime.reading(s.spec_bytes()),
{
    read_pattern(s.as_bytes(), Pattern::ReplyTime)
}

/// The average round-trip time of the first summary in `s`, such as
/// `rtt min/avg/max/mdev = 11.2/12.3/13.4/0.9 ms`.
pub fn parse_rtt_avg_ms(s: &str) -> (r: Option<TimeSpan>)
    ensures
        span_nanos(r) == Pattern::Summary.reading(s.spec_bytes()),
{
    read_pattern(s.as_bytes(), Pattern::Summary)
}

/// The round-trip time that the output of `ping` reports, if it reports one.
pub fn parse_latency(raw: &[u8]) -> (r: Option<TimeSpan>)
    ensures
        span_nanos(r) == latency_reading(raw@),
{
    match read_pattern(raw, Pattern::ReplyTime) {
        Some(span) => Some(span),
        None => read_pattern(raw, Pattern::Summary),
    }
}

/// The command that probes a target.
pub const COMMAND: &'static str = "ping";

/// The families of `ping` that differ in the unit of their `-W` flag.
#[derive(Clone, Copy, Debug, PartialEq, Eq, Structural)]
pub enum Platform {
    /// Linux and BusyBox: `-W` takes seconds.
    Linux,
    /// BSD and macOS: `-W` takes milliseconds.
    Bsd,
}

/// The number handed to `-W`: the timeout in the unit of the platform, rounded
/// down, and never less than one.
pub open spec fn timeout_argument(timeout: TimeSpan, platform: Platform) -> nat {
    let units = match platform {
        Platform::Linux => timeout.total_nanos() / 1_000_000_000,
        Platform::Bsd => timeout.total_nanos() / 1_000_000,
    };
    if units < 1 {
        1
    } else {
        units
    }
}

/// The arguments of one probe: `-c 1 -W <timeout> <target>`.
pub fn ping_args(target: &str, timeout: TimeSpan, platform: Platform) -> (args: [String; 5])
    ensures
        args@[0]@ == "-c"@,
        args@[1]@ == "1"@,
        args@[2]@ == "-W"@,
        args@[3]@ == decimal_text(timeout_argument(timeout, platform)),
        args@[4]@ == target@,
{
    let units: u128 = match platform {
        Platform::Linux => timeout.as_secs() as u128,
        Platform::Bsd => timeout.as_millis(),
    };
    let at_least_one: u128 = if units < 1 {
        1
    } else {
        units
    };
    [
        String::from_str("-c"),
        String::from_str("1"),
        String::from_str("-W"),
        render(at_least_one),
        String::from_str(target),
    ]
}

/// What a probe comes to, given what became of the command: the latency that
/// the command printed if it succeeded and printed one, a parse error if it
/// succeeded and printed none, and otherwise the failure of the command.
pub open spec fn probe_result(ending: Ending, outcome: ProbeOutcome) -> bool {
    match settled(ending) {
        Err(kind) => outcome == ProbeOutcome::Failure(kind),
        Ok(stdout) => match latency_reading(stdout) {
            Some(nanos) => outcome matches ProbeOutcome::Success(span) && span.total_nanos()
                == nanos,
            None => outcome == ProbeOutcome::Failure(FailureKind::ParseError),
        },
    }
}

/// The outcome of one probe, from what became of the `ping` command.
pub fn ping_target(ending: Ending) -> (outcome: ProbeOutcome)
    ensures
        probe_result(ending, outcome),
{
    match settle(ending) {
        Err(kind) => ProbeOutcome::Failure(kind),
        Ok(stdout) => match parse_latency(stdout.as_slice()) {
            Some(span) => ProbeOutcome::Success(span),
            None => ProbeOutcome::Failure(FailureKind::ParseError),
        },
    }
}

/// The one sample that the outcome of a probe of `target` is recorded as: an
/// observation of the latency, or one more failure of its kind.
pub open spec fn outcome_sample(target: Seq<char>, outcome: ProbeOutcome) -> SampleModel {
    match outcome {
        ProbeOutcome::Success(span) => SampleModel {
            instrument: Instrument::PingDelay,
            labels: seq![target],
            value: Reading::Seconds(span),
        },
        ProbeOutcome::Failure(kind) => SampleModel {
            instrument: Instrument::PingFails,
            labels: seq![target, kind.label_of()],
            value: Reading::Increment,
        },
    }
}

/// The sample that the outcome of a probe of `target` is recorded as.
pub fn record(target: &str, outcome: &ProbeOutcome) -> (sample: Sample)
    ensures
        sample@ == outcome_sample(target@, *outcome),
        sample@.well_formed(),
{
    match outcome {
        ProbeOutcome::Success(span) => Sample::labelled(
            Instrument::PingDelay,
            target,
            Reading::Seconds(*span),
        ),
        ProbeOutcome::Failure(kind) => {
            let label = kind.label();
            Sample::labelled_twice(Instrument::PingFails, target, label.as_str(), Reading::Increment)
        },
    }
}

/// What happened while the reachability loop did its step.
#[derive(Debug)]
pub enum Event {
    /// The probe ended with the given outcome.
    Probed(ProbeOutcome),
    /// The delay between two cycles has passed.
    WaitElapsed,
    /// Shutdown was requested, or whoever could request it is gone.
    Shutdown,
}

impl Event {
    /// The event without what it carries.
    pub open spec fn signal_of(self) -> Signal {
        match self {
            Event::Probed(_) => Signal::ProbeDone,
            Event::WaitElapsed => Signal::WaitElapsed,
            Event::Shutdown => Signal::Shutdown,
        }
    }
}

/// The samples to record when `event` answers `step`: one for the outcome of
/// a probe of one of the targets, and none in any other case.
pub open spec fn samples_due(targets: Seq<Seq<char>>, step: Step, event: Event) -> Seq<
    SampleModel,
> {
    match (step, event) {
        (Step::Probe(i), Event::Probed(outcome)) => if i < targets.len() {
            seq![outcome_sample(targets[i as int], outcome)]
        } else {
            Seq::empty()
        },
        _ => Seq::empty(),
    }
}

/// One turn of the reachability loop: what to record now that `event` has
/// answered `step`, and what to do next.
///
/// The loop starts with [`crate::cycle::start`], does what its step says and
/// comes back here with what happened. Every probe that ends leaves exactly
/// one sample, whatever its outcome, and the loop moves on to the next target
/// or to the wait.
pub fn run(targets: &Vec<String>, step: Step, event: Event) -> (turn: (Step, Vec<Sample>))
    ensures
        turn.0 == next_step(targets@.len(), step, event.signal_of()),
        models(turn.1@) == samples_due(targets.deep_view(), step, event),
        forall|k: int| 0 <= k < turn.1@.len() ==> (#[trigger] turn.1@[k])@.well_formed(),
{
    let mut samples: Vec<Sample> = Vec::new();
    let signal = match &event {
        Event::Probed(outcome) => {
            if let Step::Probe(i) = step {
                if i < targets.len() {
                    samples.push(record(targets[i].as_str(), outcome));
                }
            }
            Signal::ProbeDone
        },
        Event::WaitElapsed => Signal::WaitElapsed,
        Event::Shutdown => Signal::Shutdown,
    };
    assert(models(samples@) =~= samples_due(targets.deep_view(), step, event));
    (next(targets.len(), step, signal), samples)
}

/// The leftmost match is the match at the first position that has one.
pub proof fn lemma_first_match_is_leftmost(pattern: Pattern, text: Seq<u8>, from: int, at: int)
    requires
        0 <= from <= at < text.len(),
        pattern.match_at(text, at) is Some,
        forall|j: int| from <= j < at ==> pattern.match_at(text, j) is None,
    ensures
        pattern.first_match(text, from) == pattern.match_at(text, at),
    decreases at - from,
{
    if from < at {
        lemma_first_match_is_leftmost(pattern, text, from + 1, at);
    }
}

/// Without a match at any position there is no leftmost match.
pub proof fn lemma_first_match_none(pattern: Pattern, text: Seq<u8>, from: int)
    requires
        0 <= from,
        forall|j: int| from <= j < text.len() ==> pattern.match_at(text, j) is None,
    ensures
        pattern.first_match(text, from) is None,
    decreases text.len() - from,
{
    if from < text.len() {
        lemma_first_match_none(pattern, text, from + 1);
    }
}

/// The nanoseconds in the milliseconds that a number states, whose digits
/// before the point run from `from` to `point` and whose digits after it, if
/// any, up to `to`; `None` if they are more than a [`TimeSpan`] holds.
pub open spec fn stated_nanos(text: Seq<u8>, from: int, point: int, to: int) -> Option<nat> {
    let nanos = digits_value(text.subrange(from, point)) * 1_000_000 + fraction_millionths(
        digits_after(text, point, to),
    );
    if nanos <= max_total_nanos() {
        Some(nanos)
    } else {
        None
    }
}

/// A reply line is read as what it states, whatever surrounds it.
///
/// Let `text` hold at `at` the word `time` in any case, then `=` or `<`, then
/// one or more digits up to `point`, then either nothing or a dot and digits up
/// to `to`, then whitespace up to `unit`, then `ms` in any case; and let no
/// reply-line match begin before `at`. Then the reply-line reading of `text` is
/// exactly the stated number of milliseconds, in nanoseconds, and it is also
/// the latency reported for `text` as a whole.
pub proof fn law_reply_time_is_read(text: Seq<u8>, at: int, point: int, to: int, unit: int)
    requires
        word_at(text, at, word_time()),
        at + 5 < point <= to <= unit,
        text[at + 4] == EQUALS || text[at + 4] == LESS,
        all_in(text, at + 5, point, ByteClass::Digit),
        to == point || (text[point] == DOT && all_in(text, point + 1, to, ByteClass::Digit)),
        all_in(text, to, unit, ByteClass::Space),
        word_at(text, unit, word_ms()),
        forall|j: int| 0 <= j < at ==> time_match_at(text, j) is None,
    ensures
        Pattern::ReplyTime.reading(text) == stated_nanos(text, at + 5, point, to),
        stated_nanos(text, at + 5, point, to) is Some ==> latency_reading(text) == stated_nanos(
            text,
            at + 5,
            point,
            to,
        ),
{
    let from = at + 5;
    assert(lower_is(text, unit, 109)) by {
        reveal_strlit("ms");
        assert(word_ms()[0] == 109);
        assert(text[unit + 0] == text[unit]);
    }
    lemma_run_end_is(text, to, unit, ByteClass::Space);
    if to == point {
        lemma_run_end_is(text, from, point, ByteClass::Digit);
    } else {
        lemma_run_end_is(text, from, point, ByteClass::Digit);
        lemma_run_end_is(text, point + 1, to, ByteClass::Digit);
    }
    assert(number_end(text, from) == to);
    assert(time_match_at(text, at) == Some((from, to)));
    lemma_first_match_is_leftmost(Pattern::ReplyTime, text, 0, at);
    lemma_decimal_parts(text, from, point, to);
}

/// The byte at `i` is the letter with the lower-case code `code`, in either
/// case.
spec fn lower_is(text: Seq<u8>, i: int, code: u8) -> bool {
    0 <= i < text.len() && lower(text[i]) == code
}

/// The fields of a summary's list: `ends[n]` is where field `n` ends, a slash
/// stands between one field and the next, and every field after the first is
/// one or more digits and dots.
pub open spec fn fields_follow(text: Seq<u8>, ends: Seq<int>) -> bool {
    forall|n: int|
        #![trigger ends[n]]
        0 <= n < ends.len() - 1 ==> {
            &&& 0 <= ends[n] < text.len()
            &&& text[ends[n]] == SLASH
            &&& ends[n] + 1 < ends[n + 1] <= text.len()
            &&& all_in(text, ends[n] + 1, ends[n + 1], ByteClass::Numeric)
        }
}

/// A list of fields ends with its last field when what follows is no slash.
pub proof fn lemma_fields_end(text: Seq<u8>, ends: Seq<int>, m: int)
    requires
        0 <= m < ends.len(),
        fields_follow(text, ends),
        0 <= ends[m],
        0 <= ends.last() < text.len(),
        !ByteClass::Numeric.holds(text[ends.last()]),
        text[ends.last()] != SLASH,
    ensures
        fields_end(text, ends[m]) == ends.last(),
    decreases ends.len() - m,
{
    if m < ends.len() - 1 {
        let next = ends[m + 1];
        if m + 1 < ends.len() - 1 {
            assert(text[ends[m + 1]] == SLASH);
        }
        lemma_run_end_is(text, ends[m] + 1, next, ByteClass::Numeric);
        lemma_fields_end(text, ends, m + 1);
    }
}

/// What stands between the keyword of a summary and the unit that closes it:
/// whitespace and a label without `=` from `label` to `eq`, then `=`,
/// whitespace up to `first`, then two or more fields, field `n` ending at
/// `ends[n]`, then whitespace up to `unit` and `ms` in any case.
pub open spec fn summary_shape(
    text: Seq<u8>,
    label: int,
    eq: int,
    first: int,
    ends: Seq<int>,
    unit: int,
) -> bool {
    &&& 0 <= label < text.len()
    &&& is_space(text[label])
    &&& label + 2 <= eq < text.len()
    &&& all_in(text, label, eq, ByteClass::NotEquals)
    &&& text[eq] == EQUALS
    &&& eq < first
    &&& all_in(text, eq + 1, first, ByteClass::Space)
    &&& ends.len() >= 2
    &&& first < ends[0]
    &&& all_in(text, first, ends[0], ByteClass::Numeric)
    &&& fields_follow(text, ends)
    &&& ends.last() <= unit
    &&& all_in(text, ends.last(), unit, ByteClass::Space)
    &&& word_at(text, unit, word_ms())
}

/// The byte that follows the last field of a summary is neither a slash nor
/// part of a field.
proof fn lemma_after_last_field(text: Seq<u8>, last: int, unit: int)
    requires
        0 <= last <= unit,
        all_in(text, last, unit, ByteClass::Space),
        word_at(text, unit, word_ms()),
    ensures
        last < text.len(),
        !ByteClass::Numeric.holds(text[last]),
        text[last] != SLASH,
        run_end(text, last, ByteClass::Space) == unit,
{
    assert(lower_is(text, unit, 109)) by {
        reveal_strlit("ms");
        assert(word_ms()[0] == 109);
        assert(text[unit + 0] == text[unit]);
    }
    if last < unit {
        assert(ByteClass::Space.holds(text[last]));
    }
    lemma_run_end_is(text, last, unit, ByteClass::Space);
}

/// A text of the summary's shape matches the summary pattern at its keyword,
/// and the match yields the second field.
proof fn lemma_summary_matches(
    text: Seq<u8>,
    at: int,
    label: int,
    eq: int,
    first: int,
    ends: Seq<int>,
    unit: int,
)
    requires
        keyword_end(text, at) == Some(label),
        summary_shape(text, label, eq, first, ends, unit),
    ensures
        rtt_match_at(text, at) == Some((ends[0] + 1, ends[1])),
        0 <= at < text.len(),
{
    let second = ends[0] + 1;
    let last = ends.last();
    assert(0 <= at < text.len()) by {
        reveal_strlit("rtt");
        reveal_strlit("round");
    }
    assert(text[ends[0]] == SLASH && ends[0] + 1 < ends[1] <= text.len() && all_in(
        text,
        ends[0] + 1,
        ends[1],
        ByteClass::Numeric,
    ));
    assert(0 <= last) by {
        assert(0 <= ends[ends.len() - 2]);
    }
    lemma_after_last_field(text, last, unit);
    assert(run_end(text, label, ByteClass::NotEquals) == eq) by {
        lemma_run_end_is(text, label, eq, ByteClass::NotEquals);
    }
    assert(run_end(text, eq + 1, ByteClass::Space) == first) by {
        assert(ByteClass::Numeric.holds(text[first]));
        lemma_run_end_is(text, eq + 1, first, ByteClass::Space);
    }
    assert(run_end(text, first, ByteClass::Numeric) == ends[0]) by {
        lemma_run_end_is(text, first, ends[0], ByteClass::Numeric);
    }
    assert(run_end(text, second, ByteClass::Numeric) == ends[1]) by {
        if ends.len() > 2 {
            assert(text[ends[1]] == SLASH);
        }
        lemma_run_end_is(text, second, ends[1], ByteClass::Numeric);
    }
    assert(fields_end(text, ends[1]) == last) by {
        lemma_fields_end(text, ends, 1);
    }
}

/// The summary is read as its second field states, however many fields follow
/// it and whatever surrounds it.
///
/// Let `text` hold at `at` the keyword (`rtt`, `round-trip`, `round trip` or
/// `roundtrip`, in any case) up to `label`, and from there on have the shape
/// of a summary. Let the second field be a decimal number with its digits
/// before the point ending at `point`, and let no summary match begin before
/// `at`. Then the summary reading of `text` is exactly the milliseconds that
/// the second field states, in nanoseconds; and it is the latency reported for
/// `text` as a whole when `text` has no reply-line reading.
pub proof fn law_summary_average_is_read(
    text: Seq<u8>,
    at: int,
    label: int,
    eq: int,
    first: int,
    ends: Seq<int>,
    point: int,
    unit: int,
)
    requires
        keyword_end(text, at) == Some(label),
        summary_shape(text, label, eq, first, ends, unit),
        ends[0] + 1 <= point <= ends[1],
        all_in(text, ends[0] + 1, point, ByteClass::Digit),
        ends[1] == point || (text[point] == DOT && all_in(
            text,
            point + 1,
            ends[1],
            ByteClass::Digit,
        )),
        ends[0] + 1 < point || point + 1 < ends[1],
        forall|j: int| 0 <= j < at ==> rtt_match_at(text, j) is None,
    ensures
        Pattern::Summary.reading(text) == stated_nanos(text, ends[0] + 1, point, ends[1]),
        Pattern::ReplyTime.reading(text) is None ==> latency_reading(text) == stated_nanos(
            text,
            ends[0] + 1,
            point,
            ends[1],
        ),
{
    lemma_summary_matches(text, at, label, eq, first, ends, unit);
    assert(0 <= ends[0] && ends[1] <= text.len()) by {
        assert(text[ends[0]] == SLASH && ends[0] + 1 < ends[1] <= text.len());
    }
    lemma_first_match_is_leftmost(Pattern::Summary, text, 0, at);
    lemma_decimal_parts(text, ends[0] + 1, point, ends[1]);
}

/// The reply line takes precedence: whenever `text` has a reply-line reading,
/// that reading is the latency, whatever its summary says.
pub proof fn law_reply_time_takes_precedence(text: Seq<u8>)
    requires
        Pattern::ReplyTime.reading(text) is Some,
    ensures
        latency_reading(text) == Pattern::ReplyTime.reading(text),
{
}

/// A text in which neither pattern matches at any position has no latency.
pub proof fn law_no_pattern_no_latency(text: Seq<u8>)
    requires
        forall|i: int| 0 <= i < text.len() ==> time_match_at(text, i) is None,
        forall|i: int| 0 <= i < text.len() ==> rtt_match_at(text, i) is None,
    ensures
        latency_reading(text) is None,
{
    lemma_first_match_none(Pattern::ReplyTime, text, 0);
    lemma_first_match_none(Pattern::Summary, text, 0);
}

/// A command that succeeded and printed neither pattern gives a probe that
/// failed with a parse error.
pub proof fn law_no_pattern_is_a_parse_error(output: RawOutput, outcome: ProbeOutcome)
    requires
        output.exit_ok,
        forall|i: int| 0 <= i < output.stdout@.len() ==> time_match_at(output.stdout@, i) is None,
        forall|i: int| 0 <= i < output.stdout@.len() ==> rtt_match_at(output.stdout@, i) is None,
        probe_result(Ending::Ended(output), outcome),
    ensures
        outcome == ProbeOutcome::Failure(FailureKind::ParseError),
{
    law_no_pattern_no_latency(output.stdout@);
}

/// A probe that ran into its timeout is recorded as exactly one failure of
/// the kind `timeout` for its target, and the loop moves on: to the next
/// target, or after the last one to the wait.
pub proof fn law_timeout_is_recorded_once(targets: Seq<Seq<char>>, i: usize)
    requires
        i < targets.len(),
    ensures
        samples_due(
            targets,
            Step::Probe(i),
            Event::Probed(ProbeOutcome::Failure(FailureKind::Timeout)),
        ) == seq![
            SampleModel {
                instrument: Instrument::PingFails,
                labels: seq![targets[i as int], "timeout"@],
                value: Reading::Increment,
            },
        ],
        next_step(targets.len(), Step::Probe(i), Signal::ProbeDone) == if i + 1 < targets.len() {
            Step::Probe((i + 1) as usize)
        } else {
            Step::Wait
        },
{
}

} // verus!
