//! The bandwidth probe: what a speed test reports, how the report is decoded
//! from the JSON that the utility prints, and which samples it is recorded as.

use crate::cycle::{next, next_step, Signal, Step};
use crate::json::{as_double_bits, as_fractional_millis, as_text, as_unsigned, lookup, member_at,
    member_of, members, parse, parsed_json, Fault, Member};
use crate::metrics::{models, Instrument, Percent, Reading, Sample, SampleModel};
use crate::probe::{compound_label, settle, settled, Ending, FailureKind};
use crate::time::TimeSpan;
use vstd::prelude::*;
use vstd::string::StringSliceAdditionalSpecFns;

verus! {

/// The server that the test ran against.
#[derive(Clone, Debug)]
pub struct Server {
    /// Its host name.
    pub host: String,
    /// Its address.
    pub ip: String,
    /// Its port.
    pub port: u16,
    /// The name of its operator.
    pub name: String,
    /// Where it stands.
    pub location: String,
    /// The country it stands in.
    pub country: String,
}

/// A [`Server`] as contracts see it.
pub struct ServerModel {
    /// Its host name.
    pub host: Seq<char>,
    /// Its address.
    pub ip: Seq<char>,
    /// Its port.
    pub port: u16,
    /// The name of its operator.
    pub name: Seq<char>,
    /// Where it stands.
    pub location: Seq<char>,
    /// The country it stands in.
    pub country: Seq<char>,
}

impl View for Server {
    type V = ServerModel;

    open spec fn view(&self) -> ServerModel {
        ServerModel {
            host: self.host@,
            ip: self.ip@,
            port: self.port,
            name: self.name@,
            location: self.location@,
            country: self.country@,
        }
    }
}

/// Latency while a stream was running.
#[derive(Clone, Copy, Debug, PartialEq, Eq, Structural)]
pub struct StreamLatency {
    /// The interquartile mean.
    pub mean: TimeSpan,
    /// The lowest latency seen.
    pub low: TimeSpan,
    /// The highest latency seen.
    pub high: TimeSpan,
    /// The jitter.
    pub jitter: TimeSpan,
}

/// Latency while the line was idle.
#[derive(Clone, Copy, Debug, PartialEq, Eq, Structural)]
pub struct IdleLatency {
    /// The latency that the test settled on; zero when the report states none.
    pub latency: TimeSpan,
    /// The lowest latency seen.
    pub low: TimeSpan,
    /// The highest latency seen.
    pub high: TimeSpan,
    /// The jitter.
    pub jitter: TimeSpan,
}

/// What was measured in one direction.
#[derive(Clone, Copy, Debug, PartialEq, Eq, Structural)]
pub struct StreamResult {
    /// Bandwidth in bytes per second.
    pub bandwidth: u64,
    /// Bytes transferred.
    pub bytes: u64,
    /// How long the transfer took.
    pub elapsed: TimeSpan,
    /// Latency during the transfer.
    pub latency: StreamLatency,
}

/// The report of one speed test.
#[derive(Clone, Debug)]
pub struct SpeedtestResult {
    /// Latency while the line was idle.
    pub ping: IdleLatency,
    /// What was measured downstream.
    pub download: StreamResult,
    /// What was measured upstream.
    pub upload: StreamResult,
    /// The share of packets lost, in percent; zero when the report states
    /// none.
    pub packet_loss: Percent,
    /// The server that the test ran against.
    pub server: Server,
}

/// A [`SpeedtestResult`] as contracts see it.
pub struct ReportModel {
    /// Latency while the line was idle.
    pub ping: IdleLatency,
    /// What was measured downstream.
    pub download: StreamResult,
    /// What was measured upstream.
    pub upload: StreamResult,
    /// The share of packets lost.
    pub packet_loss: Percent,
    /// The server that the test ran against.
    pub server: ServerModel,
}

impl View for SpeedtestResult {
    type V = ReportModel;

    open spec fn view(&self) -> ReportModel {
        ReportModel {
            ping: self.ping,
            download: self.download,
            upload: self.upload,
            packet_loss: self.packet_loss,
            server: self.server@,
        }
    }
}

/// The share of lost packets of a report that states none: `0.0`.
pub fn default_packet_loss() -> (share: Percent)
    ensures
        share.bits == 0,
{
    Percent { bits: 0 }
}

/// The idle latency of a report that states none: no time at all.
pub fn default_latency() -> (span: TimeSpan)
    ensures
        span.total_nanos() == 0,
{
    TimeSpan::from_secs(0)
}

/// What a member has to be for its field.
#[derive(Clone, Copy, Debug, PartialEq, Eq, Structural)]
pub enum Form {
    /// A whole number from zero to `u64::MAX`.
    Count,
    /// A whole number from zero to `u16::MAX`.
    Port,
    /// A string.
    Text,
    /// A whole number of milliseconds.
    WholeMillis,
    /// A number of milliseconds, whole or fractional.
    FractionalMillis,
    /// A number.
    Share,
}

/// One field of the report: where its member stands in the document, what
/// the member has to be, and whether the document has to have it.
#[derive(Clone, Copy, Debug)]
pub struct Entry {
    /// The JSON pointer of the member.
    pub pointer: &'static str,
    /// What the member has to be.
    pub form: Form,
    /// Whether a document without the member is refused.
    pub required: bool,
}

/// An [`Entry`] as contracts see it.
pub struct EntryModel {
    /// The JSON pointer of the member.
    pub pointer: Seq<char>,
    /// What the member has to be.
    pub form: Form,
    /// Whether a document without the member is refused.
    pub required: bool,
}

impl View for Entry {
    type V = EntryModel;

    open spec fn view(&self) -> EntryModel {
        EntryModel { pointer: self.pointer@, form: self.form, required: self.required }
    }
}

/// A field that the document has to have.
pub open spec fn required(pointer: Seq<char>, form: Form) -> EntryModel {
    EntryModel { pointer, form, required: true }
}

/// A field that the document may leave out.
pub open spec fn optional(pointer: Seq<char>, form: Form) -> EntryModel {
    EntryModel { pointer, form, required: false }
}

/// The fields of the report. Only the idle latency and the packet loss may be
/// left out.
pub open spec fn schema() -> Seq<EntryModel> {
    seq![
        optional("/ping/latency"@, Form::FractionalMillis),
        required("/ping/low"@, Form::FractionalMillis),
        required("/ping/high"@, Form::FractionalMillis),
        required("/ping/jitter"@, Form::FractionalMillis),
        required("/download/bandwidth"@, Form::Count),
        required("/download/bytes"@, Form::Count),
        required("/download/elapsed"@, Form::WholeMillis),
        required("/download/latency/iqm"@, Form::FractionalMillis),
        required("/download/latency/low"@, Form::FractionalMillis),
        required("/download/latency/high"@, Form::FractionalMillis),
        required("/download/latency/jitter"@, Form::FractionalMillis),
        required("/upload/bandwidth"@, Form::Count),
        required("/upload/bytes"@, Form::Count),
        required("/upload/elapsed"@, Form::WholeMillis),
        required("/upload/latency/iqm"@, Form::FractionalMillis),
        required("/upload/latency/low"@, Form::FractionalMillis),
        required("/upload/latency/high"@, Form::FractionalMillis),
        required("/upload/latency/jitter"@, Form::FractionalMillis),
        optional("/packetLoss"@, Form::Share),
        required("/server/host"@, Form::Text),
        required("/server/ip"@, Form::Text),
        required("/server/port"@, Form::Port),
        required("/server/name"@, Form::Text),
        required("/server/location"@, Form::Text),
        required("/server/country"@, Form::Text),
    ]
}

/// Whether `member` is what `form` asks for.
pub open spec fn takes(form: Form, member: Member) -> bool {
    match form {
        Form::Count => member.unsigned is Some,
        Form::Port => member.unsigned matches Some(number) && number <= u16::MAX,
        Form::Text => member.text is Some,
        Form::WholeMillis => member.unsigned is Some,
        Form::FractionalMillis => member.fractional_millis is Some,
        Form::Share => member.double_bits is Some,
    }
}

/// The document lacks a member that it has to have.
pub open spec fn lacks(all: Map<Seq<char>, Member>, entry: EntryModel) -> bool {
    entry.required && !all.dom().contains(entry.pointer)
}

/// The document has the member, and it is not what the field asks for.
pub open spec fn rejects(all: Map<Seq<char>, Member>, entry: EntryModel) -> bool {
    all.dom().contains(entry.pointer) && !takes(entry.form, all[entry.pointer])
}

/// Why a text is no report.
#[derive(Clone, Copy, Debug, PartialEq, Eq, Structural)]
pub enum DecodeError {
    /// It is no JSON document.
    Malformed(Fault),
    /// A member that a report has to have is missing.
    MissingField,
    /// Every member that a report has to have is there, but one of the
    /// members that make the report is not what its field asks for.
    InvalidField,
}

/// What is wrong with a document, if anything: a missing member counts before
/// a member of the wrong form.
pub open spec fn verdict(all: Map<Seq<char>, Member>) -> Option<DecodeError> {
    if exists|i: int| 0 <= i < schema().len() && lacks(all, #[trigger] schema()[i]) {
        Some(DecodeError::MissingField)
    } else if exists|i: int| 0 <= i < schema().len() && rejects(all, #[trigger] schema()[i]) {
        Some(DecodeError::InvalidField)
    } else {
        None
    }
}

/// The nanoseconds of the span under `pointer`, given in fractional
/// milliseconds; zero without such a member.
pub open spec fn span_at(all: Map<Seq<char>, Member>, pointer: Seq<char>) -> nat {
    match member_at(all, pointer) {
        Some(Member { fractional_millis: Some(nanos), .. }) => nanos,
        _ => 0,
    }
}

/// The whole number under `pointer`; zero without such a member.
pub open spec fn count_at(all: Map<Seq<char>, Member>, pointer: Seq<char>) -> nat {
    match member_at(all, pointer) {
        Some(Member { unsigned: Some(number), .. }) => number as nat,
        _ => 0,
    }
}

/// The string under `pointer`; empty without such a member.
pub open spec fn string_at(all: Map<Seq<char>, Member>, pointer: Seq<char>) -> Seq<char> {
    match member_at(all, pointer) {
        Some(Member { text: Some(text), .. }) => text,
        _ => Seq::empty(),
    }
}

/// The bits of the number under `pointer`; those of `0.0` without such a
/// member.
pub open spec fn bits_at(all: Map<Seq<char>, Member>, pointer: Seq<char>) -> u64 {
    match member_at(all, pointer) {
        Some(Member { double_bits: Some(bits), .. }) => bits,
        _ => 0,
    }
}

/// The port under `pointer`; zero without such a member.
pub open spec fn port_at(all: Map<Seq<char>, Member>, pointer: Seq<char>) -> u16 {
    match member_at(all, pointer) {
        Some(Member { unsigned: Some(number), .. }) => if number <= u16::MAX {
            number as u16
        } else {
            0
        },
        _ => 0,
    }
}

/// `report` is what the document states: every field holds what stands under
/// its pointer, and the two fields that the document may leave out hold zero
/// when it does. Elapsed times are whole numbers of milliseconds; the
/// latencies are fractional ones.
pub open spec fn describes(report: ReportModel, all: Map<Seq<char>, Member>) -> bool {
    &&& report.ping.latency.total_nanos() == span_at(all, "/ping/latency"@)
    &&& report.ping.low.total_nanos() == span_at(all, "/ping/low"@)
    &&& report.ping.high.total_nanos() == span_at(all, "/ping/high"@)
    &&& report.ping.jitter.total_nanos() == span_at(all, "/ping/jitter"@)
    &&& report.download.bandwidth == count_at(all, "/download/bandwidth"@)
    &&& report.download.bytes == count_at(all, "/download/bytes"@)
    &&& report.download.elapsed.total_nanos() == count_at(all, "/download/elapsed"@) * 1_000_000
    &&& report.download.latency.mean.total_nanos() == span_at(all, "/download/latency/iqm"@)
    &&& report.download.latency.low.total_nanos() == span_at(all, "/download/latency/low"@)
    &&& report.download.latency.high.total_nanos() == span_at(all, "/download/latency/high"@)
    &&& report.download.latency.jitter.total_nanos() == span_at(
        all,
        "/download/latency/jitter"@,
    )
    &&& report.upload.bandwidth == count_at(all, "/upload/bandwidth"@)
    &&& report.upload.bytes == count_at(all, "/upload/bytes"@)
    &&& report.upload.elapsed.total_nanos() == count_at(all, "/upload/elapsed"@) * 1_000_000
    &&& report.upload.latency.mean.total_nanos() == span_at(all, "/upload/latency/iqm"@)
    &&& report.upload.latency.low.total_nanos() == span_at(all, "/upload/latency/low"@)
    &&& report.upload.latency.high.total_nanos() == span_at(all, "/upload/latency/high"@)
    &&& report.upload.latency.jitter.total_nanos() == span_at(all, "/upload/latency/jitter"@)
    &&& report.packet_loss.bits == bits_at(all, "/packetLoss"@)
    &&& report.server.host == string_at(all, "/server/host"@)
    &&& report.server.ip == string_at(all, "/server/ip"@)
    &&& report.server.port == port_at(all, "/server/port"@)
    &&& report.server.name == string_at(all, "/server/name"@)
    &&& report.server.location == string_at(all, "/server/location"@)
    &&& report.server.country == string_at(all, "/server/country"@)
}

/// `result` is what decoding a document with the members `all` has to give:
/// the report that the document states if nothing is wrong with it, and
/// otherwise what is wrong.
pub open spec fn decodes_to(
    all: Map<Seq<char>, Member>,
    result: Result<SpeedtestResult, DecodeError>,
) -> bool {
    match result {
        Ok(report) => verdict(all) is None && describes(report@, all),
        Err(error) => verdict(all) == Some(error),
    }
}

/// `result` is what decoding a text has to give, when `parsed` is what
/// `serde_json` makes of the text.
pub open spec fn decoded(
    parsed: Result<Map<Seq<char>, Member>, Fault>,
    result: Result<SpeedtestResult, DecodeError>,
) -> bool {
    match parsed {
        Ok(all) => decodes_to(all, result),
        Err(fault) => result matches Err(error) && error == DecodeError::Malformed(fault),
    }
}

/// A field that the document has to have.
fn needs(pointer: &'static str, form: Form) -> (entry: Entry)
    ensures
        entry@ == required(pointer@, form),
{
    Entry { pointer, form, required: true }
}

/// A field that the document may leave out.
fn admits(pointer: &'static str, form: Form) -> (entry: Entry)
    ensures
        entry@ == optional(pointer@, form),
{
    Entry { pointer, form, required: false }
}

/// The fields of the report.
pub fn fields() -> (table: Vec<Entry>)
    ensures
        table@.map_values(|entry: Entry| entry@) == schema(),
{
    let table = vec![
        admits("/ping/latency", Form::FractionalMillis),
        needs("/ping/low", Form::FractionalMillis),
        needs("/ping/high", Form::FractionalMillis),
        needs("/ping/jitter", Form::FractionalMillis),
        needs("/download/bandwidth", Form::Count),
        needs("/download/bytes", Form::Count),
        needs("/download/elapsed", Form::WholeMillis),
        needs("/download/latency/iqm", Form::FractionalMillis),
        needs("/download/latency/low", Form::FractionalMillis),
        needs("/download/latency/high", Form::FractionalMillis),
        needs("/download/latency/jitter", Form::FractionalMillis),
        needs("/upload/bandwidth", Form::Count),
        needs("/upload/bytes", Form::Count),
        needs("/upload/elapsed", Form::WholeMillis),
        needs("/upload/latency/iqm", Form::FractionalMillis),
        needs("/upload/latency/low", Form::FractionalMillis),
        needs("/upload/latency/high", Form::FractionalMillis),
        needs("/upload/latency/jitter", Form::FractionalMillis),
        admits("/packetLoss", Form::Share),
        needs("/server/host", Form::Text),
        needs("/server/ip", Form::Text),
        needs("/server/port", Form::Port),
        needs("/server/name", Form::Text),
        needs("/server/location", Form::Text),
        needs("/server/country", Form::Text),
    ];
    assert(table@.map_values(|entry: Entry| entry@) =~= schema());
    table
}

/// Whether `value` is what `form` asks for.
fn accepts(value: &serde_json::Value, form: Form) -> (ok: bool)
    ensures
        ok == takes(form, member_of(*value)),
{
    match form {
        Form::Count => as_unsigned(value).is_some(),
        Form::WholeMillis => as_unsigned(value).is_some(),
        Form::Port => match as_unsigned(value) {
            Some(number) => number <= 65_535,
            None => false,
        },
        Form::Text => as_text(value).is_some(),
        Form::FractionalMillis => as_fractional_millis(value).is_some(),
        Form::Share => as_double_bits(value).is_some(),
    }
}

/// What is wrong with the document, if anything.
fn examine(doc: &serde_json::Value) -> (found: Option<DecodeError>)
    ensures
        found == verdict(members(*doc)),
{
    let ghost all = members(*doc);
    let table = fields();
    let mut missing: bool = false;
    let mut invalid: bool = false;
    let mut i: usize = 0;
    while i < table.len()
        invariant
            i <= table.len(),
            all == members(*doc),
            table@.map_values(|entry: Entry| entry@) == schema(),
            missing == exists|j: int| 0 <= j < i && lacks(all, #[trigger] schema()[j]),
            invalid == exists|j: int| 0 <= j < i && rejects(all, #[trigger] schema()[j]),
        decreases table.len() - i,
    {
        let entry = &table[i];
        assert(entry@ == schema()[i as int]) by {
            assert(table@.map_values(|entry: Entry| entry@)[i as int] == table@[i as int]@);
        }
        match lookup(doc, entry.pointer) {
            Some(value) => {
                if !accepts(value, entry.form) {
                    invalid = true;
                }
            },
            None => {
                if entry.required {
                    missing = true;
                }
            },
        }
        i += 1;
    }
    assert(table@.len() == schema().len()) by {
        assert(table@.map_values(|entry: Entry| entry@).len() == table@.len());
    }
    if missing {
        Some(DecodeError::MissingField)
    } else if invalid {
        Some(DecodeError::InvalidField)
    } else {
        None
    }
}

/// The span under `pointer`, given in fractional milliseconds.
fn span(doc: &serde_json::Value, pointer: &str) -> (span: TimeSpan)
    ensures
        span.total_nanos() == span_at(members(*doc), pointer@),
{
    let found = match lookup(doc, pointer) {
        Some(value) => as_fractional_millis(value),
        None => None,
    };
    match found {
        Some(span) => span,
        None => default_latency(),
    }
}

/// The whole number under `pointer`.
fn count(doc: &serde_json::Value, pointer: &str) -> (number: u64)
    ensures
        number == count_at(members(*doc), pointer@),
{
    let found = match lookup(doc, pointer) {
        Some(value) => as_unsigned(value),
        None => None,
    };
    match found {
        Some(number) => number,
        None => 0,
    }
}

/// The port under `pointer`.
fn port(doc: &serde_json::Value, pointer: &str) -> (number: u16)
    ensures
        number == port_at(members(*doc), pointer@),
{
    let number = count(doc, pointer);
    if number <= 65_535 {
        number as u16
    } else {
        0
    }
}

/// The string under `pointer`.
fn string(doc: &serde_json::Value, pointer: &str) -> (text: String)
    ensures
        text@ == string_at(members(*doc), pointer@),
{
    let found = match lookup(doc, pointer) {
        Some(value) => as_text(value),
        None => None,
    };
    match found {
        Some(text) => text,
        None => String::new(),
    }
}

/// The share under `pointer`.
fn share(doc: &serde_json::Value, pointer: &str) -> (share: Percent)
    ensures
        share.bits == bits_at(members(*doc), pointer@),
{
    let found = match lookup(doc, pointer) {
        Some(value) => as_double_bits(value),
        None => None,
    };
    match found {
        Some(bits) => Percent { bits },
        None => default_packet_loss(),
    }
}

/// Decodes the report that a parsed document states.
///
/// A document is refused with [`DecodeError::MissingField`] exactly if it
/// lacks a member that [`schema`] requires, and with
/// [`DecodeError::InvalidField`] exactly if it lacks none and one of the
/// members of the schema that it has is not what its field asks for. Every
/// other document is decoded, and each field of the report is what the
/// document states. Members outside the schema are ignored.
pub fn decode_document(doc: &serde_json::Value) -> (result: Result<SpeedtestResult, DecodeError>)
    ensures
        decodes_to(members(*doc), result),
{
    match examine(doc) {
        Some(error) => Err(error),
        None => Ok(
            SpeedtestResult {
                ping: IdleLatency {
                    latency: span(doc, "/ping/latency"),
                    low: span(doc, "/ping/low"),
                    high: span(doc, "/ping/high"),
                    jitter: span(doc, "/ping/jitter"),
                },
                download: StreamResult {
                    bandwidth: count(doc, "/download/bandwidth"),
                    bytes: count(doc, "/download/bytes"),
                    elapsed: TimeSpan::from_millis(count(doc, "/download/elapsed")),
                    latency: StreamLatency {
                        mean: span(doc, "/download/latency/iqm"),
                        low: span(doc, "/download/latency/low"),
                        high: span(doc, "/download/latency/high"),
                        jitter: span(doc, "/download/latency/jitter"),
                    },
                },
                upload: StreamResult {
                    bandwidth: count(doc, "/upload/bandwidth"),
                    bytes: count(doc, "/upload/bytes"),
                    elapsed: TimeSpan::from_millis(count(doc, "/upload/elapsed")),
                    latency: StreamLatency {
                        mean: span(doc, "/upload/latency/iqm"),
                        low: span(doc, "/upload/latency/low"),
                        high: span(doc, "/upload/latency/high"),
                        jitter: span(doc, "/upload/latency/jitter"),
                    },
                },
                packet_loss: share(doc, "/packetLoss"),
                server: Server {
                    host: string(doc, "/server/host"),
                    ip: string(doc, "/server/ip"),
                    port: port(doc, "/server/port"),
                    name: string(doc, "/server/name"),
                    location: string(doc, "/server/location"),
                    country: string(doc, "/server/country"),
                },
            },
        ),
    }
}

/// Decodes the report that the bytes of a JSON text state.
pub fn decode_bytes(raw: &[u8]) -> (result: Result<SpeedtestResult, DecodeError>)
    ensures
        decoded(parsed_json(raw@), result),
{
    match parse(raw) {
        Ok(doc) => decode_document(&doc),
        Err(fault) => Err(DecodeError::Malformed(fault)),
    }
}

/// Decodes the report that a JSON text states.
pub fn decode(raw_json: &str) -> (result: Result<SpeedtestResult, DecodeError>)
    ensures
        decoded(parsed_json(raw_json.spec_bytes()), result),
{
    decode_bytes(raw_json.as_bytes())
}

/// Every member that the schema requires is there, and every member of the
/// schema that is there is what its field asks for.
pub open spec fn fulfils_schema(all: Map<Seq<char>, Member>) -> bool {
    &&& forall|i: int|
        0 <= i < schema().len() && (#[trigger] schema()[i]).required ==> all.dom().contains(
            schema()[i].pointer,
        )
    &&& forall|i: int|
        0 <= i < schema().len() && all.dom().contains((#[trigger] schema()[i]).pointer) ==> takes(
            schema()[i].form,
            all[schema()[i].pointer],
        )
}

/// A document that leaves out the packet loss or the idle latency is decoded
/// all the same, and the report holds zero in their place: `0.0` for the
/// share of lost packets, no time at all for the latency.
pub proof fn law_absent_options_default_to_zero(
    all: Map<Seq<char>, Member>,
    result: Result<SpeedtestResult, DecodeError>,
)
    requires
        fulfils_schema(all),
        decodes_to(all, result),
    ensures
        result is Ok,
        !all.dom().contains("/packetLoss"@) ==> result.unwrap()@.packet_loss.bits == 0,
        !all.dom().contains("/ping/latency"@) ==> result.unwrap()@.ping.latency.total_nanos()
            == 0,
{
}

/// A document that lacks any one of the required members is refused, whatever
/// else it holds.
pub proof fn law_absent_required_field_fails(
    all: Map<Seq<char>, Member>,
    result: Result<SpeedtestResult, DecodeError>,
    i: int,
)
    requires
        0 <= i < schema().len(),
        schema()[i].required,
        !all.dom().contains(schema()[i].pointer),
        decodes_to(all, result),
    ensures
        result == Err::<SpeedtestResult, DecodeError>(DecodeError::MissingField),
{
    assert(lacks(all, schema()[i]));
}

/// Why a speed test gave no report.
#[derive(Clone, Debug)]
pub enum TestFailure {
    /// The utility failed.
    Probe(FailureKind),
    /// The utility succeeded, and what it printed is no report.
    Decode(DecodeError),
}

impl DecodeError {
    /// The cause in one or two words.
    pub open spec fn cause_of(self) -> Seq<char> {
        match self {
            DecodeError::Malformed(Fault::Syntax) => "syntax"@,
            DecodeError::Malformed(Fault::Eof) => "eof"@,
            DecodeError::Malformed(Fault::Data) => "data"@,
            DecodeError::Malformed(Fault::Io) => "io"@,
            DecodeError::MissingField => "missing_field"@,
            DecodeError::InvalidField => "invalid_field"@,
        }
    }

    /// The label under which failures of this cause are counted.
    pub open spec fn label_of(self) -> Seq<char> {
        "json_error"@ + "_"@ + self.cause_of()
    }

    /// The cause in one or two words, never the text of a diagnostic.
    pub fn cause(&self) -> (cause: &'static str)
        ensures
            cause@ == self.cause_of(),
    {
        match self {
            DecodeError::Malformed(Fault::Syntax) => "syntax",
            DecodeError::Malformed(Fault::Eof) => "eof",
            DecodeError::Malformed(Fault::Data) => "data",
            DecodeError::Malformed(Fault::Io) => "io",
            DecodeError::MissingField => "missing_field",
            DecodeError::InvalidField => "invalid_field",
        }
    }

    /// The label under which failures of this cause are counted: `json_error`
    /// followed by the cause.
    pub fn label(&self) -> (label: String)
        ensures
            label@ == self.label_of(),
    {
        compound_label("json_error", self.cause())
    }
}

impl TestFailure {
    /// The label under which failures of this kind are counted.
    pub open spec fn label_of(self) -> Seq<char> {
        match self {
            TestFailure::Probe(kind) => kind.label_of(),
            TestFailure::Decode(error) => error.label_of(),
        }
    }

    /// The label under which failures of this kind are counted.
    pub fn label(&self) -> (label: String)
        ensures
            label@ == self.label_of(),
    {
        match self {
            TestFailure::Probe(kind) => kind.label(),
            TestFailure::Decode(error) => error.label(),
        }
    }
}

/// The utility that tests the line, looked for where the daemon runs.
pub const COMMAND: &'static str = "./speedtest";

/// The arguments of the utility: accept its terms without asking, and print
/// the report as JSON.
pub fn speedtest_args() -> (args: [&'static str; 3])
    ensures
        args@[0]@ == "--accept-license"@,
        args@[1]@ == "--accept-gdpr"@,
        args@[2]@ == "--format=json"@,
{
    ["--accept-license", "--accept-gdpr", "--format=json"]
}

/// What a speed test comes to, given what became of the utility: what
/// decoding its output gives if it succeeded, and otherwise its failure.
pub open spec fn test_result(ending: Ending, result: Result<SpeedtestResult, TestFailure>) -> bool {
    match settled(ending) {
        Err(kind) => result matches Err(failure) && failure == TestFailure::Probe(kind),
        Ok(stdout) => match result {
            Ok(report) => decoded(parsed_json(stdout), Ok(report)),
            Err(TestFailure::Decode(error)) => decoded(parsed_json(stdout), Err(error)),
            Err(TestFailure::Probe(_)) => false,
        },
    }
}

/// The report of one speed test, from what became of the utility: the report
/// it printed if it succeeded and printed one, and otherwise the reason why
/// there is none.
pub fn speedtest(ending: Ending) -> (result: Result<SpeedtestResult, TestFailure>)
    ensures
        test_result(ending, result),
{
    match settle(ending) {
        Err(kind) => Err(TestFailure::Probe(kind)),
        Ok(stdout) => match decode_bytes(stdout.as_slice()) {
            Ok(report) => Ok(report),
            Err(error) => Err(TestFailure::Decode(error)),
        },
    }
}

/// A gauge of one direction.
pub open spec fn directed(instrument: Instrument, direction: Seq<char>, value: Reading)
    -> SampleModel {
    SampleModel { instrument, labels: seq![direction], value }
}

/// An observation of latency in one phase of the test.
pub open spec fn observed(phase: Seq<char>, statistic: Seq<char>, span: TimeSpan) -> SampleModel {
    SampleModel {
        instrument: Instrument::SpeedtestLatency,
        labels: seq![phase, statistic],
        value: Reading::Seconds(span),
    }
}

/// The samples that a report is recorded as: bandwidth, bytes and elapsed time
/// of both directions, the packet loss, and the four statistics of latency for
/// each of the three phases.
pub open spec fn report_samples(report: ReportModel) -> Seq<SampleModel> {
    seq![
        directed(Instrument::Speed, "download"@, Reading::Count(report.download.bandwidth)),
        directed(Instrument::Speed, "upload"@, Reading::Count(report.upload.bandwidth)),
        directed(Instrument::SpeedtestBytes, "download"@, Reading::Count(report.download.bytes)),
        directed(Instrument::SpeedtestBytes, "upload"@, Reading::Count(report.upload.bytes)),
        directed(
            Instrument::SpeedtestElapsed,
            "download"@,
            Reading::Seconds(report.download.elapsed),
        ),
        directed(Instrument::SpeedtestElapsed, "upload"@, Reading::Seconds(report.upload.elapsed)),
        SampleModel {
            instrument: Instrument::SpeedtestPacketLoss,
            labels: Seq::empty(),
            value: Reading::Share(report.packet_loss),
        },
        observed("idle"@, "latency"@, report.ping.latency),
        observed("idle"@, "low"@, report.ping.low),
        observed("idle"@, "high"@, report.ping.high),
        observed("idle"@, "jitter"@, report.ping.jitter),
        observed("download"@, "latency"@, report.download.latency.mean),
        observed("download"@, "low"@, report.download.latency.low),
        observed("download"@, "high"@, report.download.latency.high),
        observed("download"@, "jitter"@, report.download.latency.jitter),
        observed("upload"@, "latency"@, report.upload.latency.mean),
        observed("upload"@, "low"@, report.upload.latency.low),
        observed("upload"@, "high"@, report.upload.latency.high),
        observed("upload"@, "jitter"@, report.upload.latency.jitter),
    ]
}

/// The one sample that a failed test is recorded as.
pub open spec fn failure_sample(failure: TestFailure) -> SampleModel {
    SampleModel {
        instrument: Instrument::SpeedtestFails,
        labels: seq![failure.label_of()],
        value: Reading::Increment,
    }
}

/// What a speed test is recorded as.
pub open spec fn result_samples(result: Result<SpeedtestResult, TestFailure>) -> Seq<SampleModel> {
    match result {
        Ok(report) => report_samples(report@),
        Err(failure) => seq![failure_sample(failure)],
    }
}

/// Every sample has the labels and the kind of reading of its instrument.
pub open spec fn all_well_formed(samples: Seq<Sample>) -> bool {
    forall|k: int| 0 <= k < samples.len() ==> (#[trigger] samples[k])@.well_formed()
}

/// Appends the four statistics of latency of one phase.
fn observe_phase(
    samples: &mut Vec<Sample>,
    phase: &str,
    latency: TimeSpan,
    low: TimeSpan,
    high: TimeSpan,
    jitter: TimeSpan,
)
    requires
        all_well_formed(old(samples)@),
    ensures
        models(final(samples)@) == models(old(samples)@) + seq![
            observed(phase@, "latency"@, latency),
            observed(phase@, "low"@, low),
            observed(phase@, "high"@, high),
            observed(phase@, "jitter"@, jitter),
        ],
        all_well_formed(final(samples)@),
{
    let instrument = Instrument::SpeedtestLatency;
    samples.push(Sample::labelled_twice(instrument, phase, "latency", Reading::Seconds(latency)));
    samples.push(Sample::labelled_twice(instrument, phase, "low", Reading::Seconds(low)));
    samples.push(Sample::labelled_twice(instrument, phase, "high", Reading::Seconds(high)));
    samples.push(Sample::labelled_twice(instrument, phase, "jitter", Reading::Seconds(jitter)));
    assert(models(samples@) =~= models(old(samples)@) + seq![
        observed(phase@, "latency"@, latency),
        observed(phase@, "low"@, low),
        observed(phase@, "high"@, high),
        observed(phase@, "jitter"@, jitter),
    ]);
}

/// The samples that a speed test is recorded as: those of its report, or one
/// more failure of its kind.
pub fn record(result: &Result<SpeedtestResult, TestFailure>) -> (samples: Vec<Sample>)
    ensures
        models(samples@) == result_samples(*result),
        all_well_formed(samples@),
{
    let mut samples: Vec<Sample> = Vec::new();
    match result {
        Err(failure) => {
            let label = failure.label();
            samples.push(
                Sample::labelled(Instrument::SpeedtestFails, label.as_str(), Reading::Increment),
            );
            assert(models(samples@) =~= result_samples(*result));
        },
        Ok(report) => {
            let down = &report.download;
            let up = &report.upload;
            samples.push(
                Sample::labelled(Instrument::Speed, "download", Reading::Count(down.bandwidth)),
            );
            samples.push(Sample::labelled(Instrument::Speed, "upload", Reading::Count(up.bandwidth)));
            samples.push(
                Sample::labelled(Instrument::SpeedtestBytes, "download", Reading::Count(down.bytes)),
            );
            samples.push(
                Sample::labelled(Instrument::SpeedtestBytes, "upload", Reading::Count(up.bytes)),
            );
            samples.push(
                Sample::labelled(
                    Instrument::SpeedtestElapsed,
                    "download",
                    Reading::Seconds(down.elapsed),
                ),
            );
            samples.push(
                Sample::labelled(Instrument::SpeedtestElapsed, "upload", Reading::Seconds(up.elapsed)),
            );
            samples.push(
                Sample::bare(Instrument::SpeedtestPacketLoss, Reading::Share(report.packet_loss)),
            );
            let ghost gauges = models(samples@);
            assert(gauges =~= report_samples(report@).take(7));
            let idle = &report.ping;
            observe_phase(&mut samples, "idle", idle.latency, idle.low, idle.high, idle.jitter);
            let down = &report.download.latency;
            observe_phase(&mut samples, "download", down.mean, down.low, down.high, down.jitter);
            let up = &report.upload.latency;
            observe_phase(&mut samples, "upload", up.mean, up.low, up.high, up.jitter);
            assert(models(samples@) =~= report_samples(report@));
        },
    }
    samples
}

/// What happened while the bandwidth loop did its step.
#[derive(Debug)]
pub enum Event {
    /// The speed test ended with the given result.
    Tested(Result<SpeedtestResult, TestFailure>),
    /// The delay between two tests has passed.
    WaitElapsed,
    /// Shutdown was requested, or whoever could request it is gone.
    Shutdown,
}

impl Event {
    /// The event without what it carries.
    pub open spec fn signal_of(self) -> Signal {
        match self {
            Event::Tested(_) => Signal::ProbeDone,
            Event::WaitElapsed => Signal::WaitElapsed,
            Event::Shutdown => Signal::Shutdown,
        }
    }
}

/// The samples to record when `event` answers `step`: those of the speed test
/// that has ended, and none in any other case.
pub open spec fn samples_due(step: Step, event: Event) -> Seq<SampleModel> {
    match (step, event) {
        (Step::Probe(0), Event::Tested(result)) => result_samples(result),
        _ => Seq::empty(),
    }
}

/// One turn of the bandwidth loop: what to record now that `event` has
/// answered `step`, and what to do next.
///
/// The loop is a cycle with a single probe, the speed test. It starts with
/// [`crate::cycle::start`] for one target, does what its step says and comes
/// back here with what happened.
pub fn run(step: Step, event: Event) -> (turn: (Step, Vec<Sample>))
    ensures
        turn.0 == next_step(1, step, event.signal_of()),
        models(turn.1@) == samples_due(step, event),
        all_well_formed(turn.1@),
{
    match &event {
        Event::Tested(result) => {
            let samples = match step {
                Step::Probe(0) => record(result),
                _ => Vec::new(),
            };
            assert(models(samples@) =~= samples_due(step, event));
            (next(1, step, Signal::ProbeDone), samples)
        },
        Event::WaitElapsed => {
            let samples: Vec<Sample> = Vec::new();
            assert(models(samples@) =~= samples_due(step, event));
            (next(1, step, Signal::WaitElapsed), samples)
        },
        Event::Shutdown => {
            let samples: Vec<Sample> = Vec::new();
            assert(models(samples@) =~= samples_due(step, event));
            (next(1, step, Signal::Shutdown), samples)
        },
    }
}

} // verus!
