//! The JSON documents that the decoder reads, as far as it reads them.
//!
//! Parsing is the work of `serde_json`, and turning a fractional number of
//! milliseconds into a span that of `serde_with`. What they return is named
//! here, not described: a document is a map from JSON pointers to members, and
//! a member is known by what each of the readers below makes of it.

use crate::decimal::span_nanos;
use crate::time::TimeSpan;
use vstd::prelude::*;

verus! {

/// `serde_json::Value`: a parsed document. Its inside is known only through
/// [`members`].
#[verifier::external_type_specification]
#[verifier::external_body]
pub struct ExValue(serde_json::Value);

/// Why a text is no JSON document, after `serde_json::error::Category`.
#[derive(Clone, Copy, Debug, PartialEq, Eq, Structural)]
pub enum Fault {
    /// The text is not written as JSON is.
    Syntax,
    /// The text ends before the document does.
    Eof,
    /// The text is JSON, but not of the kind asked for.
    Data,
    /// The text could not be read.
    Io,
}

/// A value of a document, as each reader sees it. A reader that cannot take
/// the value sees `None`.
pub struct Member {
    /// The member as a whole number that is not negative.
    pub unsigned: Option<u64>,
    /// The member as a string.
    pub text: Option<Seq<char>>,
    /// The member as a fractional number of milliseconds, in nanoseconds.
    pub fractional_millis: Option<nat>,
    /// The member as a double-precision number, by its bits.
    pub double_bits: Option<u64>,
}

/// The members of a document, each under its JSON pointer, such as
/// `/ping/jitter`.
pub uninterp spec fn members(doc: serde_json::Value) -> Map<Seq<char>, Member>;

/// A value taken out of a document, as each reader sees it.
pub uninterp spec fn member_of(value: serde_json::Value) -> Member;

/// What `serde_json` makes of a text: the members of the document it holds,
/// or the reason why it holds none.
pub uninterp spec fn parsed_json(raw: Seq<u8>) -> Result<Map<Seq<char>, Member>, Fault>;

/// The member under `pointer`, if there is one.
pub open spec fn member_at(all: Map<Seq<char>, Member>, pointer: Seq<char>) -> Option<Member> {
    if all.dom().contains(pointer) {
        Some(all[pointer])
    } else {
        None
    }
}

/// `serde_json::from_slice` into a `serde_json::Value`, and on failure
/// `serde_json::Error::classify`. The document or the fault is a function of
/// the bytes alone; the contract names it.
#[verifier::external_body]
pub(crate) fn parse(raw: &[u8]) -> (r: Result<serde_json::Value, Fault>)
    ensures
        match r {
            Ok(doc) => parsed_json(raw@) == Ok::<Map<Seq<char>, Member>, Fault>(members(doc)),
            Err(fault) => parsed_json(raw@) == Err::<Map<Seq<char>, Member>, Fault>(fault),
        },
{
    match serde_json::from_slice::<serde_json::Value>(raw) {
        Ok(doc) => Ok(doc),
        Err(error) => Err(
            match error.classify() {
                serde_json::error::Category::Syntax => Fault::Syntax,
                serde_json::error::Category::Eof => Fault::Eof,
                serde_json::error::Category::Data => Fault::Data,
                serde_json::error::Category::Io => Fault::Io,
            },
        ),
    }
}

/// `serde_json::Value::pointer`: the value that the document holds under
/// `pointer`, if it holds one.
#[verifier::external_body]
pub(crate) fn lookup<'a>(doc: &'a serde_json::Value, pointer: &str) -> (r: Option<
    &'a serde_json::Value,
>)
    ensures
        match r {
            Some(value) => member_at(members(*doc), pointer@) == Some(member_of(*value)),
            None => member_at(members(*doc), pointer@) is None,
        },
{
    doc.pointer(pointer)
}

/// `serde_json::Value::as_u64`: the value if it is a whole number from zero to
/// `u64::MAX`.
#[verifier::external_body]
pub(crate) fn as_unsigned(value: &serde_json::Value) -> (r: Option<u64>)
    ensures
        r == member_of(*value).unsigned,
{
    value.as_u64()
}

/// `serde_json::Value::as_str`: the value if it is a string.
#[verifier::external_body]
pub(crate) fn as_text(value: &serde_json::Value) -> (r: Option<String>)
    ensures
        match r {
            Some(text) => member_of(*value).text == Some(text@),
            None => member_of(*value).text is None,
        },
{
    value.as_str().map(str::to_owned)
}

/// `serde_with::DurationMilliSecondsWithFrac` as a reader of
/// `std::time::Duration`: the span that a number of milliseconds, whole or
/// fractional, comes to.
#[verifier::external_body]
pub(crate) fn as_fractional_millis(value: &serde_json::Value) -> (r: Option<TimeSpan>)
    ensures
        span_nanos(r) == member_of(*value).fractional_millis,
{
    let span: core::time::Duration = <serde_with::DurationMilliSecondsWithFrac as serde_with::DeserializeAs<
        core::time::Duration,
    >>::deserialize_as(value).ok()?;
    TimeSpan::new(span.as_secs(), span.subsec_nanos())
}

/// `serde_json::Value::as_f64`: the value if it is a number, as the bits of
/// the double that stands for it.
#[verifier::external_body]
pub(crate) fn as_double_bits(value: &serde_json::Value) -> (r: Option<u64>)
    ensures
        r == member_of(*value).double_bits,
{
    value.as_f64().map(|number| number.to_bits())
}

} // verus!
