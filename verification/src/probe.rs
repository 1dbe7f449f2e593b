//! What a probe can come to: the raw result of the command it ran, the kinds
//! of failure, and the rule that tells them apart.

use crate::ascii::{ascii, ascii_bytes, contains_word, mentions};
use crate::time::TimeSpan;
use vstd::prelude::*;
use vstd::string::StringExecFns;

verus! {

/// Why a probe failed. Each kind has one label, so the set of labels that the
/// probes of one host can produce is bounded by the kinds.
#[derive(Clone, Debug)]
pub enum FailureKind {
    /// The command did not finish in time, or said that its target did not
    /// answer in time.
    Timeout,
    /// The command could not resolve the name of its target.
    UnknownHost,
    /// The command was not allowed to do its work.
    PermissionDenied,
    /// The command failed and gave no reason that is recognised.
    NonZeroExit,
    /// The command succeeded and its output held no reading.
    ParseError,
    /// The command could not be run. The field is the operating system's
    /// description of the class of error, such as `entity not found`.
    IoError(String),
}

/// What a command left behind when it ended.
#[derive(Debug)]
pub struct RawOutput {
    /// Whether the command ended with exit status zero.
    pub exit_ok: bool,
    /// What it wrote to standard output.
    pub stdout: Vec<u8>,
    /// What it wrote to standard error.
    pub stderr: Vec<u8>,
}

/// What became of a command that a probe wanted to run.
#[derive(Debug)]
pub enum Ending {
    /// It could not be run, or not be waited for. The field is the operating
    /// system's description of the class of error, such as `entity not found`.
    NotRun(String),
    /// It was still running when its time was up, and was given up.
    Overdue,
    /// It ran to its end.
    Ended(RawOutput),
}

/// The outcome of one probe of one target.
#[derive(Clone, Debug)]
pub enum ProbeOutcome {
    /// The target answered after the given time.
    Success(TimeSpan),
    /// There is no reading, for the given reason.
    Failure(FailureKind),
}

/// `word` occurs in one of the two streams, case ignored.
pub open spec fn either_mentions(stdout: Seq<u8>, stderr: Seq<u8>, word: Seq<char>) -> bool {
    mentions(stdout, ascii(word)) || mentions(stderr, ascii(word))
}

/// The kind of failure of a command that ended with a status other than zero,
/// judged by what it wrote: the first of `timed out` or `timeout`, `unknown
/// host`, `permission` that occurs in either stream decides, and without any of
/// them the failure is a plain [`FailureKind::NonZeroExit`].
pub open spec fn exit_failure(stdout: Seq<u8>, stderr: Seq<u8>) -> FailureKind {
    if either_mentions(stdout, stderr, "timed out"@) || either_mentions(
        stdout,
        stderr,
        "timeout"@,
    ) {
        FailureKind::Timeout
    } else if either_mentions(stdout, stderr, "unknown host"@) {
        FailureKind::UnknownHost
    } else if either_mentions(stdout, stderr, "permission"@) {
        FailureKind::PermissionDenied
    } else {
        FailureKind::NonZeroExit
    }
}

/// A command that failed and wrote none of the words that tell a kind of
/// failure, such as one that only reported its target as unreachable, failed
/// plainly: not with a timeout, and not with any other kind.
pub proof fn law_unexplained_failure_is_plain(stdout: Seq<u8>, stderr: Seq<u8>)
    requires
        !either_mentions(stdout, stderr, "timed out"@),
        !either_mentions(stdout, stderr, "timeout"@),
        !either_mentions(stdout, stderr, "unknown host"@),
        !either_mentions(stdout, stderr, "permission"@),
    ensures
        exit_failure(stdout, stderr) == FailureKind::NonZeroExit,
{
}

/// Whether `word`, which has to be written in lower-case ASCII, occurs in one
/// of the two streams.
fn in_either(stdout: &[u8], stderr: &[u8], word: &str) -> (r: bool)
    requires
        word.is_ascii(),
    ensures
        r == either_mentions(stdout@, stderr@, word@),
{
    let bytes = ascii_bytes(word);
    contains_word(stdout, bytes) || contains_word(stderr, bytes)
}

/// The kind of failure of a command that ended with a status other than zero.
pub fn classify_exit(stdout: &[u8], stderr: &[u8]) -> (kind: FailureKind)
    ensures
        kind == exit_failure(stdout@, stderr@),
{
    proof {
        reveal_strlit("timed out");
        reveal_strlit("timeout");
        reveal_strlit("unknown host");
        reveal_strlit("permission");
    }
    if in_either(stdout, stderr, "timed out") || in_either(stdout, stderr, "timeout") {
        FailureKind::Timeout
    } else if in_either(stdout, stderr, "unknown host") {
        FailureKind::UnknownHost
    } else if in_either(stdout, stderr, "permission") {
        FailureKind::PermissionDenied
    } else {
        FailureKind::NonZeroExit
    }
}

/// What the executor hands on: the standard output of a command that ended
/// with exit status zero, and in every other case the kind of the failure. A
/// command that could not be run failed with the class of its error, one that
/// was overdue with a timeout, and one that ended with another status is
/// judged by what it wrote.
pub open spec fn settled(ending: Ending) -> Result<Seq<u8>, FailureKind> {
    match ending {
        Ending::NotRun(class) => Err(FailureKind::IoError(class)),
        Ending::Overdue => Err(FailureKind::Timeout),
        Ending::Ended(output) => if output.exit_ok {
            Ok(output.stdout@)
        } else {
            Err(exit_failure(output.stdout@, output.stderr@))
        },
    }
}

/// What the executor hands on: the standard output for the parser, or the
/// kind of the failure.
pub fn settle(ending: Ending) -> (r: Result<Vec<u8>, FailureKind>)
    ensures
        match r {
            Ok(stdout) => settled(ending) == Ok::<Seq<u8>, FailureKind>(stdout@),
            Err(kind) => settled(ending) == Err::<Seq<u8>, FailureKind>(kind),
        },
{
    match ending {
        Ending::NotRun(class) => Err(FailureKind::IoError(class)),
        Ending::Overdue => Err(FailureKind::Timeout),
        Ending::Ended(output) => if output.exit_ok {
            Ok(output.stdout)
        } else {
            Err(classify_exit(output.stdout.as_slice(), output.stderr.as_slice()))
        },
    }
}

/// What `heck` makes of a text when it rewrites it in snake case.
pub uninterp spec fn snake_case_of(text: Seq<char>) -> Seq<char>;

/// `heck::ToSnakeCase::to_snake_case` on `str`: the words of the text in lower
/// case, joined by underscores. Where the words begin and end is decided by
/// `heck` over all of Unicode; the contract names the result and says no more.
#[verifier::external_body]
fn snake_case(text: &str) -> (r: String)
    ensures
        r@ == snake_case_of(text@),
{
    heck::ToSnakeCase::to_snake_case(text)
}

/// The label of a failure whose cause is given in snake case: the family, an
/// underscore, the cause.
pub fn compound_label(family: &str, cause: &str) -> (label: String)
    ensures
        label@ == family@ + "_"@ + cause@,
{
    let mut label = String::from_str(family);
    label.append("_");
    label.append(cause);
    label
}

impl FailureKind {
    /// The label under which failures of this kind are counted.
    pub open spec fn label_of(self) -> Seq<char> {
        match self {
            FailureKind::Timeout => "timeout"@,
            FailureKind::UnknownHost => "unknown_host"@,
            FailureKind::PermissionDenied => "permission_denied"@,
            FailureKind::NonZeroExit => "nonzero_exit"@,
            FailureKind::ParseError => "parse_error"@,
            FailureKind::IoError(class) => "io_error"@ + "_"@ + snake_case_of(class@),
        }
    }

    /// The label under which failures of this kind are counted: a fixed word
    /// for each kind, and for [`FailureKind::IoError`] the words `io_error`
    /// followed by the class of error in snake case.
    pub fn label(&self) -> (label: String)
        ensures
            label@ == self.label_of(),
    {
        match self {
            FailureKind::Timeout => String::from_str("timeout"),
            FailureKind::UnknownHost => String::from_str("unknown_host"),
            FailureKind::PermissionDenied => String::from_str("permission_denied"),
            FailureKind::NonZeroExit => String::from_str("nonzero_exit"),
            FailureKind::ParseError => String::from_str("parse_error"),
            FailureKind::IoError(class) => {
                let cause = snake_case(class.as_str());
                compound_label("io_error", cause.as_str())
            },
        }
    }
}

} // verus!
