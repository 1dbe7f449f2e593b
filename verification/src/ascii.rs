//! Bytes read as ASCII text: character classes, runs of one class, and words
//! matched without regard to case.

use vstd::prelude::*;
use vstd::string::is_ascii_spec_bytes;

verus! {

/// `0`
pub const ZERO: u8 = 48;

/// `5`
pub const FIVE: u8 = 53;

/// `9`
pub const NINE: u8 = 57;

/// `.`
pub const DOT: u8 = 46;

/// `=`
pub const EQUALS: u8 = 61;

/// `<`
pub const LESS: u8 = 60;

/// `/`
pub const SLASH: u8 = 47;

/// `-`
pub const HYPHEN: u8 = 45;

/// `+`
pub const PLUS: u8 = 43;

/// The space character.
pub const SPACE: u8 = 32;

/// A decimal digit.
pub open spec fn is_digit(b: u8) -> bool {
    ZERO <= b <= NINE
}

/// ASCII whitespace: space, tab, line feed, vertical tab, form feed, carriage
/// return.
pub open spec fn is_space(b: u8) -> bool {
    b == SPACE || 9 <= b <= 13
}

/// The byte with an upper-case ASCII letter replaced by its lower-case form.
pub open spec fn lower(b: u8) -> u8 {
    if 65 <= b <= 90 {
        (b + 32) as u8
    } else {
        b
    }
}

/// The lower-case form of `b`.
pub fn to_lower(b: u8) -> (r: u8)
    ensures
        r == lower(b),
{
    if 65 <= b && b <= 90 {
        b + 32
    } else {
        b
    }
}

/// The classes of bytes that the grammars are built from.
#[derive(Clone, Copy, Debug, PartialEq, Eq, Structural)]
pub enum ByteClass {
    /// A decimal digit.
    Digit,
    /// ASCII whitespace.
    Space,
    /// A decimal digit or a dot.
    Numeric,
    /// Any byte but `=`.
    NotEquals,
}

impl ByteClass {
    /// Whether `b` belongs to the class.
    pub open spec fn holds(self, b: u8) -> bool {
        match self {
            ByteClass::Digit => is_digit(b),
            ByteClass::Space => is_space(b),
            ByteClass::Numeric => is_digit(b) || b == DOT,
            ByteClass::NotEquals => b != EQUALS,
        }
    }

    /// Whether `b` belongs to the class.
    pub fn contains(&self, b: u8) -> (r: bool)
        ensures
            r == self.holds(b),
    {
        match self {
            ByteClass::Digit => ZERO <= b && b <= NINE,
            ByteClass::Space => b == SPACE || (9 <= b && b <= 13),
            ByteClass::Numeric => (ZERO <= b && b <= NINE) || b == DOT,
            ByteClass::NotEquals => b != EQUALS,
        }
    }
}

/// Every byte of `text` from `from` up to `to` belongs to `class`.
pub open spec fn all_in(text: Seq<u8>, from: int, to: int, class: ByteClass) -> bool {
    forall|k: int| from <= k < to ==> class.holds(#[trigger] text[k])
}

/// Where the longest run of `class` bytes that starts at `i` ends. It is `i`
/// itself when no such byte stands at `i`.
pub open spec fn run_end(text: Seq<u8>, i: int, class: ByteClass) -> int
    decreases text.len() - i,
{
    if 0 <= i < text.len() && class.holds(text[i]) {
        run_end(text, i + 1, class)
    } else {
        i
    }
}

/// A run ends at the first byte outside the class, or at the end of the text.
pub proof fn lemma_run_end_is(text: Seq<u8>, i: int, n: int, class: ByteClass)
    requires
        0 <= i <= n <= text.len(),
        all_in(text, i, n, class),
        n == text.len() || !class.holds(text[n]),
    ensures
        run_end(text, i, class) == n,
    decreases n - i,
{
    if i < n {
        assert(class.holds(text[i]));
        lemma_run_end_is(text, i + 1, n, class);
    }
}

/// What holds of every run: it lies inside the text, is made of bytes of the
/// class, and cannot be extended.
pub proof fn lemma_run_end_bounds(text: Seq<u8>, i: int, class: ByteClass)
    requires
        0 <= i <= text.len(),
    ensures
        i <= run_end(text, i, class) <= text.len(),
        all_in(text, i, run_end(text, i, class), class),
        run_end(text, i, class) == text.len() || !class.holds(text[run_end(text, i, class)]),
    decreases text.len() - i,
{
    if i < text.len() && class.holds(text[i]) {
        lemma_run_end_bounds(text, i + 1, class);
    }
}

/// A run inside a slice of the text ends where the run in the whole text ends,
/// unless the slice ends first.
pub proof fn lemma_run_end_subrange(text: Seq<u8>, a: int, b: int, i: int, class: ByteClass)
    requires
        0 <= a <= i <= b <= text.len(),
    ensures
        run_end(text.subrange(a, b), i - a, class) + a == if run_end(text, i, class) < b {
            run_end(text, i, class)
        } else {
            b
        },
    decreases b - i,
{
    let part = text.subrange(a, b);
    lemma_run_end_bounds(text, i, class);
    if i < b {
        assert(part[i - a] == text[i]);
        if class.holds(text[i]) {
            lemma_run_end_subrange(text, a, b, i + 1, class);
        }
    }
}

/// The end of the longest run of `class` bytes that starts at `i`.
pub fn skip_run(text: &[u8], i: usize, class: ByteClass) -> (end: usize)
    requires
        i <= text.len(),
    ensures
        end == run_end(text@, i as int, class),
        i <= end <= text.len(),
{
    let mut k: usize = i;
    while k < text.len() && class.contains(text[k])
        invariant
            i <= k <= text.len(),
            all_in(text@, i as int, k as int, class),
        decreases text.len() - k,
    {
        k += 1;
    }
    proof {
        lemma_run_end_is(text@, i as int, k as int, class);
    }
    k
}

/// `word`, written in lower case, stands in `text` at `i` in any mix of upper
/// and lower case.
pub open spec fn word_at(text: Seq<u8>, i: int, word: Seq<u8>) -> bool {
    &&& 0 <= i
    &&& i + word.len() <= text.len()
    &&& forall|k: int| 0 <= k < word.len() ==> lower(#[trigger] text[i + k]) == word[k]
}

/// Whether `word` stands in `text` at `i`, case ignored.
pub fn has_word_at(text: &[u8], i: usize, word: &[u8]) -> (r: bool)
    ensures
        r == word_at(text@, i as int, word@),
{
    if word.len() > text.len() || i > text.len() - word.len() {
        return false;
    }
    let mut k: usize = 0;
    while k < word.len()
        invariant
            k <= word.len(),
            i + word.len() <= text.len(),
            forall|j: int| 0 <= j < k ==> lower(#[trigger] text@[i + j]) == word@[j],
        decreases word.len() - k,
    {
        if to_lower(text[i + k]) != word[k] {
            return false;
        }
        k += 1;
    }
    true
}

/// `word`, written in lower case, occurs somewhere in `text`, case ignored.
pub open spec fn mentions(text: Seq<u8>, word: Seq<u8>) -> bool {
    exists|i: int| word_at(text, i, word)
}

/// Whether `word` occurs somewhere in `text`, case ignored.
pub fn contains_word(text: &[u8], word: &[u8]) -> (r: bool)
    ensures
        r == mentions(text@, word@),
{
    if word.len() > text.len() {
        assert(forall|i: int| !word_at(text@, i, word@));
        return false;
    }
    let last: usize = text.len() - word.len();
    let mut i: usize = 0;
    while i <= last
        invariant
            i <= last + 1,
            last == text.len() - word.len(),
            forall|j: int| j < i ==> !word_at(text@, j, word@),
        decreases last + 1 - i,
    {
        if has_word_at(text, i, word) {
            return true;
        }
        i += 1;
    }
    assert(forall|j: int| !word_at(text@, j, word@));
    false
}

/// The bytes of a word written in ASCII.
pub open spec fn ascii(word: Seq<char>) -> Seq<u8> {
    Seq::new(word.len(), |i: int| word[i] as u8)
}

/// The bytes of `word`, which has to be written in ASCII.
pub fn ascii_bytes(word: &str) -> (bytes: &[u8])
    requires
        word.is_ascii(),
    ensures
        bytes@ == ascii(word@),
{
    broadcast use is_ascii_spec_bytes;

    word.as_bytes()
}

} // verus!
