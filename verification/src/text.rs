//! Text handling: trimming, and the normal form of a capture time.

use vstd::prelude::*;
use vstd::string::*;

verus! {

/// `String::push` appends the character to the end of the text.
pub assume_specification[ String::push ](text: &mut String, c: char)
    ensures
        final(text)@ == old(text)@.push(c),
;

/// Whether `c` is white space: the code points that Unicode gives the
/// property `White_Space`.
pub open spec fn is_whitespace(c: char) -> bool {
    let n = c as u32;
    ||| 0x09 <= n <= 0x0D
    ||| n == 0x20
    ||| n == 0x85
    ||| n == 0xA0
    ||| n == 0x1680
    ||| 0x2000 <= n <= 0x200A
    ||| n == 0x2028
    ||| n == 0x2029
    ||| n == 0x202F
    ||| n == 0x205F
    ||| n == 0x3000
}

/// Whether `c` is white space.
pub fn char_is_whitespace(c: char) -> (b: bool)
    ensures
        b == is_whitespace(c),
{
    let n: u32 = c as u32;
    (0x09 <= n && n <= 0x0D) || n == 0x20 || n == 0x85 || n == 0xA0 || n == 0x1680 || (0x2000 <= n
        && n <= 0x200A) || n == 0x2028 || n == 0x2029 || n == 0x202F || n == 0x205F || n == 0x3000
}

/// Whether `text.subrange(from, to)` is `text` without the white space at
/// its two ends: all that lies outside the range is white space, and the
/// range is empty or begins and ends with something else.
pub open spec fn is_trim_of(text: Seq<char>, from: int, to: int) -> bool {
    &&& 0 <= from <= to <= text.len()
    &&& forall|i: int| 0 <= i < from ==> is_whitespace(#[trigger] text[i])
    &&& forall|i: int| to <= i < text.len() ==> is_whitespace(#[trigger] text[i])
    &&& from < to ==> !is_whitespace(text[from]) && !is_whitespace(text[to - 1])
}

/// `text` without the white space at its two ends.
pub open spec fn trimmed(text: Seq<char>) -> Seq<char> {
    let (from, to) = choose|from: int, to: int| is_trim_of(text, from, to);
    text.subrange(from, to)
}

/// Two ranges that both are the trim of one text hold the same characters.
pub proof fn lemma_trim_unique(text: Seq<char>, a: int, b: int, c: int, d: int)
    requires
        is_trim_of(text, a, b),
        is_trim_of(text, c, d),
    ensures
        text.subrange(a, b) == text.subrange(c, d),
{
}

/// `range` is what [`trimmed`] gives.
pub proof fn lemma_trimmed_is(text: Seq<char>, from: int, to: int)
    requires
        is_trim_of(text, from, to),
    ensures
        trimmed(text) == text.subrange(from, to),
{
    let (a, b) = choose|a: int, b: int| is_trim_of(text, a, b);
    lemma_trim_unique(text, a, b, from, to);
}

/// `text` without the white space at its two ends.
pub fn trim(text: &str) -> (out: String)
    ensures
        out@ == trimmed(text@),
{
    let n = text.unicode_len();
    let mut from: usize = 0;
    let mut to: usize = 0;
    let mut i: usize = 0;
    for c in it: text.chars()
        invariant
            it.seq() == text@,
            n == text@.len(),
            i == it.index(),
            i <= n,
            is_trim_of(text@.take(i as int), from as int, to as int),
            from == to ==> from == i,
    {
        if !char_is_whitespace(c) {
            if from == to {
                from = i;
            }
            to = i + 1;
        } else if from == to {
            from = i + 1;
            to = i + 1;
        }
        i = i + 1;
    }
    proof {
        assert(text@.take(n as int) == text@);
        lemma_trimmed_is(text@, from as int, to as int);
    }
    String::from_str(text.substring_char(from, to))
}

/// Whether `c` parts the date from the time: a space, or the letter `T`.
pub open spec fn is_separator(c: char) -> bool {
    c == ' ' || c == 'T'
}

/// Whether `text` holds a separator at `at` and nowhere else.
pub open spec fn splits_at(text: Seq<char>, at: int) -> bool {
    &&& 0 <= at < text.len()
    &&& is_separator(text[at])
    &&& forall|i: int| 0 <= i < text.len() && i != at ==> !is_separator(#[trigger] text[i])
}

/// A character of the date: a colon becomes a hyphen.
pub open spec fn date_char(c: char) -> char {
    if c == ':' {
        '-'
    } else {
        c
    }
}

/// The date before `at` with hyphens for its colons, the letter `T`, and the
/// time after `at` as it is.
pub open spec fn joined_at(text: Seq<char>, at: int) -> Seq<char> {
    text.take(at).map_values(|c: char| date_char(c)) + seq!['T'] + text.skip(at + 1)
}

/// The normal form of a capture time.
///
/// A text with exactly one separator is a date and a time: the date with
/// hyphens for its colons, the letter `T`, and the time unchanged. Any
/// other text is left as it is.
pub open spec fn normalized_datetime(text: Seq<char>) -> Seq<char> {
    if exists|at: int| splits_at(text, at) {
        joined_at(text, choose|at: int| splits_at(text, at))
    } else {
        text
    }
}

/// Brings a capture time as cameras write it, `YYYY:MM:DD HH:MM:SS`, into
/// the form `YYYY-MM-DDTHH:MM:SS`: the separating space becomes the letter
/// `T`, the colons of the date become hyphens, and the time stays as it is.
///
/// A text that is not one date and one time comes back unchanged.
pub fn normalize_datetime(raw: &str) -> (text: String)
    ensures
        text@ == normalized_datetime(raw@),
        (forall|at: int| !splits_at(raw@, at)) ==> text@ == raw@,
{
    let mut out = String::new();
    let mut separators: u8 = 0;
    let ghost mut at: int = 0;
    let ghost mut second: int = 0;
    for c in it: raw.chars()
        invariant
            it.seq() == raw@,
            separators <= 2,
            separators == 0 ==> {
                &&& forall|i: int| 0 <= i < it.index() ==> !is_separator(#[trigger] raw@[i])
                &&& out@ == raw@.take(it.index() as int).map_values(|c: char| date_char(c))
            },
            separators == 1 ==> {
                &&& splits_at(raw@.take(it.index() as int), at)
                &&& out@ == joined_at(raw@.take(it.index() as int), at)
            },
            separators == 2 ==> {
                &&& 0 <= at < second < it.index()
                &&& is_separator(raw@[at])
                &&& is_separator(raw@[second])
            },
    {
        if c == ' ' || c == 'T' {
            if separators == 0 {
                out.push('T');
                separators = 1;
                proof {
                    at = it.index() as int;
                }
            } else {
                proof {
                    if separators == 1 {
                        second = it.index() as int;
                    }
                }
                separators = 2;
            }
        } else if separators == 0 {
            out.push(if c == ':' { '-' } else { c });
        } else if separators == 1 {
            out.push(c);
        }
    }
    assert(raw@.take(raw@.len() as int) == raw@);
    if separators == 1 {
        out
    } else {
        raw.to_owned()
    }
}

/// A capture time that is not one date and one time is left unchanged.
pub proof fn lemma_unsplit_datetime_unchanged(text: Seq<char>)
    requires
        forall|at: int| !splits_at(text, at),
    ensures
        normalized_datetime(text) == text,
{
}

/// The characters of `text`, one by one.
pub fn chars_of(text: &str) -> (chars: Vec<char>)
    ensures
        chars@ == text@,
{
    let mut chars: Vec<char> = Vec::new();
    for c in it: text.chars()
        invariant
            it.seq() == text@,
            chars@ == text@.take(it.index() as int),
    {
        chars.push(c);
    }
    chars
}

/// Whether `text` is the single character `c`.
pub fn is_char(text: &str, c: char) -> (b: bool)
    ensures
        b == (text@ == seq![c]),
{
    let same = text.unicode_len() == 1 && text.get_char(0) == c;
    assert(same ==> text@ =~= seq![c]);
    same
}

} // verus!
