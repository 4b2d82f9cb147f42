//! Small helpers on strings.
use vstd::prelude::*;
use vstd::string::*;

verus! {

/// `str::eq`: whether two string slices hold the same characters.
#[verifier::external_body]
pub(crate) fn same_text(left: &str, right: &str) -> (same: bool)
    ensures
        same == (left@ == right@),
{
    left.eq(right)
}

/// `head` followed by `tail`.
pub fn join2(head: &str, tail: &str) -> (joined: String)
    ensures
        joined@ == head@ + tail@,
{
    String::from_str(head).concat(tail)
}

/// `first`, `second` and `third`, one after the other.
pub fn join3(first: &str, second: &str, third: &str) -> (joined: String)
    ensures
        joined@ == first@ + second@ + third@,
{
    String::from_str(first).concat(second).concat(third)
}

/// Whether `needle` occurs in `haystack` as a run of neighbouring characters.
pub open spec fn occurs_in(needle: Seq<char>, haystack: Seq<char>) -> bool {
    exists|start: int|
        0 <= start <= haystack.len() - needle.len() && #[trigger] haystack.subrange(
            start,
            start + needle.len(),
        ) == needle
}

/// Whether `text` begins with `prefix`.
pub open spec fn begins_with(text: Seq<char>, prefix: Seq<char>) -> bool {
    prefix.len() <= text.len() && text.subrange(0, prefix.len() as int) == prefix
}

/// Whether `text` ends with `suffix`.
pub open spec fn ends_with(text: Seq<char>, suffix: Seq<char>) -> bool {
    suffix.len() <= text.len() && text.subrange(text.len() - suffix.len(), text.len() as int)
        == suffix
}

/// What `str::to_lowercase` makes of a text.
pub uninterp spec fn lowercase(text: Seq<char>) -> Seq<char>;

/// `str::to_lowercase`.
#[verifier::external_body]
pub(crate) fn to_lowercase(text: &str) -> (lowered: String)
    ensures
        lowered@ == lowercase(text@),
{
    text.to_lowercase()
}

/// `str::contains` with a string pattern: whether the pattern matches a
/// sub-slice of the text.
#[verifier::external_body]
pub(crate) fn text_contains(haystack: &str, needle: &str) -> (found: bool)
    ensures
        found == occurs_in(needle@, haystack@),
{
    haystack.contains(needle)
}

/// `str::ends_with` with a string pattern.
#[verifier::external_body]
pub(crate) fn text_ends_with(text: &str, suffix: &str) -> (found: bool)
    ensures
        found == ends_with(text@, suffix@),
{
    text.ends_with(suffix)
}

/// `text` without the characters `c` that it begins with.
pub open spec fn without_leading(text: Seq<char>, c: char) -> Seq<char>
    decreases text.len(),
{
    if text.len() > 0 && text[0] == c {
        without_leading(text.subrange(1, text.len() as int), c)
    } else {
        text
    }
}

/// How many characters `c` stand at the beginning of `text`.
pub fn leading_count(text: &str, c: char) -> (count: usize)
    ensures
        count <= text@.len(),
        without_leading(text@, c) == text@.subrange(count as int, text@.len() as int),
{
    let length = text.unicode_len();
    let mut count: usize = 0;
    assert(text@.subrange(0, length as int) =~= text@);
    while count < length
        invariant
            length == text@.len(),
            count <= length,
            without_leading(text@, c) == without_leading(
                text@.subrange(count as int, length as int),
                c,
            ),
        decreases length - count,
    {
        if text.get_char(count) != c {
            return count;
        }
        proof {
            let rest = text@.subrange(count as int, length as int);
            assert(rest[0] == c);
            assert(rest.subrange(1, rest.len() as int) =~= text@.subrange(
                count + 1,
                length as int,
            ));
        }
        count = count + 1;
    }
    assert(text@.subrange(count as int, length as int).len() == 0);
    count
}

/// Whether `left` and `right` are the same once the characters `c` that
/// they begin with are taken off.
pub fn same_without_leading(left: &str, right: &str, c: char) -> (same: bool)
    ensures
        same == (without_leading(left@, c) == without_leading(right@, c)),
{
    let left_rest = left.substring_char(leading_count(left, c), left.unicode_len());
    let right_rest = right.substring_char(leading_count(right, c), right.unicode_len());
    same_text(left_rest, right_rest)
}

/// Whether a character is whitespace: one of the code points with the
/// Unicode property `White_Space`.
pub open spec fn is_whitespace(c: char) -> bool {
    ||| c == '\u{0009}'
    ||| c == '\u{000A}'
    ||| c == '\u{000B}'
    ||| c == '\u{000C}'
    ||| c == '\u{000D}'
    ||| c == '\u{0020}'
    ||| c == '\u{0085}'
    ||| c == '\u{00A0}'
    ||| c == '\u{1680}'
    ||| c == '\u{2000}'
    ||| c == '\u{2001}'
    ||| c == '\u{2002}'
    ||| c == '\u{2003}'
    ||| c == '\u{2004}'
    ||| c == '\u{2005}'
    ||| c == '\u{2006}'
    ||| c == '\u{2007}'
    ||| c == '\u{2008}'
    ||| c == '\u{2009}'
    ||| c == '\u{200A}'
    ||| c == '\u{2028}'
    ||| c == '\u{2029}'
    ||| c == '\u{202F}'
    ||| c == '\u{205F}'
    ||| c == '\u{3000}'
}

/// `char::is_whitespace`, which tells whether a character has the Unicode
/// property `White_Space`.
#[verifier::external_body]
pub(crate) fn char_is_whitespace(c: char) -> (white: bool)
    ensures
        white == is_whitespace(c),
{
    c.is_whitespace()
}

/// How many characters of `text`, from `from` on, satisfy `white ==
/// is_whitespace`, before the first that does not.
pub open spec fn run_length(text: Seq<char>, from: int, white: bool) -> int
    decreases text.len() - from,
{
    if 0 <= from < text.len() && is_whitespace(text[from]) == white {
        1 + run_length(text, from + 1, white)
    } else {
        0
    }
}

/// The first word of `text`: after the whitespace that `text` begins with,
/// the characters up to the next whitespace or to the end. `None` where
/// `text` holds nothing but whitespace.
pub open spec fn first_word(text: Seq<char>) -> Option<Seq<char>> {
    let start = run_length(text, 0, true);
    let length = run_length(text, start, false);
    if length == 0 {
        None
    } else {
        Some(text.subrange(start, start + length))
    }
}

/// The end of the run of characters of `text` that begins at `from` and
/// whose members satisfy `white == is_whitespace`.
fn run_end(text: &str, from: usize, white: bool) -> (end: usize)
    requires
        from <= text@.len(),
    ensures
        from <= end <= text@.len(),
        end - from == run_length(text@, from as int, white),
{
    let length = text.unicode_len();
    let mut end: usize = from;
    while end < length
        invariant
            length == text@.len(),
            from <= end <= length,
            run_length(text@, from as int, white) == (end - from) + run_length(
                text@,
                end as int,
                white,
            ),
        decreases length - end,
    {
        if char_is_whitespace(text.get_char(end)) != white {
            return end;
        }
        end = end + 1;
    }
    end
}

/// The first word of `text`.
pub fn first_word_of(text: &str) -> (word: Option<String>)
    ensures
        match word {
            Some(found) => first_word(text@) == Some(found@),
            None => first_word(text@) is None,
        },
{
    let start = run_end(text, 0, true);
    let end = run_end(text, start, false);
    if end == start {
        None
    } else {
        Some(String::from_str(text.substring_char(start, end)))
    }
}

} // verus!
