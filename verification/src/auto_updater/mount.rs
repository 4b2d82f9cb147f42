//! Reading what `hdiutil attach` prints: where a disk image was mounted.
use crate::text::begins_with;
use crate::text::char_is_whitespace;
use crate::text::is_whitespace;
use crate::text::join2;
use crate::text::join3;
use vstd::prelude::*;
use vstd::string::*;

verus! {

/// What `String::from_utf8_lossy` makes of bytes.
pub uninterp spec fn lossy_text(bytes: Seq<u8>) -> Seq<char>;

/// `String::from_utf8_lossy`.
#[verifier::external_body]
fn text_from_utf8_lossy(bytes: &[u8]) -> (text: String)
    ensures
        text@ == lossy_text(bytes@),
{
    String::from_utf8_lossy(bytes).into_owned()
}

/// Whether a character ends a field of the output: fields are separated by
/// tabs and by line feeds.
pub open spec fn is_break(c: char) -> bool {
    c == '\n' || c == '\t'
}

/// Where the field that ends before `end` starts: after the last break
/// before `end`, or at the beginning.
pub open spec fn field_start(text: Seq<char>, end: int) -> int
    decreases end,
{
    if end <= 0 || end > text.len() {
        0
    } else if is_break(text[end - 1]) {
        end
    } else {
        field_start(text, end - 1)
    }
}

/// Where the text between `from` and `to` starts once the whitespace at its
/// beginning is left out.
pub open spec fn after_whitespace(text: Seq<char>, from: int, to: int) -> int
    decreases to - from,
{
    if 0 <= from < to <= text.len() && is_whitespace(text[from]) {
        after_whitespace(text, from + 1, to)
    } else {
        from
    }
}

/// Where the text between `from` and `to` ends once the whitespace at its
/// end is left out.
pub open spec fn before_whitespace(text: Seq<char>, from: int, to: int) -> int
    decreases to - from,
{
    if 0 <= from < to <= text.len() && is_whitespace(text[to - 1]) {
        before_whitespace(text, from, to - 1)
    } else {
        to
    }
}

/// The text between `from` and `to` without the whitespace around it.
pub open spec fn trimmed(text: Seq<char>, from: int, to: int) -> Seq<char> {
    let start = after_whitespace(text, from, to);
    text.subrange(start, before_whitespace(text, start, to))
}

/// The field that ends before `end` starts at or before `end`.
pub proof fn lemma_field_start_bounds(text: Seq<char>, end: int)
    ensures
        0 <= field_start(text, end),
        0 <= end ==> field_start(text, end) <= end,
    decreases end,
{
    if !(end <= 0 || end > text.len()) && !is_break(text[end - 1]) {
        lemma_field_start_bounds(text, end - 1);
    }
}

/// The volume that the fields of `text` before `end` name: the last of them
/// that, without the whitespace around it, begins with `/Volumes/`.
pub open spec fn volume_before(text: Seq<char>, end: int) -> Option<Seq<char>>
    decreases end,
{
    if end < 0 || end > text.len() {
        None
    } else {
        let start = field_start(text, end);
        let field = trimmed(text, start, end);
        if begins_with(field, "/Volumes/"@) {
            Some(field)
        } else if start <= 0 {
            None
        } else {
            proof {
                lemma_field_start_bounds(text, end);
            }
            volume_before(text, start - 1)
        }
    }
}

/// The volume that the output `text` of `hdiutil attach` names: of its
/// fields, which tabs and line feeds separate, the last that, without the
/// whitespace around it, begins with `/Volumes/`.
pub open spec fn volume_path_of(text: Seq<char>) -> Option<Seq<char>> {
    volume_before(text, text.len() as int)
}

/// What is said when the output names no volume.
pub open spec fn no_mount_point_text(text: Seq<char>) -> Seq<char> {
    "Failed to find mount point in hdiutil output. Output was:\n"@ + text
}

/// The characters of `text`, one by one.
fn chars_of(text: &str) -> (chars: Vec<char>)
    ensures
        chars@ == text@,
{
    let length = text.unicode_len();
    let mut chars: Vec<char> = Vec::new();
    let mut index: usize = 0;
    while index < length
        invariant
            length == text@.len(),
            index <= length,
            chars@ == text@.subrange(0, index as int),
        decreases length - index,
    {
        chars.push(text.get_char(index));
        assert(chars@ =~= text@.subrange(0, index + 1));
        index = index + 1;
    }
    assert(text@.subrange(0, length as int) =~= text@);
    chars
}

/// Whether the characters between `from` and `to` begin with `prefix`.
fn range_begins_with(chars: &Vec<char>, from: usize, to: usize, prefix: &str) -> (found: bool)
    requires
        from <= to <= chars@.len(),
    ensures
        found == begins_with(chars@.subrange(from as int, to as int), prefix@),
{
    let length = prefix.unicode_len();
    if length > to - from {
        return false;
    }
    let ghost part = chars@.subrange(from as int, to as int);
    let mut index: usize = 0;
    while index < length
        invariant
            length == prefix@.len(),
            index <= length,
            length <= to - from,
            from <= to <= chars@.len(),
            part == chars@.subrange(from as int, to as int),
            forall|i: int| 0 <= i < index ==> part[i] == prefix@[i],
        decreases length - index,
    {
        if chars[from + index] != prefix.get_char(index) {
            assert(part.subrange(0, length as int)[index as int] != prefix@[index as int]);
            return false;
        }
        index = index + 1;
    }
    assert(part.subrange(0, length as int) =~= prefix@);
    true
}

/// Find the volume that the output of `hdiutil attach` names.
pub fn find_volume_path(mount_info: &str) -> (volume: Option<String>)
    ensures
        match volume {
            Some(path) => volume_path_of(mount_info@) == Some(path@),
            None => volume_path_of(mount_info@) is None,
        },
{
    let chars = chars_of(mount_info);
    let mut end: usize = chars.len();
    loop
        invariant
            chars@ == mount_info@,
            end <= chars@.len(),
            volume_path_of(mount_info@) == volume_before(chars@, end as int),
        decreases end,
    {
        let mut start: usize = end;
        while start > 0 && !(chars[start - 1] == '\n' || chars[start - 1] == '\t')
            invariant
                start <= end <= chars@.len(),
                field_start(chars@, end as int) == field_start(chars@, start as int),
            decreases start,
        {
            start = start - 1;
        }
        let mut from: usize = start;
        while from < end && char_is_whitespace(chars[from])
            invariant
                start <= from <= end <= chars@.len(),
                after_whitespace(chars@, start as int, end as int) == after_whitespace(
                    chars@,
                    from as int,
                    end as int,
                ),
            decreases end - from,
        {
            from = from + 1;
        }
        let mut to: usize = end;
        while from < to && char_is_whitespace(chars[to - 1])
            invariant
                from <= to <= end <= chars@.len(),
                before_whitespace(chars@, from as int, end as int) == before_whitespace(
                    chars@,
                    from as int,
                    to as int,
                ),
            decreases to - from,
        {
            to = to - 1;
        }
        assert(chars@.subrange(from as int, to as int) == trimmed(
            chars@,
            start as int,
            end as int,
        ));
        if range_begins_with(&chars, from, to, "/Volumes/") {
            return Some(String::from_str(mount_info.substring_char(from, to)));
        }
        if start == 0 {
            return None;
        }
        end = start - 1;
    }
}

/// Parse the volume path from the output of `hdiutil attach`.
pub fn parse_volume_path(output: &[u8]) -> (volume: Result<String, String>)
    ensures
        match volume {
            Ok(path) => volume_path_of(lossy_text(output@)) == Some(path@),
            Err(reason) => volume_path_of(lossy_text(output@)) is None && reason@
                == no_mount_point_text(lossy_text(output@)),
        },
{
    let mount_info = text_from_utf8_lossy(output);
    match find_volume_path(mount_info.as_str()) {
        Some(path) => Ok(path),
        None => Err(
            join2(
                "Failed to find mount point in hdiutil output. Output was:\n",
                mount_info.as_str(),
            ),
        ),
    }
}

/// What is said when the volume that the output names does not exist.
pub fn missing_mount_point(volume_path: &str, output: &[u8]) -> (reason: String)
    ensures
        reason@ == "Mount point '"@ + volume_path@ + "' does not exist. Full output:\n"@
            + lossy_text(output@),
{
    let mount_info = text_from_utf8_lossy(output);
    join3("Mount point '", volume_path, "' does not exist. Full output:\n").concat(
        mount_info.as_str(),
    )
}

} // verus!
