//! Paths and text: joining a path, telling a note by its name, trimming
//! white space, and what the standard library does to a `String`.

use vstd::prelude::*;
use vstd::string::{StrSliceExecFns, StringExecFns};

verus! {

/// `String::push`: the character is appended to the string.
pub assume_specification[ String::push ](text: &mut String, ch: char)
    ensures
        final(text)@ == old(text)@.push(ch),
;

/// `String::pop`: the last character leaves the string and is handed back,
/// or the string is empty and stays so.
pub assume_specification[ String::pop ](text: &mut String) -> (last: Option<char>)
    ensures
        old(text)@.len() == 0 ==> last is None && final(text)@ == old(text)@,
        old(text)@.len() > 0 ==> last == Some(old(text)@.last()) && final(text)@ == old(
            text,
        )@.drop_last(),
;

/// `String::clear`: the string is emptied.
pub assume_specification[ String::clear ](text: &mut String)
    ensures
        final(text)@ == Seq::<char>::empty(),
;

/// `base` with `leaf` adjoined: an absolute `leaf` replaces `base`, and a
/// separator is put between the two where `base` does not end in one.
pub open spec fn joined(base: Seq<char>, leaf: Seq<char>) -> Seq<char> {
    if leaf.len() > 0 && leaf[0] == '/' {
        leaf
    } else if base.len() > 0 && base.last() != '/' {
        base + seq!['/'] + leaf
    } else {
        base + leaf
    }
}

/// The path `base` with `leaf` adjoined.
pub fn join_path(base: &str, leaf: &str) -> (path: String)
    ensures
        path@ == joined(base@, leaf@),
{
    let leaf_length = leaf.unicode_len();
    if leaf_length > 0 && leaf.get_char(0) == '/' {
        return String::from_str(leaf);
    }
    let base_length = base.unicode_len();
    let mut path = String::from_str(base);
    if base_length > 0 && base.get_char(base_length - 1) != '/' {
        proof {
            reveal_strlit("/");
            assert("/"@ =~= seq!['/']);
        }
        path.append("/");
    }
    path.append(leaf);
    path
}

/// Whether a file of this name is a note: the name ends in `.md`, and
/// something stands before that.
pub open spec fn is_note_name(name: Seq<char>) -> bool {
    let n = name.len() as int;
    n > 3 && name[n - 3] == '.' && name[n - 2] == 'm' && name[n - 1] == 'd'
}

/// Whether a file of this name is a note.
pub fn is_note(name: &str) -> (note: bool)
    ensures
        note == is_note_name(name@),
{
    let length = name.unicode_len();
    length > 3 && name.get_char(length - 3) == '.' && name.get_char(length - 2) == 'm'
        && name.get_char(length - 1) == 'd'
}

/// Whether `c` is white space: one of the characters with the Unicode
/// property `White_Space`.
pub open spec fn is_space(c: char) -> bool {
    let code = c as u32;
    ||| 0x09 <= code <= 0x0D
    ||| code == 0x20
    ||| code == 0x85
    ||| code == 0xA0
    ||| code == 0x1680
    ||| 0x2000 <= code <= 0x200A
    ||| code == 0x2028
    ||| code == 0x2029
    ||| code == 0x202F
    ||| code == 0x205F
    ||| code == 0x3000
}

/// Whether `c` is white space.
pub fn is_white_space(c: char) -> (space: bool)
    ensures
        space == is_space(c),
{
    let code = c as u32;
    (0x09 <= code && code <= 0x0D) || code == 0x20 || code == 0x85 || code == 0xA0 || code
        == 0x1680 || (0x2000 <= code && code <= 0x200A) || code == 0x2028 || code == 0x2029
        || code == 0x202F || code == 0x205F || code == 0x3000
}

/// `text` without the white space at its start.
pub open spec fn trimmed_start(text: Seq<char>) -> Seq<char>
    decreases text.len(),
{
    if text.len() > 0 && is_space(text[0]) {
        trimmed_start(text.drop_first())
    } else {
        text
    }
}

/// `text` without the white space at its end.
pub open spec fn trimmed_end(text: Seq<char>) -> Seq<char>
    decreases text.len(),
{
    if text.len() > 0 && is_space(text.last()) {
        trimmed_end(text.drop_last())
    } else {
        text
    }
}

/// `text` without the white space at its two ends.
pub open spec fn trimmed(text: Seq<char>) -> Seq<char> {
    trimmed_end(trimmed_start(text))
}

/// Where `text` begins with `start` characters of white space and goes on
/// with another character or ends, trimming its start leaves what follows
/// them.
proof fn lemma_trimmed_start(text: Seq<char>, start: int)
    requires
        0 <= start <= text.len(),
        forall|i: int| 0 <= i < start ==> is_space(#[trigger] text[i]),
        start < text.len() ==> !is_space(text[start]),
    ensures
        trimmed_start(text) == text.subrange(start, text.len() as int),
    decreases start,
{
    if start == 0 {
        assert(text.subrange(0, text.len() as int) =~= text);
    } else {
        let rest = text.drop_first();
        assert(forall|i: int| 0 <= i < start - 1 ==> rest[i] == text[i + 1]);
        lemma_trimmed_start(rest, start - 1);
        assert(rest.subrange(start - 1, rest.len() as int) =~= text.subrange(
            start,
            text.len() as int,
        ));
    }
}

/// Where `text` ends with white space from `end` on and has another
/// character before that or none, trimming its end leaves what stands before
/// `end`.
proof fn lemma_trimmed_end(text: Seq<char>, end: int)
    requires
        0 <= end <= text.len(),
        forall|i: int| end <= i < text.len() ==> is_space(#[trigger] text[i]),
        0 < end ==> !is_space(text[end - 1]),
    ensures
        trimmed_end(text) == text.subrange(0, end),
    decreases text.len() - end,
{
    if end == text.len() {
        assert(text.subrange(0, end) =~= text);
    } else {
        let rest = text.drop_last();
        lemma_trimmed_end(rest, end);
        assert(rest.subrange(0, end) =~= text.subrange(0, end));
    }
}

/// Trimming leaves no white space at either end, and takes nothing else
/// away.
pub proof fn lemma_trimmed_is_bare(text: Seq<char>)
    ensures
        trimmed(text).len() <= text.len(),
        trimmed(text).len() > 0 ==> !is_space(trimmed(text).first()) && !is_space(
            trimmed(text).last(),
        ),
        text.len() > 0 && !is_space(text.first()) && !is_space(text.last()) ==> trimmed(text)
            == text,
{
    lemma_trimmed_start_is_suffix(text);
    lemma_trimmed_end_is_prefix(trimmed_start(text));
}

/// The trimmed start of a text is what follows its leading white space.
proof fn lemma_trimmed_start_is_suffix(text: Seq<char>)
    ensures
        trimmed_start(text).len() <= text.len(),
        trimmed_start(text).len() > 0 ==> !is_space(trimmed_start(text).first())
            && trimmed_start(text).last() == text.last(),
        text.len() > 0 && !is_space(text.first()) ==> trimmed_start(text) == text,
    decreases text.len(),
{
    if text.len() > 0 && is_space(text[0]) {
        lemma_trimmed_start_is_suffix(text.drop_first());
    }
}

/// The trimmed end of a text is what stands before its trailing white space.
proof fn lemma_trimmed_end_is_prefix(text: Seq<char>)
    ensures
        trimmed_end(text).len() <= text.len(),
        trimmed_end(text).len() > 0 ==> !is_space(trimmed_end(text).last()) && trimmed_end(
            text,
        ).first() == text.first(),
        text.len() > 0 && !is_space(text.last()) ==> trimmed_end(text) == text,
    decreases text.len(),
{
    if text.len() > 0 && is_space(text.last()) {
        lemma_trimmed_end_is_prefix(text.drop_last());
    }
}

/// `text` without the white space at its two ends.
pub fn trim_spaces(text: &str) -> (bare: &str)
    ensures
        bare@ == trimmed(text@),
{
    let length = text.unicode_len();
    let mut start: usize = 0;
    while start < length && is_white_space(text.get_char(start))
        invariant
            start <= length,
            length == text@.len(),
            forall|i: int| 0 <= i < start ==> is_space(#[trigger] text@[i]),
        decreases length - start,
    {
        start = start + 1;
    }
    let mut end: usize = length;
    while end > start && is_white_space(text.get_char(end - 1))
        invariant
            start <= end <= length,
            length == text@.len(),
            forall|i: int| end <= i < length ==> is_space(#[trigger] text@[i]),
        decreases end,
    {
        end = end - 1;
    }
    proof {
        let tail = text@.subrange(start as int, length as int);
        lemma_trimmed_start(text@, start as int);
        assert(forall|i: int| end - start <= i < tail.len() ==> tail[i] == text@[i + start]);
        lemma_trimmed_end(tail, end - start);
        assert(tail.subrange(0, end - start) =~= text@.subrange(start as int, end as int));
    }
    text.substring_char(start, end)
}

} // verus!
