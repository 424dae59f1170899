//! The kernel command line: words between white space, of which two matter
//! to the boot, `quiet` and `root=`.

use vstd::prelude::*;
use vstd::string::*;

verus! {

/// What the boot takes from the kernel command line.
#[derive(Clone, Debug)]
pub struct Cmdline {
    /// Whether a word begins with `quiet`.
    pub quiet: bool,
    /// The root device: what follows `root=` in the first word that begins
    /// with it.
    pub root: String,
}

/// What a [`Cmdline`] holds.
pub struct CmdlineView {
    pub quiet: bool,
    pub root: Seq<char>,
}

impl View for Cmdline {
    type V = CmdlineView;

    open spec fn view(&self) -> CmdlineView {
        CmdlineView { quiet: self.quiet, root: self.root@ }
    }
}

/// Whether `c` is white space, as Unicode defines it.
pub open spec fn whitespace(c: char) -> bool {
    let code = c as u32;
    (0x09 <= code && code <= 0x0d) || code == 0x20 || code == 0x85 || code == 0xa0 || code
        == 0x1680 || (0x2000 <= code && code <= 0x200a) || code == 0x2028 || code == 0x2029
        || code == 0x202f || code == 0x205f || code == 0x3000
}

/// Whether `text` begins with `prefix`.
pub open spec fn has_prefix(text: Seq<char>, prefix: Seq<char>) -> bool {
    prefix.len() <= text.len() && text.subrange(0, prefix.len() as int) == prefix
}

/// Where the first word at or behind `from` begins: the first character
/// there that is no white space, or the end of the line.
pub open spec fn word_start(line: Seq<char>, from: int) -> int
    decreases line.len() - from,
{
    if from < 0 || from >= line.len() {
        line.len() as int
    } else if !whitespace(line[from]) {
        from
    } else {
        word_start(line, from + 1)
    }
}

/// Where the word that `from` is in ends: the first white space at or
/// behind `from`, or the end of the line.
pub open spec fn word_end(line: Seq<char>, from: int) -> int
    decreases line.len() - from,
{
    if from < 0 || from >= line.len() {
        line.len() as int
    } else if whitespace(line[from]) {
        from
    } else {
        word_end(line, from + 1)
    }
}

/// The first word at or behind `from` that begins with `prefix`, as the
/// range of its characters.
pub open spec fn first_word_with(line: Seq<char>, prefix: Seq<char>, from: int) -> Option<
    (int, int),
>
    decreases line.len() - from,
{
    let start = word_start(line, from);
    let end = word_end(line, start);
    if from < 0 || start >= line.len() {
        None
    } else if has_prefix(line.subrange(start, end), prefix) {
        Some((start, end))
    } else if from < end && end <= line.len() {
        first_word_with(line, prefix, end)
    } else {
        None
    }
}

/// `text` without `prefix` at its front, as often as it stands there.
pub open spec fn without_leading(text: Seq<char>, prefix: Seq<char>) -> Seq<char>
    decreases text.len(),
{
    if prefix.len() > 0 && has_prefix(text, prefix) {
        without_leading(text.subrange(prefix.len() as int, text.len() as int), prefix)
    } else {
        text
    }
}

/// What the command line `line` says: nothing without a word that begins
/// with `root=`.
pub open spec fn cmdline_of(line: Seq<char>) -> Option<CmdlineView> {
    match first_word_with(line, "root="@, 0) {
        Some(word) => Some(
            CmdlineView {
                quiet: first_word_with(line, "quiet"@, 0) is Some,
                root: without_leading(line.subrange(word.0, word.1), "root="@),
            },
        ),
        None => None,
    }
}

/// `char::is_whitespace`, which holds of the characters with the Unicode
/// property `White_Space`: the controls from tab to carriage return, the
/// space, next line, the no-break spaces, the Ogham space mark, the spaces
/// of the general punctuation block, the line and paragraph separators, the
/// medium mathematical space and the ideographic space.
#[verifier::external_body]
fn is_whitespace(c: char) -> (yes: bool)
    ensures
        yes == whitespace(c),
{
    c.is_whitespace()
}

fn begins_with(line: &str, start: usize, end: usize, prefix: &str) -> (yes: bool)
    requires
        start <= end <= line@.len(),
    ensures
        yes == has_prefix(line@.subrange(start as int, end as int), prefix@),
{
    let length = prefix.unicode_len();
    if length > end - start {
        return false;
    }
    let ghost word = line@.subrange(start as int, end as int);
    let mut index: usize = 0;
    while index < length
        invariant
            index <= length == prefix@.len(),
            length <= end - start,
            start <= end <= line@.len(),
            word == line@.subrange(start as int, end as int),
            forall|i: int| 0 <= i < index ==> word[i] == prefix@[i],
        decreases length - index,
    {
        if line.get_char(start + index) != prefix.get_char(index) {
            assert(word.subrange(0, length as int)[index as int] != prefix@[index as int]);
            return false;
        }
        index = index + 1;
    }
    assert(word.subrange(0, length as int) =~= prefix@);
    true
}

fn start_of_word(line: &str, length: usize, from: usize) -> (start: usize)
    requires
        length == line@.len(),
    ensures
        start == word_start(line@, from as int),
        from <= start || start == length,
        start <= length,
        start < length ==> !whitespace(line@[start as int]),
{
    let mut at = from;
    while at < length
        invariant
            from <= at,
            length == line@.len(),
            word_start(line@, from as int) == word_start(line@, at as int),
        decreases length - at,
    {
        if !is_whitespace(line.get_char(at)) {
            return at;
        }
        at = at + 1;
    }
    length
}

fn end_of_word(line: &str, length: usize, from: usize) -> (end: usize)
    requires
        length == line@.len(),
        from < length,
        !whitespace(line@[from as int]),
    ensures
        end == word_end(line@, from as int),
        from < end <= length,
{
    let mut at = from + 1;
    while at < length
        invariant
            from < at <= length,
            length == line@.len(),
            word_end(line@, from as int) == word_end(line@, at as int),
        decreases length - at,
    {
        if is_whitespace(line.get_char(at)) {
            return at;
        }
        at = at + 1;
    }
    length
}

fn find_word(line: &str, length: usize, prefix: &str) -> (found: Option<(usize, usize)>)
    requires
        length == line@.len(),
    ensures
        match found {
            Some(word) => first_word_with(line@, prefix@, 0) == Some((word.0 as int, word.1 as int))
                && word.0 <= word.1 <= length,
            None => first_word_with(line@, prefix@, 0) is None,
        },
{
    let mut from: usize = 0;
    loop
        invariant
            from <= length == line@.len(),
            first_word_with(line@, prefix@, 0) == first_word_with(line@, prefix@, from as int),
        decreases length - from,
    {
        let start = start_of_word(line, length, from);
        if start >= length {
            return None;
        }
        let end = end_of_word(line, length, start);
        if begins_with(line, start, end, prefix) {
            return Some((start, end));
        }
        from = end;
    }
}

/// Reads the kernel command line `line`. The words are what stands between
/// white space. `quiet` is set if a word begins with `quiet`; the root
/// device is the first word that begins with `root=`, without that prefix,
/// however often it is repeated at the front. A line without such a word
/// names no root device, and there is nothing to boot from.
pub fn parse_cmdline(line: &str) -> (parsed: Option<Cmdline>)
    ensures
        match parsed {
            Some(cmdline) => cmdline_of(line@) == Some(cmdline@),
            None => cmdline_of(line@) is None,
        },
{
    let length = line.unicode_len();
    let (start, end) = match find_word(line, length, "root=") {
        Some(word) => word,
        None => { return None; },
    };
    let quiet = find_word(line, length, "quiet").is_some();
    let prefix_length = "root=".unicode_len();
    let mut from = start;
    while prefix_length > 0 && begins_with(line, from, end, "root=")
        invariant
            start <= from <= end <= length == line@.len(),
            prefix_length == "root="@.len(),
            without_leading(line@.subrange(start as int, end as int), "root="@) == without_leading(
                line@.subrange(from as int, end as int),
                "root="@,
            ),
        decreases end - from,
    {
        assert(line@.subrange(from as int, end as int).subrange(
            prefix_length as int,
            end - from,
        ) =~= line@.subrange(from + prefix_length, end as int));
        from = from + prefix_length;
    }
    let root = String::from_str(line.substring_char(from, end));
    Some(Cmdline { quiet, root })
}

} // verus!
