//! The commands of the interactive front end, and how a typed line is read
//! as one of them.

use vstd::prelude::*;

verus! {

/// What a line typed at the prompt asks for.
#[derive(Debug, Clone, Copy, PartialEq, Eq)]
pub enum Command {
    /// Discover the services and show the catalog.
    ListServices,
    /// Leave.
    Exit,
    /// Anything else.
    Unrecognized,
}

/// Whether `c` is white space: a character with the Unicode property
/// `White_Space`.
pub open spec fn white_space(c: char) -> bool {
    let code = c as int;
    ||| 0x09 <= code <= 0x0d
    ||| code == 0x20
    ||| code == 0x85
    ||| code == 0xa0
    ||| code == 0x1680
    ||| 0x2000 <= code <= 0x200a
    ||| code == 0x2028
    ||| code == 0x2029
    ||| code == 0x202f
    ||| code == 0x205f
    ||| code == 0x3000
}

/// `text` without the white space at its start.
pub open spec fn trim_start(text: Seq<char>) -> Seq<char>
    decreases text.len(),
{
    if text.len() > 0 && white_space(text.first()) {
        trim_start(text.drop_first())
    } else {
        text
    }
}

/// `text` without the white space at its end.
pub open spec fn trim_end(text: Seq<char>) -> Seq<char>
    decreases text.len(),
{
    if text.len() > 0 && white_space(text.last()) {
        trim_end(text.drop_last())
    } else {
        text
    }
}

/// `text` without the white space around it.
pub open spec fn trimmed(text: Seq<char>) -> Seq<char> {
    trim_end(trim_start(text))
}

/// The code of `c`, an ASCII capital letter counted as its small letter.
pub open spec fn ascii_lowercase(c: char) -> int {
    if 'A' <= c <= 'Z' {
        c as int + 32
    } else {
        c as int
    }
}

/// Whether two texts are the same but for the case of their ASCII letters.
pub open spec fn same_ignoring_ascii_case(left: Seq<char>, right: Seq<char>) -> bool {
    &&& left.len() == right.len()
    &&& forall|i: int| 0 <= i < left.len() ==> ascii_lowercase(left[i]) == ascii_lowercase(right[i])
}

/// The command that a line stands for: the line is taken without the white
/// space around it, and the case of the letters does not count.
pub open spec fn command_of(line: Seq<char>) -> Command {
    let word = trimmed(line);
    if same_ignoring_ascii_case(word, "list services"@) {
        Command::ListServices
    } else if same_ignoring_ascii_case(word, "exit"@) {
        Command::Exit
    } else {
        Command::Unrecognized
    }
}

/// Whether `c` is white space.
pub fn is_white_space(c: char) -> (white: bool)
    ensures
        white == white_space(c),
{
    let code: u32 = c as u32;
    (0x09 <= code && code <= 0x0d) || code == 0x20 || code == 0x85 || code == 0xa0 || code
        == 0x1680 || (0x2000 <= code && code <= 0x200a) || code == 0x2028 || code == 0x2029 || code
        == 0x202f || code == 0x205f || code == 0x3000
}

/// The code of `c`, an ASCII capital letter counted as its small letter.
fn lowercase_code(c: char) -> (code: u32)
    ensures
        code == ascii_lowercase(c),
{
    if 'A' <= c && c <= 'Z' {
        c as u32 + 32
    } else {
        c as u32
    }
}

/// The characters of a text, in order.
fn characters(text: &str) -> (chars: Vec<char>)
    ensures
        chars@ == text@,
{
    let mut chars: Vec<char> = Vec::new();
    for c in it: text.chars()
        invariant
            chars@ == it.seq().take(it.index()),
            it.seq() == text@,
    {
        chars.push(c);
    }
    chars
}

/// Whether the characters from `start` up to `end` spell `word`, but for
/// the case of the ASCII letters.
fn spells(chars: &Vec<char>, start: usize, end: usize, word: &str) -> (same: bool)
    requires
        start <= end <= chars.len(),
    ensures
        same == same_ignoring_ascii_case(chars@.subrange(start as int, end as int), word@),
{
    let letters = characters(word);
    if end - start != letters.len() {
        return false;
    }
    let ghost part = chars@.subrange(start as int, end as int);
    let mut at: usize = 0;
    while at < letters.len()
        invariant
            start <= end <= chars.len(),
            end - start == letters.len(),
            at <= letters.len(),
            letters@ == word@,
            part == chars@.subrange(start as int, end as int),
            forall|i: int| 0 <= i < at ==> ascii_lowercase(part[i]) == ascii_lowercase(word@[i]),
        decreases letters.len() - at,
    {
        if lowercase_code(chars[start + at]) != lowercase_code(letters[at]) {
            return false;
        }
        at += 1;
    }
    true
}

impl Command {
    /// Reads a line as it was typed. White space around the command is
    /// passed over, the line's end with it, and the two commands are
    /// recognized whatever the case of their letters.
    pub fn parse(line: &str) -> (command: Command)
        ensures
            command == command_of(line@),
    {
        let chars = characters(line);
        let mut start: usize = 0;
        assert(chars@.skip(0) =~= chars@);
        while start < chars.len() && is_white_space(chars[start])
            invariant
                start <= chars.len(),
                trim_start(chars@) == trim_start(chars@.skip(start as int)),
            decreases chars.len() - start,
        {
            assert(chars@.skip(start as int).drop_first() =~= chars@.skip(start + 1));
            start += 1;
        }
        assert(chars@.skip(start as int) =~= chars@.subrange(start as int, chars.len() as int));
        let mut end: usize = chars.len();
        while end > start && is_white_space(chars[end - 1])
            invariant
                start <= end <= chars.len(),
                trimmed(chars@) == trim_end(chars@.subrange(start as int, end as int)),
            decreases end - start,
        {
            assert(chars@.subrange(start as int, end as int).drop_last() =~= chars@.subrange(
                start as int,
                end - 1,
            ));
            end -= 1;
        }
        if spells(&chars, start, end, "list services") {
            Command::ListServices
        } else if spells(&chars, start, end, "exit") {
            Command::Exit
        } else {
            Command::Unrecognized
        }
    }
}

} // verus!
