//! Entries of the replay log, and how they are cut from its lines.

use vstd::prelude::*;
use vstd::string::*;

verus! {

/// One payload of the replay log, replayed against both targets.
#[derive(Debug)]
pub struct ReplayLog {
    pub data: String,
}

impl View for ReplayLog {
    type V = Seq<char>;

    open spec fn view(&self) -> Seq<char> {
        self.data@
    }
}

/// Whether a character has the Unicode property `White_Space`.
pub open spec fn is_white_space(c: char) -> bool {
    let code = c as u32;
    ||| 0x09 <= code <= 0x0D
    ||| code == 0x20
    ||| code == 0x85
    ||| code == 0xA0
    ||| code == 0x1680
    ||| 0x2000 <= code <= 0x200A
    ||| code == 0x2028
    ||| code == 0x2029
    ||| code == 0x202F
    ||| code == 0x205F
    ||| code == 0x3000
}

/// A text without the white space that it starts with.
pub open spec fn trim_start(text: Seq<char>) -> Seq<char>
    decreases text.len(),
{
    if text.len() > 0 && is_white_space(text.first()) {
        trim_start(text.drop_first())
    } else {
        text
    }
}

/// A text without the white space that it ends with.
pub open spec fn trim_end(text: Seq<char>) -> Seq<char>
    decreases text.len(),
{
    if text.len() > 0 && is_white_space(text.last()) {
        trim_end(text.drop_last())
    } else {
        text
    }
}

/// A text without the white space around it.
pub open spec fn trimmed(text: Seq<char>) -> Seq<char> {
    trim_end(trim_start(text))
}

/// The entries that some lines of the log hold, in their order: each line
/// that is more than white space gives one entry, the line without the white
/// space around it.
pub open spec fn entries_of(lines: Seq<Seq<char>>) -> Seq<Seq<char>>
    decreases lines.len(),
{
    if lines.len() == 0 {
        Seq::empty()
    } else if trimmed(lines.last()).len() == 0 {
        entries_of(lines.drop_last())
    } else {
        entries_of(lines.drop_last()).push(trimmed(lines.last()))
    }
}

/// `str::trim`: the text without its leading and trailing white space, where
/// white space is what Unicode gives the property `White_Space`.
#[verifier::external_body]
fn trim_line(line: &str) -> (text: &str)
    ensures
        text@ == trimmed(line@),
{
    line.trim()
}

impl ReplayLog {
    /// The entry that a line of the log holds: none for a line of white
    /// space only.
    pub fn from_line(line: &str) -> (entry: Option<ReplayLog>)
        ensures
            entry is None <==> trimmed(line@).len() == 0,
            entry matches Some(log) ==> log@ == trimmed(line@),
    {
        let text = trim_line(line);
        if text.is_empty() {
            None
        } else {
            Some(ReplayLog { data: String::from_str(text) })
        }
    }

    /// The entries that `lines` hold, in their order.
    pub fn from_lines(lines: &Vec<String>) -> (entries: Vec<ReplayLog>)
        ensures
            entry_texts(entries@) == entries_of(line_texts(lines@)),
    {
        let mut entries: Vec<ReplayLog> = Vec::new();
        let mut next: usize = 0;
        while next < lines.len()
            invariant
                next <= lines@.len(),
                entry_texts(entries@) == entries_of(line_texts(lines@).take(next as int)),
            decreases lines@.len() - next,
        {
            let ghost before = line_texts(lines@).take(next as int);
            let ghost after = line_texts(lines@).take(next as int + 1);
            assert(after.drop_last() =~= before);
            assert(after.last() == lines@[next as int]@);
            match ReplayLog::from_line(lines[next].as_str()) {
                Some(entry) => entries.push(entry),
                None => {},
            }
            next = next + 1;
        }
        assert(line_texts(lines@).take(next as int) =~= line_texts(lines@));
        entries
    }
}

/// The texts of some lines.
pub open spec fn line_texts(lines: Seq<String>) -> Seq<Seq<char>> {
    Seq::new(lines.len(), |i: int| lines[i]@)
}

/// The texts of some entries.
pub open spec fn entry_texts(entries: Seq<ReplayLog>) -> Seq<Seq<char>> {
    Seq::new(entries.len(), |i: int| entries[i]@)
}

} // verus!
