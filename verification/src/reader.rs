//! Reading the project table back from its text.
//!
//! The table is read line by line, one row per line. A row is read by its
//! punctuation: the name runs up to the first `](`, the address up to the
//! first `)**|`, and each count is a run of decimal digits closed by `|`.
//! A row has to end where its line ends, and a line break has to be
//! followed by another row.

use vstd::prelude::*;
use crate::model::{views, ProjectRow, ProjectRowView};
use crate::table::{placeholder_row, table_header};

verus! {

/// Whether `pattern` stands in `text` at position `at`.
pub open spec fn stands_at(text: Seq<char>, pattern: Seq<char>, at: int) -> bool {
    &&& 0 <= at
    &&& at + pattern.len() <= text.len()
    &&& text.subrange(at, at + pattern.len()) == pattern
}

/// The first position from `from` on at which `pattern` stands in `text`.
pub open spec fn first_at(text: Seq<char>, pattern: Seq<char>, from: int) -> Option<int>
    decreases text.len() - from + 1,
{
    if from < 0 || from + pattern.len() > text.len() {
        None
    } else if stands_at(text, pattern, from) {
        Some(from)
    } else {
        first_at(text, pattern, from + 1)
    }
}

/// The digit that a character writes, if it writes one.
pub open spec fn digit_of(c: char) -> Option<nat> {
    if c == '0' {
        Some(0)
    } else if c == '1' {
        Some(1)
    } else if c == '2' {
        Some(2)
    } else if c == '3' {
        Some(3)
    } else if c == '4' {
        Some(4)
    } else if c == '5' {
        Some(5)
    } else if c == '6' {
        Some(6)
    } else if c == '7' {
        Some(7)
    } else if c == '8' {
        Some(8)
    } else if c == '9' {
        Some(9)
    } else {
        None
    }
}

/// Where the run of digits that starts at `from` ends: the first position
/// from there on that holds no digit.
pub open spec fn digits_end(text: Seq<char>, from: int) -> int
    decreases text.len() - from,
{
    if 0 <= from < text.len() && digit_of(text[from]) is Some {
        digits_end(text, from + 1)
    } else {
        from
    }
}

/// The number that a run of digits writes in decimal.
pub open spec fn numeral_value(digits: Seq<char>) -> nat
    decreases digits.len(),
{
    if digits.len() == 0 {
        0
    } else {
        numeral_value(digits.drop_last()) * 10 + match digit_of(digits.last()) {
            Some(d) => d,
            None => 0,
        }
    }
}

/// The count that starts at `from`, with the position behind the `|` that
/// closes it: at least one digit, a value that fits in 64 bits.
pub open spec fn count_at(text: Seq<char>, from: int) -> Option<(nat, int)> {
    let end = digits_end(text, from);
    let value = numeral_value(text.subrange(from, end));
    if 0 <= from < end && value <= u64::MAX && stands_at(text, "|"@, end) {
        Some((value, end + 1))
    } else {
        None
    }
}

/// The row that starts at `from`, with the position behind it.
pub open spec fn row_at(text: Seq<char>, from: int) -> Option<(ProjectRowView, int)> {
    if !stands_at(text, "|**["@, from) {
        None
    } else {
        match first_at(text, "]("@, from + 4) {
            None => None,
            Some(name_end) => match first_at(text, ")**|"@, name_end + 2) {
                None => None,
                Some(url_end) => match count_at(text, url_end + 4) {
                    None => None,
                    Some((stars, forks_start)) => match count_at(text, forks_start) {
                        None => None,
                        Some((forks, end)) => Some(
                            (
                                ProjectRowView {
                                    name: text.subrange(from + 4, name_end),
                                    url: text.subrange(name_end + 2, url_end),
                                    stars,
                                    forks,
                                },
                                end,
                            ),
                        ),
                    },
                },
            },
        }
    }
}

/// Where the line that holds position `from` ends: the first position from
/// there on that holds a line break, or the end of the text.
pub open spec fn line_end(text: Seq<char>, from: int) -> int
    decreases text.len() - from,
{
    if 0 <= from < text.len() && text[from] != '\n' {
        line_end(text, from + 1)
    } else {
        from
    }
}

/// The rows that fill `text` from `from` to its end, one per line: a row
/// starts at `from` and ends where its line ends, and behind each line
/// break stands another row.
pub open spec fn rows_from(text: Seq<char>, from: int) -> Option<Seq<ProjectRowView>>
    decreases text.len() - from,
{
    match row_at(text, from) {
        None => None,
        Some((row, end)) => if from < end <= text.len() && end == line_end(text, from) {
            if end == text.len() {
                Some(seq![row])
            } else {
                match rows_from(text, end + 1) {
                    None => None,
                    Some(rest) => Some(seq![row] + rest),
                }
            }
        } else {
            None
        },
    }
}

/// The rows of a table: behind the header either the placeholder row alone,
/// which stands for no row, or one row or more, one per line.
pub open spec fn parsed_table(text: Seq<char>) -> Option<Seq<ProjectRowView>> {
    let start = table_header().len() as int;
    if !stands_at(text, table_header(), 0) {
        None
    } else if text.skip(start) == placeholder_row() {
        Some(Seq::empty())
    } else {
        rows_from(text, start)
    }
}

/// The characters of `text`, one by one.
pub fn chars_of(text: &str) -> (chars: Vec<char>)
    ensures
        chars@ == text@,
{
    let mut chars: Vec<char> = Vec::new();
    for c in iter: text.chars()
        invariant
            iter.seq() == text@,
            chars@ == iter.seq().take(iter.index() as int),
    {
        chars.push(c);
        assert(iter.seq().take(iter.index() + 1) =~= iter.seq().take(iter.index() as int).push(c));
    }
    assert(chars@ =~= text@);
    chars
}

/// Whether `pattern` stands in `text` at position `at`.
pub fn stands(text: &Vec<char>, pattern: &Vec<char>, at: usize) -> (b: bool)
    ensures
        b == stands_at(text@, pattern@, at as int),
{
    if pattern.len() > text.len() || at > text.len() - pattern.len() {
        return false;
    }
    let mut i: usize = 0;
    while i < pattern.len()
        invariant
            i <= pattern.len(),
            at + pattern.len() <= text.len(),
            forall|j: int| 0 <= j < i ==> text@[at + j] == pattern@[j],
        decreases pattern.len() - i,
    {
        if text[at + i] != pattern[i] {
            assert(text@.subrange(at as int, at + pattern.len())[i as int] != pattern@[i as int]);
            return false;
        }
        i = i + 1;
    }
    assert(text@.subrange(at as int, at + pattern.len()) =~= pattern@);
    true
}

/// The first position from `from` on at which `pattern` stands in `text`.
pub fn find(text: &Vec<char>, pattern: &Vec<char>, from: usize) -> (r: Option<usize>)
    ensures
        match r {
            Some(at) => {
                &&& first_at(text@, pattern@, from as int) == Some(at as int)
                &&& from <= at
                &&& stands_at(text@, pattern@, at as int)
            },
            None => first_at(text@, pattern@, from as int) is None,
        },
{
    if pattern.len() > text.len() {
        return None;
    }
    let last = text.len() - pattern.len();
    let mut at = from;
    while at <= last
        invariant
            from <= at,
            last == text.len() - pattern.len(),
            first_at(text@, pattern@, from as int) == first_at(text@, pattern@, at as int),
        decreases last + 1 - at,
    {
        if stands(text, pattern, at) {
            return Some(at);
        }
        if at == last {
            assert(first_at(text@, pattern@, at + 1) is None);
            return None;
        }
        at = at + 1;
    }
    None
}

/// Where the line that holds position `from` ends.
pub fn end_of_line(text: &Vec<char>, from: usize) -> (end: usize)
    ensures
        end == line_end(text@, from as int),
        from <= end,
        from <= text.len() ==> end <= text.len(),
{
    let mut end = from;
    while end < text.len() && text[end] != '\n'
        invariant
            from <= end,
            from <= text.len() ==> end <= text.len(),
            line_end(text@, from as int) == line_end(text@, end as int),
        decreases text.len() - end,
    {
        end = end + 1;
    }
    end
}

/// The digit that `c` writes, if it writes one.
fn digit(c: char) -> (r: Option<u64>)
    ensures
        match r {
            Some(d) => digit_of(c) == Some(d as nat) && d < 10,
            None => digit_of(c) is None,
        },
{
    if c == '0' {
        Some(0)
    } else if c == '1' {
        Some(1)
    } else if c == '2' {
        Some(2)
    } else if c == '3' {
        Some(3)
    } else if c == '4' {
        Some(4)
    } else if c == '5' {
        Some(5)
    } else if c == '6' {
        Some(6)
    } else if c == '7' {
        Some(7)
    } else if c == '8' {
        Some(8)
    } else if c == '9' {
        Some(9)
    } else {
        None
    }
}

/// The count that starts at `from`, with the position behind it.
pub fn read_count(text: &Vec<char>, from: usize) -> (r: Option<(u64, usize)>)
    ensures
        match r {
            Some((value, end)) => {
                &&& count_at(text@, from as int) == Some((value as nat, end as int))
                &&& from < end <= text.len()
            },
            None => count_at(text@, from as int) is None,
        },
{
    if from >= text.len() {
        return None;
    }
    let mut end = from;
    let mut value: u64 = 0;
    let mut fits = true;
    assert(text@.subrange(from as int, end as int) =~= Seq::<char>::empty());
    while end < text.len()
        invariant
            from <= end,
            digits_end(text@, from as int) == digits_end(text@, end as int),
            fits ==> value as nat == numeral_value(text@.subrange(from as int, end as int)),
            !fits ==> numeral_value(text@.subrange(from as int, end as int)) > u64::MAX,
        ensures
            from <= end,
            end == digits_end(text@, from as int),
            fits ==> value as nat == numeral_value(text@.subrange(from as int, end as int)),
            !fits ==> numeral_value(text@.subrange(from as int, end as int)) > u64::MAX,
        decreases text.len() - end,
    {
        let found = digit(text[end]);
        if found.is_none() {
            break;
        }
        let d = found.unwrap();
        assert(text@.subrange(from as int, end + 1).drop_last() =~= text@.subrange(
            from as int,
            end as int,
        ));
        if fits && value <= (u64::MAX - d) / 10 {
            value = value * 10 + d;
        } else {
            fits = false;
        }
        end = end + 1;
    }
    if !fits || end == from || end >= text.len() || text[end] != '|' {
        proof {
            reveal_strlit("|");
            if from < end < text.len() {
                assert(text@.subrange(end as int, end + 1)[0] == text@[end as int]);
            }
        }
        return None;
    }
    assert(stands_at(text@, "|"@, end as int)) by {
        reveal_strlit("|");
        assert(text@.subrange(end as int, end + 1) =~= "|"@);
    }
    Some((value, end + 1))
}

/// The punctuation of a row, as characters.
struct Marks {
    opening: Vec<char>,
    middle: Vec<char>,
    closing: Vec<char>,
}

impl Marks {
    /// Each mark is the punctuation that it stands for.
    spec fn well_formed(&self) -> bool {
        &&& self.opening@ == "|**["@
        &&& self.middle@ == "]("@
        &&& self.closing@ == ")**|"@
    }

    /// The punctuation of a row.
    fn new() -> (marks: Marks)
        ensures
            marks.well_formed(),
    {
        Marks { opening: chars_of("|**["), middle: chars_of("]("), closing: chars_of(")**|") }
    }
}

/// The row that starts at `from` in `text`, whose characters are `chars`,
/// with the position behind it.
fn read_row(text: &str, chars: &Vec<char>, marks: &Marks, from: usize) -> (r: Option<
    (ProjectRow, usize),
>)
    requires
        chars@ == text@,
        marks.well_formed(),
    ensures
        match r {
            Some((row, end)) => {
                &&& row_at(chars@, from as int) == Some((row@, end as int))
                &&& from < end <= chars.len()
            },
            None => row_at(chars@, from as int) is None,
        },
{
    proof {
        reveal_strlit("|**[");
        reveal_strlit("](");
        reveal_strlit(")**|");
        assert("|**["@.len() == 4);
        assert("]("@.len() == 2);
        assert(")**|"@.len() == 4);
    }
    if !stands(chars, &marks.opening, from) {
        return None;
    }
    assert(from + 4 <= chars.len());
    let name_start = from + 4;
    let name_end = match find(chars, &marks.middle, name_start) {
        Some(at) => at,
        None => return None,
    };
    assert(name_end + 2 <= chars.len());
    let url_start = name_end + 2;
    let url_end = match find(chars, &marks.closing, url_start) {
        Some(at) => at,
        None => return None,
    };
    assert(url_end + 4 <= chars.len());
    let (stars, forks_start) = match read_count(chars, url_end + 4) {
        Some(found) => found,
        None => return None,
    };
    let (forks, end) = match read_count(chars, forks_start) {
        Some(found) => found,
        None => return None,
    };
    let row = ProjectRow {
        name: text.substring_char(name_start, name_end).to_owned(),
        url: text.substring_char(url_start, url_end).to_owned(),
        stars,
        forks,
    };
    Some((row, end))
}

/// Reads the rows of a project table back from its text.
pub fn read_table(text: &str) -> (r: Option<Vec<ProjectRow>>)
    ensures
        match r {
            Some(rows) => parsed_table(text@) == Some(views(rows@)),
            None => parsed_table(text@) is None,
        },
{
    let chars = chars_of(text);
    let header = chars_of("|📖 Projects|⭐ Stars|🍴 Forks|\n|-|-|-|\n");
    if !stands(&chars, &header, 0) {
        return None;
    }
    let start = header.len();
    let placeholder = chars_of("|*It's deserted here… 😔*|🏜️|🌃|");
    if stands(&chars, &placeholder, start) && chars.len() - start == placeholder.len() {
        assert(text@.skip(start as int) =~= text@.subrange(
            start as int,
            start + placeholder@.len(),
        ));
        let rows: Vec<ProjectRow> = Vec::new();
        assert(views(rows@) =~= Seq::empty());
        return Some(rows);
    }
    proof {
        if text@.skip(start as int) == placeholder_row() {
            assert(text@.skip(start as int) =~= text@.subrange(
                start as int,
                start + placeholder@.len(),
            ));
        }
    }
    assert(parsed_table(text@) == rows_from(chars@, start as int));
    let marks = Marks::new();
    let mut rows: Vec<ProjectRow> = Vec::new();
    let mut at = start;
    assert(views(rows@) =~= Seq::empty());
    assert(views(rows@) + rows_from(chars@, at as int)->Some_0 =~= rows_from(
        chars@,
        at as int,
    )->Some_0);
    loop
        invariant
            at <= chars.len(),
            chars@ == text@,
            marks.well_formed(),
            parsed_table(text@) == rows_from(chars@, start as int),
            rows_from(chars@, start as int) == match rows_from(chars@, at as int) {
                Some(rest) => Some(views(rows@) + rest),
                None => None,
            },
        decreases chars.len() - at,
    {
        let ghost before = views(rows@);
        let (row, end) = match read_row(text, &chars, &marks, at) {
            Some(found) => found,
            None => return None,
        };
        if end != end_of_line(&chars, at) {
            return None;
        }
        rows.push(row);
        if end == chars.len() {
            assert(views(rows@) =~= before + seq![row@]);
            return Some(rows);
        }
        proof {
            if let Some(rest) = rows_from(chars@, end + 1) {
                assert(views(rows@) + rest =~= before + (seq![row@] + rest));
            }
        }
        at = end + 1;
    }
}

} // verus!
