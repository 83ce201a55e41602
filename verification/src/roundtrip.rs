//! Writing the project table and reading it back gives the rows that were
//! written.
//!
//! This holds for every list of rows but those that the punctuation cannot
//! tell apart: a name that holds `](`, or an address that holds `)**|`,
//! ends early when it is read back, and a name or an address that holds a
//! line break does not stay on the line of its row.

use vstd::prelude::*;
use crate::model::ProjectRowView;
use crate::reader::{
    count_at, digit_of, digits_end, first_at, line_end, numeral_value, parsed_table, row_at,
    rows_from, stands_at,
};
use crate::table::{placeholder_row, row_text, row_texts, table, table_body, table_header};
use crate::text::{decimal, digit_char, lines};

verus! {

/// Whether `pattern` stands somewhere in `text`.
pub open spec fn contains(text: Seq<char>, pattern: Seq<char>) -> bool {
    exists|at: int| stands_at(text, pattern, at)
}

/// A row that can be read back: its name holds no `](`, its address no
/// `)**|`, neither of them holds a line break, and its counts fit in 64
/// bits.
pub open spec fn readable(row: ProjectRowView) -> bool {
    &&& !contains(row.name, "]("@)
    &&& !contains(row.name, "\n"@)
    &&& !contains(row.url, ")**|"@)
    &&& !contains(row.url, "\n"@)
    &&& row.stars <= u64::MAX
    &&& row.forks <= u64::MAX
}

/// A row whose punctuation can be told apart when it is read back.
spec fn punctuated(row: ProjectRowView) -> bool {
    &&& !contains(row.name, "]("@)
    &&& !contains(row.url, ")**|"@)
    &&& row.stars <= u64::MAX
    &&& row.forks <= u64::MAX
}

/// A text that holds no line break.
#[verifier::opaque]
spec fn unbroken(text: Seq<char>) -> bool {
    forall|i: int| 0 <= i < text.len() ==> text[i] != '\n'
}

/// Where a pattern stands at `at` and nowhere from `from` up to there, the
/// first place at which it is found from `from` on is `at`.
proof fn lemma_first_at_skips(text: Seq<char>, pattern: Seq<char>, from: int, at: int)
    requires
        0 <= from <= at,
        stands_at(text, pattern, at),
        forall|j: int| from <= j < at ==> !stands_at(text, pattern, j),
    ensures
        first_at(text, pattern, from) == Some(at),
    decreases at - from,
{
    if from < at {
        lemma_first_at_skips(text, pattern, from + 1, at);
    }
}

/// A pattern none of whose later characters equals its first is found
/// right behind a field that does not hold it.
proof fn lemma_found_behind(
    before: Seq<char>,
    field: Seq<char>,
    pattern: Seq<char>,
    after: Seq<char>,
)
    requires
        !contains(field, pattern),
        pattern.len() > 0,
        forall|k: int| 0 < k < pattern.len() ==> (#[trigger] pattern[k]) != pattern[0],
    ensures
        first_at(before + field + pattern + after, pattern, before.len() as int) == Some(
            (before.len() + field.len()) as int,
        ),
{
    let text = before + field + pattern + after;
    let start = before.len() as int;
    let at = start + field.len();
    assert(text.subrange(at, at + pattern.len()) =~= pattern);
    assert forall|j: int| start <= j < at implies !stands_at(text, pattern, j) by {
        if stands_at(text, pattern, j) {
            let found = text.subrange(j, j + pattern.len());
            if j + pattern.len() <= at {
                assert(field.subrange(j - start, j - start + pattern.len()) =~= found);
                assert(stands_at(field, pattern, j - start));
            } else {
                let k = at - j;
                assert(found[k] == text[at]);
                assert(text[at] == pattern[0]);
            }
        }
    }
    lemma_first_at_skips(text, pattern, start, at);
}

/// The digit of a digit character is the digit that it writes.
proof fn lemma_digit_of_digit_char(d: nat)
    requires
        d < 10,
    ensures
        digit_of(digit_char(d)) == Some(d),
{
}

/// A decimal numeral is a run of one digit or more that writes its number.
proof fn lemma_decimal_reads_back(n: nat)
    ensures
        decimal(n).len() >= 1,
        forall|i: int| 0 <= i < decimal(n).len() ==> digit_of(#[trigger] decimal(n)[i]) is Some,
        numeral_value(decimal(n)) == n,
    decreases n,
{
    if n < 10 {
        lemma_digit_of_digit_char(n);
        assert(decimal(n).drop_last() =~= Seq::<char>::empty());
        assert(numeral_value(decimal(n).drop_last()) == 0);
    } else {
        lemma_decimal_reads_back(n / 10);
        lemma_digit_of_digit_char(n % 10);
        assert(decimal(n).drop_last() =~= decimal(n / 10));
    }
}

/// A run of digits that starts at `from` and is closed at `end` by
/// something else ends at `end`.
proof fn lemma_digits_end(text: Seq<char>, from: int, end: int)
    requires
        0 <= from <= end <= text.len(),
        forall|j: int| from <= j < end ==> digit_of(#[trigger] text[j]) is Some,
        end == text.len() || digit_of(text[end]) is None,
    ensures
        digits_end(text, from) == end,
    decreases end - from,
{
    if from < end {
        lemma_digits_end(text, from + 1, end);
    }
}

/// A count that was written is read back, and reading ends behind the `|`
/// that closes it.
proof fn lemma_count_reads_back(before: Seq<char>, n: nat, after: Seq<char>)
    requires
        n <= u64::MAX,
    ensures
        count_at(before + decimal(n) + "|"@ + after, before.len() as int) == Some(
            (n, (before.len() + decimal(n).len() + 1) as int),
        ),
{
    reveal_strlit("|");
    let text = before + decimal(n) + "|"@ + after;
    let from = before.len() as int;
    let end = from + decimal(n).len();
    lemma_decimal_reads_back(n);
    assert forall|j: int| from <= j < end implies digit_of(#[trigger] text[j]) is Some by {
        assert(text[j] == decimal(n)[j - from]);
    }
    assert(text[end] == '|');
    lemma_digits_end(text, from, end);
    assert(text.subrange(from, end) =~= decimal(n));
    assert(text.subrange(end, end + 1) =~= "|"@);
}

/// A row that was written is read back, and reading ends behind it.
proof fn lemma_row_reads_back(before: Seq<char>, row: ProjectRowView, after: Seq<char>)
    requires
        punctuated(row),
    ensures
        row_at(before + row_text(row) + after, before.len() as int) == Some(
            (row, (before.len() + row_text(row).len()) as int),
        ),
{
    reveal_strlit("|**[");
    reveal_strlit("](");
    reveal_strlit(")**|");
    reveal_strlit("|");
    let text = before + row_text(row) + after;
    let from = before.len() as int;
    let stars = decimal(row.stars);
    let forks = decimal(row.forks);
    let name_start = from + 4;
    let name_end = name_start + row.name.len();
    let url_start = name_end + 2;
    let url_end = url_start + row.url.len();
    let stars_start = url_end + 4;
    let forks_start = stars_start + stars.len() + 1;
    let end = forks_start + forks.len() + 1;
    assert(text.subrange(from, from + 4) =~= "|**["@);

    let behind_name = row.url + ")**|"@ + stars + "|"@ + forks + "|"@ + after;
    assert(text =~= (before + "|**["@) + row.name + "]("@ + behind_name);
    lemma_found_behind(before + "|**["@, row.name, "]("@, behind_name);

    let behind_url = stars + "|"@ + forks + "|"@ + after;
    assert(text =~= (before + "|**["@ + row.name + "]("@) + row.url + ")**|"@ + behind_url);
    lemma_found_behind(before + "|**["@ + row.name + "]("@, row.url, ")**|"@, behind_url);

    let before_stars = before + "|**["@ + row.name + "]("@ + row.url + ")**|"@;
    assert(text =~= before_stars + stars + "|"@ + (forks + "|"@ + after));
    lemma_count_reads_back(before_stars, row.stars, forks + "|"@ + after);

    let before_forks = before_stars + stars + "|"@;
    assert(text =~= before_forks + forks + "|"@ + after);
    lemma_count_reads_back(before_forks, row.forks, after);

    assert(text.subrange(name_start, name_end) =~= row.name);
    assert(text.subrange(url_start, url_end) =~= row.url);
    assert(end == from + row_text(row).len());
}

/// Lines start with the first of them, and where there are more, a line
/// break and the other lines follow.
proof fn lemma_lines_front(parts: Seq<Seq<char>>)
    requires
        parts.len() > 0,
    ensures
        lines(parts) == if parts.len() == 1 {
            parts[0]
        } else {
            parts[0] + "\n"@ + lines(parts.skip(1))
        },
    decreases parts.len(),
{
    if parts.len() == 2 {
        assert(parts.drop_last().len() == 1);
        assert(parts.skip(1).len() == 1);
        assert(lines(parts.drop_last()) == parts.drop_last()[0]);
        assert(lines(parts.skip(1)) == parts.skip(1)[0]);
        assert(parts.drop_last()[0] == parts[0]);
        assert(parts.skip(1)[0] == parts.last());
    } else if parts.len() > 2 {
        let shorter = parts.drop_last();
        let others = parts.skip(1);
        lemma_lines_front(shorter);
        assert(shorter.skip(1) =~= others.drop_last());
        assert(others.last() == parts.last());
        assert(shorter[0] == parts[0]);
        assert(lines(parts) == lines(shorter) + "\n"@ + parts.last());
        assert(lines(others) == lines(others.drop_last()) + "\n"@ + others.last());
        assert(lines(parts) =~= parts[0] + "\n"@ + lines(others));
    }
}

/// A row is never empty.
proof fn lemma_row_is_not_empty(row: ProjectRowView)
    ensures
        row_text(row).len() > 0,
{
    reveal_strlit("|**[");
}

/// A text holds no line break exactly when the pattern of one line break
/// stands nowhere in it.
proof fn lemma_unbroken(text: Seq<char>)
    ensures
        unbroken(text) <==> !contains(text, "\n"@),
{
    reveal(unbroken);
    reveal_strlit("\n");
    if !unbroken(text) {
        let i = choose|i: int| 0 <= i < text.len() && text[i] == '\n';
        assert(text.subrange(i, i + 1) =~= "\n"@);
        assert(stands_at(text, "\n"@, i));
    }
    if contains(text, "\n"@) {
        let at = choose|at: int| stands_at(text, "\n"@, at);
        assert(text.subrange(at, at + 1)[0] == text[at]);
    }
}

/// Two texts without a line break, one behind the other, hold none.
proof fn lemma_unbroken_joined(first: Seq<char>, second: Seq<char>)
    requires
        unbroken(first),
        unbroken(second),
    ensures
        unbroken(first + second),
{
    reveal(unbroken);
}

/// The line of a row that can be read back holds no line break.
proof fn lemma_row_is_unbroken(row: ProjectRowView)
    requires
        readable(row),
    ensures
        unbroken(row_text(row)),
{
    assert(unbroken("|**["@) && unbroken("]("@) && unbroken(")**|"@) && unbroken("|"@)) by {
        reveal(unbroken);
        reveal_strlit("|**[");
        reveal_strlit("](");
        reveal_strlit(")**|");
        reveal_strlit("|");
    }
    assert(unbroken(decimal(row.stars)) && unbroken(decimal(row.forks))) by {
        reveal(unbroken);
        lemma_decimal_reads_back(row.stars);
        lemma_decimal_reads_back(row.forks);
        assert forall|i: int| 0 <= i < decimal(row.stars).len() implies decimal(row.stars)[i]
            != '\n' by {
            assert(digit_of(decimal(row.stars)[i]) is Some);
        }
        assert forall|i: int| 0 <= i < decimal(row.forks).len() implies decimal(row.forks)[i]
            != '\n' by {
            assert(digit_of(decimal(row.forks)[i]) is Some);
        }
    }
    lemma_row_is_unbroken_parts(row);
}

/// The line of a row holds no line break where none of its parts does.
proof fn lemma_row_is_unbroken_parts(row: ProjectRowView)
    requires
        readable(row),
        unbroken("|**["@) && unbroken("]("@) && unbroken(")**|"@) && unbroken("|"@),
        unbroken(decimal(row.stars)) && unbroken(decimal(row.forks)),
    ensures
        unbroken(row_text(row)),
{
    lemma_unbroken(row.name);
    lemma_unbroken(row.url);
    let a = "|**["@ + row.name;
    lemma_unbroken_joined("|**["@, row.name);
    let b = a + "]("@;
    lemma_unbroken_joined(a, "]("@);
    let c = b + row.url;
    lemma_unbroken_joined(b, row.url);
    let d = c + ")**|"@;
    lemma_unbroken_joined(c, ")**|"@);
    let e = d + decimal(row.stars);
    lemma_unbroken_joined(d, decimal(row.stars));
    let f = e + "|"@;
    lemma_unbroken_joined(e, "|"@);
    let g = f + decimal(row.forks);
    lemma_unbroken_joined(f, decimal(row.forks));
    lemma_unbroken_joined(g, "|"@);
}

/// A stretch without a line break that is closed by one, or by the end of
/// the text, is the rest of its line.
proof fn lemma_line_ends(text: Seq<char>, from: int, end: int)
    requires
        0 <= from <= end <= text.len(),
        forall|j: int| from <= j < end ==> text[j] != '\n',
        end == text.len() || text[end] == '\n',
    ensures
        line_end(text, from) == end,
    decreases end - from,
{
    if from < end {
        lemma_line_ends(text, from + 1, end);
    }
}

/// No line break stands before the end of a line.
proof fn lemma_line_is_unbroken(text: Seq<char>, from: int)
    requires
        0 <= from <= text.len(),
    ensures
        from <= line_end(text, from) <= text.len(),
        forall|j: int| from <= j < line_end(text, from) ==> text[j] != '\n',
    decreases text.len() - from,
{
    if from < text.len() && text[from] != '\n' {
        lemma_line_is_unbroken(text, from + 1);
    }
}

/// A field that lies within a stretch without a line break holds none.
proof fn lemma_field_on_a_line(
    text: Seq<char>,
    from: int,
    end: int,
    start: int,
    field: Seq<char>,
)
    requires
        0 <= from <= start,
        start + field.len() <= end <= text.len(),
        forall|j: int| from <= j < end ==> text[j] != '\n',
        text.subrange(start, start + field.len()) == field,
    ensures
        !contains(field, "\n"@),
{
    assert(unbroken(field)) by {
        reveal(unbroken);
        assert forall|i: int| 0 <= i < field.len() implies field[i] != '\n' by {
            assert(text.subrange(start, start + field.len())[i] == text[start + i]);
        }
    }
    lemma_unbroken(field);
}

/// A line without a line break that is written behind `before` and is
/// followed by nothing, or by a line break, ends where it was written to.
proof fn lemma_written_line_ends(before: Seq<char>, line: Seq<char>, after: Seq<char>)
    requires
        unbroken(line),
        after.len() == 0 || after[0] == '\n',
    ensures
        line_end(before + line + after, before.len() as int) == before.len() + line.len(),
{
    reveal(unbroken);
    let text = before + line + after;
    let from = before.len() as int;
    let end = from + line.len();
    assert forall|j: int| from <= j < end implies text[j] != '\n' by {
        assert(text[j] == line[j - from]);
    }
    if after.len() > 0 {
        assert(text[end] == after[0]);
    }
    lemma_line_ends(text, from, end);
}

/// Where the name and the address of a written row stand.
proof fn lemma_fields_of_a_row(before: Seq<char>, row: ProjectRowView, after: Seq<char>)
    ensures
        ({
            let text = before + row_text(row) + after;
            let name_start = before.len() as int + 4;
            let url_start = name_start + row.name.len() + 2;
            &&& url_start + row.url.len() <= before.len() + row_text(row).len()
            &&& text.subrange(name_start, name_start + row.name.len()) == row.name
            &&& text.subrange(url_start, url_start + row.url.len()) == row.url
        }),
{
    reveal_strlit("|**[");
    reveal_strlit("](");
    let text = before + row_text(row) + after;
    let name_start = before.len() as int + 4;
    let url_start = name_start + row.name.len() + 2;
    assert(text.subrange(name_start, name_start + row.name.len()) =~= row.name);
    assert(text.subrange(url_start, url_start + row.url.len()) =~= row.url);
}

/// What stands behind the first of the rows of a table: nothing where it
/// is the only one, else a line break and the lines of the others.
spec fn behind_first(rows: Seq<ProjectRowView>) -> Seq<char> {
    if rows.len() == 1 {
        Seq::empty()
    } else {
        "\n"@ + lines(row_texts(rows.skip(1)))
    }
}

/// The lines of the rows are the first row and what stands behind it.
proof fn lemma_first_row_and_rest(before: Seq<char>, rows: Seq<ProjectRowView>)
    requires
        rows.len() > 0,
    ensures
        before + lines(row_texts(rows)) == before + row_text(rows[0]) + behind_first(rows),
        rows.len() > 1 ==> before + lines(row_texts(rows)) == (before + row_text(rows[0]) + "\n"@)
            + lines(row_texts(rows.skip(1))),
        rows.len() > 1 ==> (before + lines(row_texts(rows)))[(before.len() + row_text(
            rows[0],
        ).len()) as int] == '\n',
{
    reveal_strlit("\n");
    lemma_lines_front(row_texts(rows));
    assert(row_texts(rows).skip(1) =~= row_texts(rows.skip(1)));
    let text = before + lines(row_texts(rows));
    assert(text =~= before + row_text(rows[0]) + behind_first(rows));
    if rows.len() > 1 {
        assert(text =~= (before + row_text(rows[0]) + "\n"@) + lines(row_texts(rows.skip(1))));
    }
}

/// Rows that were written one per line are read back in order.
proof fn lemma_rows_read_back(before: Seq<char>, rows: Seq<ProjectRowView>)
    requires
        rows.len() > 0,
        forall|i: int| 0 <= i < rows.len() ==> readable(#[trigger] rows[i]),
    ensures
        rows_from(before + lines(row_texts(rows)), before.len() as int) == Some(rows),
    decreases rows.len(),
{
    let text = before + lines(row_texts(rows));
    let first = rows[0];
    let rest = rows.skip(1);
    let from = before.len() as int;
    let written = before + row_text(first);
    let end = written.len() as int;
    lemma_first_row_and_rest(before, rows);
    assert(readable(first));
    assert(row_at(text, from) == Some((first, end))) by {
        assert(punctuated(first));
        lemma_row_reads_back(before, first, behind_first(rows));
    }
    assert(from < end <= text.len()) by {
        lemma_row_is_not_empty(first);
    }
    assert(line_end(text, from) == end) by {
        lemma_row_is_unbroken(first);
        reveal_strlit("\n");
        lemma_written_line_ends(before, row_text(first), behind_first(rows));
    }
    if rows.len() == 1 {
        assert(end == text.len());
        assert(seq![first] =~= rows);
    } else {
        assert(end < text.len());
        assert(rows_from(text, end + 1) == Some(rest)) by {
            assert forall|i: int| 0 <= i < rest.len() implies readable(#[trigger] rest[i]) by {
                assert(rest[i] == rows[i + 1]);
            }
            lemma_rows_read_back(written + "\n"@, rest);
            reveal_strlit("\n");
        }
        assert(seq![first] + rest =~= rows);
    }
}

/// The first place at which a pattern is found is a place where it
/// stands, and it stands nowhere between the start of the search and there.
proof fn lemma_first_at_is_first(text: Seq<char>, pattern: Seq<char>, from: int, at: int)
    requires
        first_at(text, pattern, from) == Some(at),
    ensures
        from <= at,
        stands_at(text, pattern, at),
        forall|j: int| from <= j < at ==> !stands_at(text, pattern, j),
    decreases text.len() - from + 1,
{
    if !stands_at(text, pattern, from) {
        lemma_first_at_is_first(text, pattern, from + 1, at);
    }
}

/// A field that is read back whole, up to the pattern that closes it,
/// does not hold that pattern.
proof fn lemma_field_read_whole(
    text: Seq<char>,
    pattern: Seq<char>,
    from: int,
    field: Seq<char>,
)
    requires
        0 <= from,
        pattern.len() > 0,
        from + field.len() <= text.len(),
        text.subrange(from, from + field.len()) == field,
        first_at(text, pattern, from) == Some(from + field.len()),
    ensures
        !contains(field, pattern),
{
    lemma_first_at_is_first(text, pattern, from, from + field.len());
    if contains(field, pattern) {
        let at = choose|at: int| stands_at(field, pattern, at);
        assert(text.subrange(from + at, from + at + pattern.len()) =~= field.subrange(
            at,
            at + pattern.len(),
        ));
        assert(stands_at(text, pattern, from + at));
    }
}

/// The punctuation of a row that is read back as it was written can be
/// told apart.
proof fn lemma_row_read_back_is_punctuated(
    before: Seq<char>,
    row: ProjectRowView,
    after: Seq<char>,
    end: int,
)
    requires
        row_at(before + row_text(row) + after, before.len() as int) == Some((row, end)),
    ensures
        punctuated(row),
{
    reveal_strlit("|**[");
    reveal_strlit("](");
    reveal_strlit(")**|");
    let text = before + row_text(row) + after;
    let from = before.len() as int;
    let name_start = from + 4;
    let name_end = first_at(text, "]("@, name_start)->Some_0;
    lemma_first_at_is_first(text, "]("@, name_start, name_end);
    assert(name_end == name_start + row.name.len()) by {
        assert(text.subrange(name_start, name_end).len() == row.name.len());
    }
    assert(!contains(row.name, "]("@)) by {
        assert(text.subrange(name_start, name_start + row.name.len()) == row.name);
        lemma_field_read_whole(text, "]("@, name_start, row.name);
    }
    let url_start = name_end + 2;
    let url_end = first_at(text, ")**|"@, url_start)->Some_0;
    lemma_first_at_is_first(text, ")**|"@, url_start, url_end);
    assert(url_end == url_start + row.url.len()) by {
        assert(text.subrange(url_start, url_end).len() == row.url.len());
    }
    assert(!contains(row.url, ")**|"@)) by {
        assert(text.subrange(url_start, url_start + row.url.len()) == row.url);
        lemma_field_read_whole(text, ")**|"@, url_start, row.url);
    }
}

/// Rows that are read back as they were written can all be read back.
proof fn lemma_rows_read_back_are_readable(before: Seq<char>, rows: Seq<ProjectRowView>)
    requires
        rows.len() > 0,
        rows_from(before + lines(row_texts(rows)), before.len() as int) == Some(rows),
    ensures
        forall|i: int| 0 <= i < rows.len() ==> readable(#[trigger] rows[i]),
    decreases rows.len(),
{
    let text = before + lines(row_texts(rows));
    let first = rows[0];
    let rest = rows.skip(1);
    let from = before.len() as int;
    let written = before + row_text(first);
    let end = written.len() as int;
    lemma_first_row_and_rest(before, rows);
    let found = row_at(text, from)->Some_0;
    assert(found.0 == first) by {
        if found.1 == text.len() {
            assert(seq![found.0][0] == found.0);
        } else {
            let read = rows_from(text, found.1 + 1)->Some_0;
            assert((seq![found.0] + read)[0] == found.0);
        }
    }
    assert(punctuated(first) && found.1 == end) by {
        lemma_row_read_back_is_punctuated(before, first, behind_first(rows), found.1);
        lemma_row_reads_back(before, first, behind_first(rows));
    }
    assert(end == line_end(text, from));
    assert(!contains(first.name, "\n"@) && !contains(first.url, "\n"@)) by {
        lemma_line_is_unbroken(text, from);
        lemma_fields_of_a_row(before, first, behind_first(rows));
        let name_start = from + 4;
        let url_start = name_start + first.name.len() + 2;
        lemma_field_on_a_line(text, from, end, name_start, first.name);
        lemma_field_on_a_line(text, from, end, url_start, first.url);
    }
    assert(readable(first));
    if rows.len() > 1 {
        let read = rows_from(text, end + 1)->Some_0;
        assert(end < text.len() && (written + "\n"@).len() == end + 1) by {
            reveal_strlit("\n");
        }
        assert(read == rest) by {
            assert(seq![first] + read == rows);
            assert((seq![first] + read).skip(1) =~= read);
        }
        lemma_rows_read_back_are_readable(written + "\n"@, rest);
        assert forall|i: int| 0 <= i < rows.len() implies readable(#[trigger] rows[i]) by {
            if i > 0 {
                assert(rows[i] == rest[i - 1]);
            }
        }
    }
}

/// A table whose rows are written one per line is not the table of the
/// placeholder row.
proof fn lemma_rows_are_not_the_placeholder(rows: Seq<ProjectRowView>)
    requires
        rows.len() > 0,
    ensures
        table_body(rows) != placeholder_row(),
        table_body(rows).len() > 0,
{
    lemma_lines_front(row_texts(rows));
    reveal_strlit("|**[");
    reveal_strlit("|*It's deserted here… 😔*|🏜️|🌃|");
    let body = table_body(rows);
    assert(body[2] == '*');
    assert(placeholder_row()[2] == 'I');
}

/// Reading back the table written for `rows` gives `rows`: the same names,
/// addresses, stars and forks, in the same order. With no row, the
/// placeholder row is written and no row is read back.
pub proof fn table_reads_back(rows: Seq<ProjectRowView>)
    requires
        forall|i: int| 0 <= i < rows.len() ==> readable(#[trigger] rows[i]),
    ensures
        parsed_table(table(rows)) == Some(rows),
{
    let text = table(rows);
    let start = table_header().len() as int;
    assert(text.subrange(0, start) =~= table_header());
    assert(text.skip(start) =~= table_body(rows));
    if rows.len() == 0 {
        assert(rows =~= Seq::empty());
    } else {
        lemma_rows_are_not_the_placeholder(rows);
        lemma_rows_read_back(table_header(), rows);
    }
}

/// The rows that are read back as they were written are exactly those that
/// can be read back: one row whose name holds `](`, whose address holds
/// `)**|`, whose name or address holds a line break or whose count does
/// not fit, and the table reads back as something else or not at all.
pub proof fn table_reads_back_only_if_readable(rows: Seq<ProjectRowView>)
    requires
        parsed_table(table(rows)) == Some(rows),
    ensures
        forall|i: int| 0 <= i < rows.len() ==> readable(#[trigger] rows[i]),
{
    let text = table(rows);
    let start = table_header().len() as int;
    assert(text.subrange(0, start) =~= table_header());
    assert(text.skip(start) =~= table_body(rows));
    if rows.len() > 0 {
        lemma_rows_are_not_the_placeholder(rows);
        lemma_rows_read_back_are_readable(table_header(), rows);
    }
}

} // verus!
