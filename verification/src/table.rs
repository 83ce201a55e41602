//! The project table: a fixed header, then one row per project, each on a
//! line of its own, or a single placeholder row where there is no project
//! to show.

use vstd::prelude::*;
use crate::model::{views, ProjectRow, ProjectRowView};
use crate::text::{decimal, lines, push_decimal};

verus! {

/// The two header lines of the table.
pub open spec fn table_header() -> Seq<char> {
    "|📖 Projects|⭐ Stars|🍴 Forks|\n|-|-|-|\n"@
}

/// The row shown in place of the projects where there are none.
pub open spec fn placeholder_row() -> Seq<char> {
    "|*It's deserted here… 😔*|🏜️|🌃|"@
}

/// The row of one project: its linked name in bold, its stars, its forks.
pub open spec fn row_text(row: ProjectRowView) -> Seq<char> {
    "|**["@ + row.name + "]("@ + row.url + ")**|"@ + decimal(row.stars) + "|"@ + decimal(
        row.forks,
    ) + "|"@
}

/// The rows of `rows`: one for each, in the same order.
pub open spec fn row_texts(rows: Seq<ProjectRowView>) -> Seq<Seq<char>> {
    Seq::new(rows.len(), |i: int| row_text(rows[i]))
}

/// What follows the header: the placeholder row for no project, else the
/// rows of the projects, one per line. No line break follows the last row.
pub open spec fn table_body(rows: Seq<ProjectRowView>) -> Seq<char> {
    if rows.len() == 0 {
        placeholder_row()
    } else {
        lines(row_texts(rows))
    }
}

/// The whole table: header and body.
pub open spec fn table(rows: Seq<ProjectRowView>) -> Seq<char> {
    table_header() + table_body(rows)
}

/// Appends the row of one project to `out`.
pub fn push_row(out: &mut String, row: &ProjectRow)
    ensures
        final(out)@ == old(out)@ + row_text(row@),
{
    out.append("|**[");
    out.append(row.name.as_str());
    out.append("](");
    out.append(row.url.as_str());
    out.append(")**|");
    push_decimal(out, row.stars);
    out.append("|");
    push_decimal(out, row.forks);
    out.append("|");
    assert(final(out)@ =~= old(out)@ + row_text(row@));
}

/// What follows the header of the table for `rows`.
pub fn render_table_body(rows: &Vec<ProjectRow>) -> (body: String)
    ensures
        body@ == table_body(views(rows@)),
{
    let ghost shown = views(rows@);
    let mut body = String::new();
    if rows.len() == 0 {
        body.append("|*It's deserted here… 😔*|🏜️|🌃|");
        assert(body@ =~= placeholder_row());
        return body;
    }
    let mut i: usize = 0;
    while i < rows.len()
        invariant
            i <= rows.len(),
            shown == views(rows@),
            body@ == lines(row_texts(shown.take(i as int))),
        decreases rows.len() - i,
    {
        if i > 0 {
            body.append("\n");
        }
        push_row(&mut body, &rows[i]);
        proof {
            lemma_rows_step(shown, i as int);
        }
        i = i + 1;
    }
    assert(shown.take(i as int) =~= shown);
    body
}

/// The project table for `rows`.
pub fn render_table(rows: &Vec<ProjectRow>) -> (text: String)
    ensures
        text@ == table(views(rows@)),
{
    let mut text = String::new();
    text.append("|📖 Projects|⭐ Stars|🍴 Forks|\n|-|-|-|\n");
    let body = render_table_body(rows);
    text.append(body.as_str());
    assert(text@ =~= table(views(rows@)));
    text
}

/// The lines of the first `i + 1` projects are the row of the first alone,
/// or the lines of the first `i`, a line break, and the row of the one at
/// `i`.
proof fn lemma_rows_step(rows: Seq<ProjectRowView>, i: int)
    requires
        0 <= i < rows.len(),
    ensures
        lines(row_texts(rows.take(i + 1))) == if i == 0 {
            row_text(rows[i])
        } else {
            lines(row_texts(rows.take(i))) + "\n"@ + row_text(rows[i])
        },
        i == 0 ==> lines(row_texts(rows.take(i))) == Seq::<char>::empty(),
{
    let longer = row_texts(rows.take(i + 1));
    assert(longer.drop_last() =~= row_texts(rows.take(i)));
    assert(longer.last() == row_text(rows[i]));
}

/// With no project the body of the table is the placeholder row and nothing
/// else. With one project it is the row of that project. With more it is
/// the body for all but the last, a line break, and the row of the last:
/// one row per project and per line, in the order of the projects, each
/// made of that project's name, address, stars and forks.
pub proof fn table_body_has_one_row_per_project(rows: Seq<ProjectRowView>)
    ensures
        rows.len() == 0 ==> table_body(rows) == placeholder_row(),
        rows.len() == 1 ==> table_body(rows) == row_text(rows[0]),
        rows.len() == 2 ==> table_body(rows) == row_text(rows[0]) + "\n"@ + row_text(rows[1]),
        rows.len() >= 2 ==> table_body(rows) == table_body(rows.drop_last()) + "\n"@ + row_text(
            rows.last(),
        ),
        rows.len() >= 1 ==> table_body(rows) == lines(row_texts(rows)),
        row_texts(rows).len() == rows.len(),
        forall|i: int|
            0 <= i < rows.len() ==> #[trigger] row_texts(rows)[i] == "|**["@ + rows[i].name
                + "]("@ + rows[i].url + ")**|"@ + decimal(rows[i].stars) + "|"@ + decimal(
                rows[i].forks,
            ) + "|"@,
{
    if rows.len() >= 2 {
        assert(row_texts(rows).drop_last() =~= row_texts(rows.drop_last()));
    }
    if rows.len() == 2 {
        assert(lines(row_texts(rows).drop_last()) == row_texts(rows)[0]);
    }
}

} // verus!
