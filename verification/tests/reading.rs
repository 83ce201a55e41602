use profile_readme::model::ProjectRow;
use profile_readme::reader::{chars_of, end_of_line, find, read_count, read_table, stands};
use profile_readme::table::render_table;

fn row(name: &str, url: &str, stars: u64, forks: u64) -> ProjectRow {
    ProjectRow { name: String::from(name), url: String::from(url), stars, forks }
}

const HEADER: &str = "|📖 Projects|⭐ Stars|🍴 Forks|\n|-|-|-|\n";

#[test]
fn chars_of_counts_characters_not_bytes() {
    assert_eq!(chars_of("a😔b"), vec!['a', '😔', 'b']);
    assert_eq!(chars_of(""), Vec::<char>::new());
}

#[test]
fn stands_compares_at_a_position() {
    let text = chars_of("abcabc");
    assert!(stands(&text, &chars_of("abc"), 0));
    assert!(stands(&text, &chars_of("abc"), 3));
    assert!(!stands(&text, &chars_of("abc"), 1));
    assert!(!stands(&text, &chars_of("abc"), 4));
    assert!(!stands(&text, &chars_of("abc"), 100));
    assert!(stands(&text, &chars_of(""), 6));
    assert!(!stands(&text, &chars_of(""), 7));
    assert!(!stands(&chars_of("ab"), &chars_of("abc"), 0));
}

#[test]
fn find_gives_the_first_place() {
    let text = chars_of("a](b](c");
    assert_eq!(find(&text, &chars_of("]("), 0), Some(1));
    assert_eq!(find(&text, &chars_of("]("), 1), Some(1));
    assert_eq!(find(&text, &chars_of("]("), 2), Some(4));
    assert_eq!(find(&text, &chars_of("]("), 5), None);
    assert_eq!(find(&text, &chars_of("]("), 50), None);
    assert_eq!(find(&text, &chars_of("x"), 0), None);
    assert_eq!(find(&chars_of("a"), &chars_of("ab"), 0), None);
}

#[test]
fn count_is_a_run_of_digits_closed_by_a_bar() {
    assert_eq!(read_count(&chars_of("12|"), 0), Some((12, 3)));
    assert_eq!(read_count(&chars_of("x0|y"), 1), Some((0, 3)));
    assert_eq!(read_count(&chars_of("007|"), 0), Some((7, 4)));
    assert_eq!(read_count(&chars_of("|"), 0), None);
    assert_eq!(read_count(&chars_of("12"), 0), None);
    assert_eq!(read_count(&chars_of("12a|"), 0), None);
    assert_eq!(read_count(&chars_of("-1|"), 0), None);
    assert_eq!(read_count(&chars_of("1|"), 5), None);
}

#[test]
fn count_has_to_fit_in_64_bits() {
    assert_eq!(read_count(&chars_of("18446744073709551615|"), 0), Some((u64::MAX, 21)));
    assert_eq!(read_count(&chars_of("18446744073709551616|"), 0), None);
    assert_eq!(read_count(&chars_of("99999999999999999999999|"), 0), None);
}

#[test]
fn table_without_projects_reads_back_as_no_row() {
    assert_eq!(read_table(&render_table(&Vec::new())), Some(Vec::new()));
}

#[test]
fn table_reads_back_as_written() {
    let rows = vec![
        row("tool", "https://example.org/tool", 12, 3),
        row("other thing", "https://example.org/a(b)", 0, u64::MAX),
        row("tool", "https://example.org/tool", 12, 3),
        row("", "", 1, 1),
        row("a]b)c|d*", "x)*|)**", 5, 6),
    ];
    assert_eq!(read_table(&render_table(&rows)), Some(rows));
}

#[test]
fn table_with_one_row_reads_back() {
    let rows = vec![row("😔", "https://example.org/…", 7, 0)];
    assert_eq!(read_table(&render_table(&rows)), Some(rows));
}

#[test]
fn table_is_read_from_its_text() {
    let text = format!("{}{}", HEADER, "|**[a](u/a)**|1|2|\n|**[b](u/b)**|30|0|");
    assert_eq!(read_table(&text), Some(vec![row("a", "u/a", 1, 2), row("b", "u/b", 30, 0)]));
}

#[test]
fn table_is_read_line_by_line() {
    let rows = vec![row("a", "https://x/a", 1, 2), row("b", "https://x/b", 3, 4)];
    let text = render_table(&rows);
    let lines: Vec<&str> = text.lines().skip(2).collect();
    assert_eq!(lines, vec!["|**[a](https://x/a)**|1|2|", "|**[b](https://x/b)**|3|4|"]);
    assert_eq!(read_table(&text), Some(rows));
}

#[test]
fn two_rows_on_one_line_are_no_table() {
    assert_eq!(
        read_table(&format!("{}{}", HEADER, "|**[a](u/a)**|1|2||**[b](u/b)**|30|0|")),
        None
    );
}

#[test]
fn line_break_has_to_be_followed_by_a_row() {
    assert_eq!(read_table(&format!("{}{}", HEADER, "|**[a](u/a)**|1|2|\n")), None);
    assert_eq!(read_table(&format!("{}{}", HEADER, "|**[a](u/a)**|1|2|\n\n|**[b](u/b)**|3|4|")), None);
    assert_eq!(read_table(&format!("{}{}", HEADER, "\n|**[a](u/a)**|1|2|")), None);
    assert_eq!(read_table(&format!("{}{}", HEADER, "|**[a](u/a)**|1|2|\nx")), None);
}

#[test]
fn name_that_holds_a_line_break_is_not_read_back() {
    let rows = vec![row("a\nb", "u", 1, 2)];
    assert_eq!(read_table(&render_table(&rows)), None);
    let rows = vec![row("a", "u", 1, 2), row("b\n", "v", 3, 4)];
    assert_ne!(read_table(&render_table(&rows)), Some(rows));
}

#[test]
fn address_that_holds_a_line_break_is_not_read_back() {
    let rows = vec![row("a", "u\nv", 1, 2)];
    assert_eq!(read_table(&render_table(&rows)), None);
}

#[test]
fn end_of_line_is_the_next_line_break() {
    let text = chars_of("ab\ncd\n");
    assert_eq!(end_of_line(&text, 0), 2);
    assert_eq!(end_of_line(&text, 2), 2);
    assert_eq!(end_of_line(&text, 3), 5);
    assert_eq!(end_of_line(&text, 6), 6);
    assert_eq!(end_of_line(&text, 9), 9);
    assert_eq!(end_of_line(&chars_of("abc"), 1), 3);
}

#[test]
fn name_that_holds_the_punctuation_ends_early() {
    let rows = vec![row("a](b", "u", 1, 2)];
    let read = read_table(&render_table(&rows));
    assert_eq!(read, Some(vec![row("a", "b](u", 1, 2)]));
    assert_ne!(read, Some(rows));
}

#[test]
fn address_that_holds_the_punctuation_is_not_read_back() {
    let rows = vec![row("a", "u)**|1|2|", 3, 4)];
    assert_ne!(read_table(&render_table(&rows)), Some(rows));
}

#[test]
fn text_without_the_header_is_no_table() {
    assert_eq!(read_table(""), None);
    assert_eq!(read_table("|**[a](u/a)**|1|2|"), None);
    assert_eq!(read_table("|*It's deserted here… 😔*|🏜️|🌃|"), None);
}

#[test]
fn header_alone_is_no_table() {
    assert_eq!(read_table(HEADER), None);
}

#[test]
fn anything_else_behind_the_header_is_no_table() {
    assert_eq!(read_table(&format!("{}{}", HEADER, "|**[a](u/a)**|1|2|\n")), None);
    assert_eq!(read_table(&format!("{}{}", HEADER, "|**[a](u/a)**|1|")), None);
    assert_eq!(read_table(&format!("{}{}", HEADER, "|**[a](u/a)**|x|2|")), None);
    assert_eq!(read_table(&format!("{}{}", HEADER, "|**[a]u/a**|1|2|")), None);
    assert_eq!(read_table(&format!("{}{}", HEADER, "|*It's deserted here… 😔*|🏜️|🌃|x")), None);
    assert_eq!(
        read_table(&format!("{}{}", HEADER, "|**[a](u)**|1|18446744073709551616|")),
        None
    );
}
