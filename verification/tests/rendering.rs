use profile_readme::badges::{push_badge, render_learning, render_technologies};
use profile_readme::failure::Failure;
use profile_readme::model::{LearningItem, Project, ProjectRow, RepoStats, Technology};
use profile_readme::page::{
    push_footer, push_learning_section, push_projects_section, push_technologies_section,
    push_title_section, render_page, Profile,
};
use profile_readme::table::{push_row, render_table, render_table_body};
use profile_readme::text::{decimal_text, push_decimal};

fn technology(name: &str, badge: &str) -> Technology {
    Technology { name: String::from(name), badge: String::from(badge) }
}

fn learning(name: &str, badge: &str, reason: &str) -> LearningItem {
    LearningItem {
        name: String::from(name),
        badge: String::from(badge),
        reason: String::from(reason),
    }
}

fn row(name: &str, url: &str, stars: u64, forks: u64) -> ProjectRow {
    ProjectRow { name: String::from(name), url: String::from(url), stars, forks }
}

const HEADER: &str = "|📖 Projects|⭐ Stars|🍴 Forks|\n|-|-|-|\n";
const PLACEHOLDER: &str = "|*It's deserted here… 😔*|🏜️|🌃|";
const STATS: &str = "### Stats\n![Will's GitHub stats](https://github-readme-stats.vercel.app/api?username=anuraghazra&theme=github_dark&show_icons=true)\n<figure><embed src=\"https://wakatime.com/share/@a345175e-628e-4692-8abd-b349e72e294a/7ac23843-3870-4034-9d1e-d59527adf038.svg\"></embed></figure>\n";

#[test]
fn decimal_of_zero_is_a_single_digit() {
    assert_eq!(decimal_text(0), "0");
}

#[test]
fn decimal_has_no_leading_zeros() {
    assert_eq!(decimal_text(7), "7");
    assert_eq!(decimal_text(10), "10");
    assert_eq!(decimal_text(1234567890), "1234567890");
    assert_eq!(decimal_text(100200), "100200");
}

#[test]
fn decimal_of_the_largest_count() {
    assert_eq!(decimal_text(u64::MAX), "18446744073709551615");
}

#[test]
fn push_decimal_appends() {
    let mut out = String::from("stars: ");
    push_decimal(&mut out, 42);
    assert_eq!(out, "stars: 42");
}

#[test]
fn one_technology_gives_one_link() {
    let items = vec![technology("Rust", "https://img/rust.svg")];
    assert_eq!(render_technologies(&items), "![Rust](https://img/rust.svg) ");
}

#[test]
fn links_keep_the_order_of_the_items() {
    let items = vec![technology("b", "2"), technology("a", "1"), technology("c", "3")];
    assert_eq!(render_technologies(&items), "![b](2) ![a](1) ![c](3) ");
}

#[test]
fn duplicate_items_are_rendered_as_they_are() {
    let items = vec![technology("Rust", "r"), technology("Rust", "r")];
    assert_eq!(render_technologies(&items), "![Rust](r) ![Rust](r) ");
}

#[test]
fn no_item_gives_an_empty_line() {
    assert_eq!(render_technologies(&Vec::new()), "");
    assert_eq!(render_learning(&Vec::new()), "");
}

#[test]
fn learning_line_does_not_show_the_reason() {
    let with_reason = vec![learning("Zig", "z.svg", "curiosity"), learning("Go", "g.svg", "work")];
    let other_reason = vec![learning("Zig", "z.svg", ""), learning("Go", "g.svg", "![x](y) ")];
    assert_eq!(render_learning(&with_reason), "![Zig](z.svg) ![Go](g.svg) ");
    assert_eq!(render_learning(&with_reason), render_learning(&other_reason));
}

#[test]
fn push_badge_appends_one_link() {
    let mut out = String::from("x");
    push_badge(&mut out, "n", "b");
    assert_eq!(out, "x![n](b) ");
}

#[test]
fn technologies_section_of_one_item() {
    let mut out = String::new();
    push_technologies_section(&mut out, &vec![technology("Rust", "https://img/rust.svg")]);
    assert_eq!(out, "### Technologies I use\n![Rust](https://img/rust.svg) \n");
}

#[test]
fn empty_sections_keep_their_headings() {
    let mut out = String::new();
    push_technologies_section(&mut out, &Vec::new());
    push_learning_section(&mut out, &Vec::new());
    assert_eq!(out, "### Technologies I use\n\n### Things I'm learning\n\n");
}

#[test]
fn row_shows_name_address_stars_and_forks() {
    let mut out = String::new();
    push_row(&mut out, &row("tool", "https://example.org/tool", 12, 3));
    assert_eq!(out, "|**[tool](https://example.org/tool)**|12|3|");
}

#[test]
fn row_of_a_project_takes_name_and_address() {
    let project = Project {
        name: String::from("tool"),
        username: String::from("someone"),
        url: String::from("https://example.org/tool"),
    };
    let made = ProjectRow::new(&project, RepoStats { stargazers_count: 5, forks: 1 });
    assert_eq!(made, row("tool", "https://example.org/tool", 5, 1));
}

#[test]
fn no_project_gives_the_placeholder_row() {
    assert_eq!(render_table_body(&Vec::new()), PLACEHOLDER);
    assert_eq!(render_table(&Vec::new()), format!("{}{}", HEADER, PLACEHOLDER));
}

#[test]
fn projects_section_without_projects() {
    let mut out = String::new();
    push_projects_section(&mut out, &Vec::new());
    assert_eq!(
        out,
        "### Current Projects\n|📖 Projects|⭐ Stars|🍴 Forks|\n|-|-|-|\n|*It's deserted here… 😔*|🏜️|🌃|\n"
    );
}

#[test]
fn rows_follow_each_other_in_order() {
    let rows = vec![row("a", "u/a", 1, 2), row("b", "u/b", 30, 0), row("c", "u/c", 0, 400)];
    assert_eq!(
        render_table_body(&rows),
        "|**[a](u/a)**|1|2|\n|**[b](u/b)**|30|0|\n|**[c](u/c)**|0|400|"
    );
    assert_eq!(
        render_table(&rows),
        format!("{}{}", HEADER, "|**[a](u/a)**|1|2|\n|**[b](u/b)**|30|0|\n|**[c](u/c)**|0|400|")
    );
}

#[test]
fn two_projects_give_two_lines() {
    let rows = vec![row("a", "https://x/a", 1, 2), row("b", "https://x/b", 3, 4)];
    let body = render_table_body(&rows);
    assert_eq!(body, "|**[a](https://x/a)**|1|2|\n|**[b](https://x/b)**|3|4|");
    assert_eq!(
        body.lines().collect::<Vec<&str>>(),
        vec!["|**[a](https://x/a)**|1|2|", "|**[b](https://x/b)**|3|4|"]
    );
}

#[test]
fn body_has_as_many_lines_as_projects() {
    let rows = vec![
        row("a", "u/a", 1, 2),
        row("b", "u/b", 3, 4),
        row("c", "u/c", 5, 6),
        row("d", "u/d", 7, 8),
    ];
    let body = render_table_body(&rows);
    assert_eq!(body.lines().count(), 4);
    assert!(!body.ends_with('\n'));
    assert!(!body.contains("||"));
}

#[test]
fn projects_section_with_two_projects() {
    let mut out = String::new();
    push_projects_section(&mut out, &vec![row("a", "u/a", 1, 2), row("b", "u/b", 3, 4)]);
    assert_eq!(
        out,
        "### Current Projects\n|📖 Projects|⭐ Stars|🍴 Forks|\n|-|-|-|\n|**[a](u/a)**|1|2|\n|**[b](u/b)**|3|4|\n"
    );
}

#[test]
fn one_project_has_no_placeholder() {
    let rows = vec![row("a", "u/a", 1, 2)];
    assert_eq!(render_table_body(&rows), "|**[a](u/a)**|1|2|");
}

#[test]
fn title_section_has_heading_and_introduction() {
    let mut out = String::new();
    let profile = Profile { greeting: String::from("Hey there!👋"), intro: String::from("I'm **Will**.") };
    push_title_section(&mut out, &profile);
    assert_eq!(out, "# Hey there!👋\nI'm **Will**.\n");
}

#[test]
fn footer_carries_the_time_of_rendering() {
    let mut out = String::new();
    push_footer(&mut out, "Friday, 15 May, 01:00 GMT+0100");
    assert_eq!(
        out,
        format!(
            "{}{}",
            STATS,
            "-----\nThis *README* file is regenerated **every 6 hours**.\n*Should I have written it in Rust? No*\n\nLast Update: Friday, 15 May, 01:00 GMT+0100\n\n![Source Code](https://github.com/wsandy1/wsandy1)"
        )
    );
}

#[test]
fn page_puts_the_sections_in_order() {
    let profile = Profile { greeting: String::from("Hello"), intro: String::from("An introduction.") };
    let text = render_page(
        &profile,
        &vec![technology("Rust", "https://img/rust.svg")],
        &vec![learning("Zig", "https://img/zig.svg", "for fun")],
        &vec![row("tool", "https://example.org/tool", 12, 3)],
        "Thursday,  1 January, 00:00 GMT+0000",
    );
    let expected = format!(
        "{}{}{}{}{}{}",
        "# Hello\nAn introduction.\n",
        "### Technologies I use\n![Rust](https://img/rust.svg) \n",
        "### Things I'm learning\n![Zig](https://img/zig.svg) \n",
        "### Current Projects\n|📖 Projects|⭐ Stars|🍴 Forks|\n|-|-|-|\n|**[tool](https://example.org/tool)**|12|3|\n",
        STATS,
        "-----\nThis *README* file is regenerated **every 6 hours**.\n*Should I have written it in Rust? No*\n\nLast Update: Thursday,  1 January, 00:00 GMT+0000\n\n![Source Code](https://github.com/wsandy1/wsandy1)"
    );
    assert_eq!(text, expected);
}

#[test]
fn page_of_nothing_fetched() {
    let profile = Profile { greeting: String::from("Hello"), intro: String::from("") };
    let text = render_page(&profile, &Vec::new(), &Vec::new(), &Vec::new(), "now");
    let expected = format!(
        "{}{}{}",
        "# Hello\n\n### Technologies I use\n\n### Things I'm learning\n\n### Current Projects\n|📖 Projects|⭐ Stars|🍴 Forks|\n|-|-|-|\n|*It's deserted here… 😔*|🏜️|🌃|\n",
        STATS,
        "-----\nThis *README* file is regenerated **every 6 hours**.\n*Should I have written it in Rust? No*\n\nLast Update: now\n\n![Source Code](https://github.com/wsandy1/wsandy1)"
    );
    assert_eq!(text, expected);
}

#[test]
fn failure_messages() {
    assert_eq!(Failure::MissingBaseUrl.message(), "BASE_URL is not set");
    assert_eq!(Failure::MissingApiKey.message(), "API_KEY is not set");
    assert_eq!(Failure::Unauthorized.message(), "Unauthorized");
    assert_eq!(
        Failure::UnexpectedStatus(503).message(),
        "Uh oh! Something unexpected happened: 503"
    );
    assert_eq!(Failure::MalformedBody.message(), "Error deserializing response");
    assert_eq!(Failure::TimeOutOfRange.message(), "The time of rendering is out of range");
    assert_eq!(Failure::UnexpectedEvent.message(), "An event arrived out of turn");
}
