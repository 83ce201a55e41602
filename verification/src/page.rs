//! The page as a whole: title, the two badge sections, the project table
//! and the closing block, in that order.

use vstd::prelude::*;
use crate::badges::{
    badge_line, learning_badges, render_learning, render_technologies, technology_badges,
};
use crate::model::{
    views, LearningItem, LearningItemView, ProjectRow, ProjectRowView, Technology,
    TechnologyView,
};
use crate::table::{render_table, table};

verus! {

/// The words that open the page.
#[derive(Clone, Debug, PartialEq, Eq)]
pub struct Profile {
    pub greeting: String,
    pub intro: String,
}

/// The opening words as plain values.
pub struct ProfileView {
    pub greeting: Seq<char>,
    pub intro: Seq<char>,
}

impl View for Profile {
    type V = ProfileView;

    open spec fn view(&self) -> ProfileView {
        ProfileView { greeting: self.greeting@, intro: self.intro@ }
    }
}

/// The greeting as a first-level heading, then the introduction.
pub open spec fn title_section(profile: ProfileView) -> Seq<char> {
    "# "@ + profile.greeting + "\n"@ + profile.intro + "\n"@
}

/// The heading of the technologies, then their badges on one line.
pub open spec fn technologies_section(items: Seq<TechnologyView>) -> Seq<char> {
    "### Technologies I use\n"@ + badge_line(technology_badges(items)) + "\n"@
}

/// The heading of the learning items, then their badges on one line.
pub open spec fn learning_section(items: Seq<LearningItemView>) -> Seq<char> {
    "### Things I'm learning\n"@ + badge_line(learning_badges(items)) + "\n"@
}

/// The heading of the projects, then the table.
pub open spec fn projects_section(rows: Seq<ProjectRowView>) -> Seq<char> {
    "### Current Projects\n"@ + table(rows) + "\n"@
}

/// The statistics widgets, which never change.
pub open spec fn stats_block() -> Seq<char> {
    "### Stats\n![Will's GitHub stats](https://github-readme-stats.vercel.app/api?username=anuraghazra&theme=github_dark&show_icons=true)\n<figure><embed src=\"https://wakatime.com/share/@a345175e-628e-4692-8abd-b349e72e294a/7ac23843-3870-4034-9d1e-d59527adf038.svg\"></embed></figure>\n"@
}

/// The closing lines, with the time of rendering `stamp` in them.
pub open spec fn closing_block(stamp: Seq<char>) -> Seq<char> {
    "-----\nThis *README* file is regenerated **every 6 hours**.\n*Should I have written it in Rust? No*\n\nLast Update: "@
        + stamp + "\n\n![Source Code](https://github.com/wsandy1/wsandy1)"@
}

/// The whole page.
pub open spec fn page(
    profile: ProfileView,
    technologies: Seq<TechnologyView>,
    learning: Seq<LearningItemView>,
    rows: Seq<ProjectRowView>,
    stamp: Seq<char>,
) -> Seq<char> {
    title_section(profile) + technologies_section(technologies) + learning_section(learning)
        + projects_section(rows) + stats_block() + closing_block(stamp)
}

/// Appends the title section to `out`.
pub fn push_title_section(out: &mut String, profile: &Profile)
    ensures
        final(out)@ == old(out)@ + title_section(profile@),
{
    out.append("# ");
    out.append(profile.greeting.as_str());
    out.append("\n");
    out.append(profile.intro.as_str());
    out.append("\n");
    assert(final(out)@ =~= old(out)@ + title_section(profile@));
}

/// Appends the section of the technologies in use to `out`.
pub fn push_technologies_section(out: &mut String, items: &Vec<Technology>)
    ensures
        final(out)@ == old(out)@ + technologies_section(views(items@)),
{
    out.append("### Technologies I use\n");
    let line = render_technologies(items);
    out.append(line.as_str());
    out.append("\n");
    assert(final(out)@ =~= old(out)@ + technologies_section(views(items@)));
}

/// Appends the section of the things being learnt to `out`.
pub fn push_learning_section(out: &mut String, items: &Vec<LearningItem>)
    ensures
        final(out)@ == old(out)@ + learning_section(views(items@)),
{
    out.append("### Things I'm learning\n");
    let line = render_learning(items);
    out.append(line.as_str());
    out.append("\n");
    assert(final(out)@ =~= old(out)@ + learning_section(views(items@)));
}

/// Appends the section of the current projects to `out`.
pub fn push_projects_section(out: &mut String, rows: &Vec<ProjectRow>)
    ensures
        final(out)@ == old(out)@ + projects_section(views(rows@)),
{
    out.append("### Current Projects\n");
    let text = render_table(rows);
    out.append(text.as_str());
    out.append("\n");
    assert(final(out)@ =~= old(out)@ + projects_section(views(rows@)));
}

/// Appends the statistics widgets and the closing lines to `out`.
pub fn push_footer(out: &mut String, stamp: &str)
    ensures
        final(out)@ == old(out)@ + stats_block() + closing_block(stamp@),
{
    out.append(
        "### Stats\n![Will's GitHub stats](https://github-readme-stats.vercel.app/api?username=anuraghazra&theme=github_dark&show_icons=true)\n<figure><embed src=\"https://wakatime.com/share/@a345175e-628e-4692-8abd-b349e72e294a/7ac23843-3870-4034-9d1e-d59527adf038.svg\"></embed></figure>\n",
    );
    out.append(
        "-----\nThis *README* file is regenerated **every 6 hours**.\n*Should I have written it in Rust? No*\n\nLast Update: ",
    );
    out.append(stamp);
    out.append("\n\n![Source Code](https://github.com/wsandy1/wsandy1)");
    assert(final(out)@ =~= old(out)@ + stats_block() + closing_block(stamp@));
}

/// The page for the given records, with `stamp` as the time of rendering.
pub fn render_page(
    profile: &Profile,
    technologies: &Vec<Technology>,
    learning: &Vec<LearningItem>,
    rows: &Vec<ProjectRow>,
    stamp: &str,
) -> (text: String)
    ensures
        text@ == page(
            profile@,
            views(technologies@),
            views(learning@),
            views(rows@),
            stamp@,
        ),
{
    let mut text = String::new();
    push_title_section(&mut text, profile);
    push_technologies_section(&mut text, technologies);
    push_learning_section(&mut text, learning);
    push_projects_section(&mut text, rows);
    push_footer(&mut text, stamp);
    assert(text@ =~= page(
        profile@,
        views(technologies@),
        views(learning@),
        views(rows@),
        stamp@,
    ));
    text
}

} // verus!
