//! The records that the page is built from, and their mathematical views.

use vstd::prelude::*;

verus! {

/// A technology in use: its name and the address of its badge image.
#[derive(Clone, Debug, PartialEq, Eq)]
pub struct Technology {
    pub name: String,
    pub badge: String,
}

/// Something being learnt. The reason is carried along but never shown.
#[derive(Clone, Debug, PartialEq, Eq)]
pub struct LearningItem {
    pub name: String,
    pub badge: String,
    pub reason: String,
}

/// A project: the repository's name, its owner's handle and its address.
#[derive(Clone, Debug, PartialEq, Eq)]
pub struct Project {
    pub name: String,
    pub username: String,
    pub url: String,
}

/// What the code host reports about one repository.
#[derive(Clone, Copy, Debug, PartialEq, Eq)]
pub struct RepoStats {
    pub stargazers_count: u64,
    pub forks: u64,
}

/// One line of the project table: a project together with its statistics.
#[derive(Clone, Debug, PartialEq, Eq)]
pub struct ProjectRow {
    pub name: String,
    pub url: String,
    pub stars: u64,
    pub forks: u64,
}

/// A name and a badge address, as the badge line shows them.
pub struct Badge {
    pub name: Seq<char>,
    pub badge: Seq<char>,
}

/// A technology as plain values.
pub struct TechnologyView {
    pub name: Seq<char>,
    pub badge: Seq<char>,
}

/// A learning item as plain values.
pub struct LearningItemView {
    pub name: Seq<char>,
    pub badge: Seq<char>,
    pub reason: Seq<char>,
}

/// A project as plain values.
pub struct ProjectView {
    pub name: Seq<char>,
    pub username: Seq<char>,
    pub url: Seq<char>,
}

/// A row of the project table as plain values.
pub struct ProjectRowView {
    pub name: Seq<char>,
    pub url: Seq<char>,
    pub stars: nat,
    pub forks: nat,
}

impl View for Technology {
    type V = TechnologyView;

    open spec fn view(&self) -> TechnologyView {
        TechnologyView { name: self.name@, badge: self.badge@ }
    }
}

impl View for LearningItem {
    type V = LearningItemView;

    open spec fn view(&self) -> LearningItemView {
        LearningItemView { name: self.name@, badge: self.badge@, reason: self.reason@ }
    }
}

impl View for Project {
    type V = ProjectView;

    open spec fn view(&self) -> ProjectView {
        ProjectView { name: self.name@, username: self.username@, url: self.url@ }
    }
}

impl View for RepoStats {
    type V = RepoStats;

    open spec fn view(&self) -> RepoStats {
        *self
    }
}

impl View for ProjectRow {
    type V = ProjectRowView;

    open spec fn view(&self) -> ProjectRowView {
        ProjectRowView {
            name: self.name@,
            url: self.url@,
            stars: self.stars as nat,
            forks: self.forks as nat,
        }
    }
}

impl TechnologyView {
    /// What the badge line shows of a technology.
    pub open spec fn badge(self) -> Badge {
        Badge { name: self.name, badge: self.badge }
    }
}

impl LearningItemView {
    /// What the badge line shows of a learning item: not the reason.
    pub open spec fn badge(self) -> Badge {
        Badge { name: self.name, badge: self.badge }
    }
}

/// The views of a list of records, in order.
pub open spec fn views<T: View>(items: Seq<T>) -> Seq<T::V> {
    Seq::new(items.len(), |i: int| items[i]@)
}

impl ProjectRow {
    /// The table row of `project` with the statistics `stats`.
    pub fn new(project: &Project, stats: RepoStats) -> (row: ProjectRow)
        ensures
            row@ == row_of(project@, stats),
    {
        ProjectRow {
            name: project.name.clone(),
            url: project.url.clone(),
            stars: stats.stargazers_count,
            forks: stats.forks,
        }
    }
}

/// The row that pairs a project with the statistics fetched for it.
pub open spec fn row_of(project: ProjectView, stats: RepoStats) -> ProjectRowView {
    ProjectRowView {
        name: project.name,
        url: project.url,
        stars: stats.stargazers_count as nat,
        forks: stats.forks as nat,
    }
}

} // verus!
