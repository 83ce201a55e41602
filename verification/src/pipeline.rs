//! The run from the first request to the finished page, as a machine that
//! is driven from outside.
//!
//! The machine never touches the network, the clock or the disk. It says
//! what has to be done next; the driver does it and reports back what came
//! of it. Requests go out one at a time: the technologies, the learning
//! items, the projects, then the statistics of each project in the order of
//! the projects, and last the clock is read. The page is handed over in one
//! piece, and only after every reply has been accepted.

use vstd::prelude::*;
use crate::clock::{render_stamp, stamp};
use crate::decode::{list_in_text, record_in_text};
use crate::failure::Failure;
use crate::model::{
    row_of, views, LearningItem, LearningItemView, Project, ProjectRow, ProjectRowView,
    ProjectView, RepoStats, Technology, TechnologyView,
};
use crate::page::{page, render_page, Profile, ProfileView};
use crate::reply::{list_reply, read_list, read_record, record_reply};
use crate::request::{
    backend_request, repository_request, Config, ConfigView, Request, RequestView, Resource,
};

verus! {

/// What a run is waiting for.
#[derive(Clone, Copy, Debug, PartialEq, Eq, Structural)]
pub enum Stage {
    /// The reply to the request for the technologies.
    Technologies,
    /// The reply to the request for the learning items.
    Learning,
    /// The reply to the request for the projects.
    Projects,
    /// The reply to the request for the statistics of the next project.
    Repositories,
    /// The time of rendering.
    Clock,
    /// Nothing: the page has been handed over.
    Done,
    /// Nothing: the run has failed.
    Failed,
}

/// What the driver reports back.
#[derive(Clone, Debug, PartialEq, Eq)]
pub enum Event {
    /// The reply to the request last sent.
    Reply { status: u16, body: String },
    /// The clock: seconds since the epoch, and the local offset from UTC
    /// in seconds.
    Time { unix_seconds: i64, offset_seconds: i32 },
}

/// What the driver has to do next.
#[derive(Clone, Debug, PartialEq, Eq)]
pub enum Action {
    /// Send this request and report the reply.
    Send(Request),
    /// Read the clock and report the time.
    ReadClock,
    /// Write this page to the output file and stop.
    Write(String),
    /// Stop with this failure, leaving the output file alone.
    Fail(Failure),
}

/// An event as plain values.
pub enum EventView {
    Reply { status: u16, body: Seq<char> },
    Time { unix_seconds: i64, offset_seconds: i32 },
}

/// An action as plain values.
pub enum ActionView {
    Send(RequestView),
    ReadClock,
    Write(Seq<char>),
    Fail(Failure),
}

impl View for Event {
    type V = EventView;

    open spec fn view(&self) -> EventView {
        match *self {
            Event::Reply { status, body } => EventView::Reply { status, body: body@ },
            Event::Time { unix_seconds, offset_seconds } => EventView::Time {
                unix_seconds,
                offset_seconds,
            },
        }
    }
}

impl View for Action {
    type V = ActionView;

    open spec fn view(&self) -> ActionView {
        match *self {
            Action::Send(request) => ActionView::Send(request@),
            Action::ReadClock => ActionView::ReadClock,
            Action::Write(text) => ActionView::Write(text@),
            Action::Fail(failure) => ActionView::Fail(failure),
        }
    }
}

/// A run in progress: what it was started with, what it has fetched so
/// far, and what it is waiting for.
#[derive(Debug)]
pub struct Run {
    config: Config,
    profile: Profile,
    stage: Stage,
    technologies: Vec<Technology>,
    learning: Vec<LearningItem>,
    projects: Vec<Project>,
    rows: Vec<ProjectRow>,
}

/// A run as plain values.
pub struct RunView {
    pub config: ConfigView,
    pub profile: ProfileView,
    pub stage: Stage,
    pub technologies: Seq<TechnologyView>,
    pub learning: Seq<LearningItemView>,
    pub projects: Seq<ProjectView>,
    pub rows: Seq<ProjectRowView>,
}

impl RunView {
    /// What holds of every run: the configuration is complete; no project
    /// is known before the projects have arrived; the table has a row for
    /// each project whose statistics have arrived, in the order of the
    /// projects, and is complete once the clock is asked for.
    pub open spec fn well_formed(self) -> bool {
        &&& self.config.well_formed()
        &&& self.rows.len() <= self.projects.len()
        &&& forall|i: int|
            0 <= i < self.rows.len() ==> (#[trigger] self.rows[i]).name == self.projects[i].name
                && self.rows[i].url == self.projects[i].url
        &&& match self.stage {
            Stage::Technologies | Stage::Learning | Stage::Projects => self.projects.len() == 0,
            Stage::Repositories => self.rows.len() < self.projects.len(),
            Stage::Clock | Stage::Done => self.rows.len() == self.projects.len(),
            Stage::Failed => true,
        }
    }
}

/// A fresh run, waiting for the technologies.
pub open spec fn initial(config: ConfigView, profile: ProfileView) -> RunView {
    RunView {
        config,
        profile,
        stage: Stage::Technologies,
        technologies: Seq::empty(),
        learning: Seq::empty(),
        projects: Seq::empty(),
        rows: Seq::empty(),
    }
}

/// The run fails: it keeps what it has and waits for nothing any more.
pub open spec fn failing(run: RunView, failure: Failure) -> (RunView, ActionView) {
    (RunView { stage: Stage::Failed, ..run }, ActionView::Fail(failure))
}

/// What follows once the rows are up to date: the statistics of the first
/// project that has no row yet, or the clock where every project has one.
pub open spec fn proceeding(run: RunView) -> (RunView, ActionView) {
    if run.rows.len() < run.projects.len() {
        let project = run.projects[run.rows.len() as int];
        (
            RunView { stage: Stage::Repositories, ..run },
            ActionView::Send(repository_request(project.username, project.name)),
        )
    } else {
        (RunView { stage: Stage::Clock, ..run }, ActionView::ReadClock)
    }
}

/// The step of a run that waits for the technologies.
pub open spec fn on_technologies(run: RunView, status: u16, body: Seq<char>) -> (
    RunView,
    ActionView,
) {
    match list_reply::<Technology>(status, body) {
        Ok(technologies) => (
            RunView { stage: Stage::Learning, technologies, ..run },
            ActionView::Send(backend_request(run.config, Resource::Learning)),
        ),
        Err(failure) => failing(run, failure),
    }
}

/// The step of a run that waits for the learning items.
pub open spec fn on_learning(run: RunView, status: u16, body: Seq<char>) -> (
    RunView,
    ActionView,
) {
    match list_reply::<LearningItem>(status, body) {
        Ok(learning) => (
            RunView { stage: Stage::Projects, learning, ..run },
            ActionView::Send(backend_request(run.config, Resource::Projects)),
        ),
        Err(failure) => failing(run, failure),
    }
}

/// The step of a run that waits for the projects.
pub open spec fn on_projects(run: RunView, status: u16, body: Seq<char>) -> (
    RunView,
    ActionView,
) {
    match list_reply::<Project>(status, body) {
        Ok(projects) => proceeding(RunView { projects, rows: Seq::empty(), ..run }),
        Err(failure) => failing(run, failure),
    }
}

/// The step of a run that waits for the statistics of a project: they go
/// into the row of the first project that has none yet.
pub open spec fn on_statistics(run: RunView, status: u16, body: Seq<char>) -> (
    RunView,
    ActionView,
) {
    match record_reply::<RepoStats>(status, body) {
        Ok(stats) => proceeding(
            RunView {
                rows: run.rows.push(row_of(run.projects[run.rows.len() as int], stats)),
                ..run
            },
        ),
        Err(failure) => failing(run, failure),
    }
}

/// The step of a run that waits for the clock.
pub open spec fn on_time(run: RunView, unix_seconds: i64, offset_seconds: i32) -> (
    RunView,
    ActionView,
) {
    match stamp(unix_seconds, offset_seconds) {
        Some(text) => (
            RunView { stage: Stage::Done, ..run },
            ActionView::Write(page(run.profile, run.technologies, run.learning, run.rows, text)),
        ),
        None => failing(run, Failure::TimeOutOfRange),
    }
}

/// One step of a run: the state after `event` and what to do next. An
/// event that the run is not waiting for makes it fail.
pub open spec fn next(run: RunView, event: EventView) -> (RunView, ActionView) {
    match (run.stage, event) {
        (Stage::Technologies, EventView::Reply { status, body }) => on_technologies(
            run,
            status,
            body,
        ),
        (Stage::Learning, EventView::Reply { status, body }) => on_learning(run, status, body),
        (Stage::Projects, EventView::Reply { status, body }) => on_projects(run, status, body),
        (Stage::Repositories, EventView::Reply { status, body }) => on_statistics(
            run,
            status,
            body,
        ),
        (Stage::Clock, EventView::Time { unix_seconds, offset_seconds }) => on_time(
            run,
            unix_seconds,
            offset_seconds,
        ),
        _ => failing(run, Failure::UnexpectedEvent),
    }
}

impl View for Run {
    type V = RunView;

    closed spec fn view(&self) -> RunView {
        RunView {
            config: self.config@,
            profile: self.profile@,
            stage: self.stage,
            technologies: views(self.technologies@),
            learning: views(self.learning@),
            projects: views(self.projects@),
            rows: views(self.rows@),
        }
    }
}

impl Run {
    /// Every run is well formed.
    #[verifier::type_invariant]
    spec fn sound(self) -> bool {
        self@.well_formed()
    }

    /// Starts a run: the first thing to do is to ask for the technologies.
    pub fn start(config: Config, profile: Profile) -> (r: (Run, Action))
        ensures
            r.0@ == initial(config@, profile@),
            r.0@.well_formed(),
            r.1@ == ActionView::Send(backend_request(config@, Resource::Technologies)),
    {
        let request = Request::backend(&config, Resource::Technologies);
        let run = Run {
            config,
            profile,
            stage: Stage::Technologies,
            technologies: Vec::new(),
            learning: Vec::new(),
            projects: Vec::new(),
            rows: Vec::new(),
        };
        assert(run@ =~= initial(config@, profile@)) by {
            assert(run@.technologies =~= Seq::empty());
            assert(run@.learning =~= Seq::empty());
            assert(run@.projects =~= Seq::empty());
            assert(run@.rows =~= Seq::empty());
        }
        (run, Action::Send(request))
    }

    /// What the run is waiting for.
    pub fn stage(&self) -> (stage: Stage)
        ensures
            stage == self@.stage,
            self@.well_formed(),
    {
        proof {
            use_type_invariant(self);
        }
        self.stage
    }

    /// Takes one step: the run after `event`, and what to do next.
    pub fn step(self, event: &Event) -> (r: (Run, Action))
        ensures
            (r.0@, r.1@) == next(self@, event@),
            self@.well_formed(),
            r.0@.well_formed(),
    {
        proof {
            use_type_invariant(&self);
        }
        match event {
            Event::Reply { status, body } => match self.stage {
                Stage::Technologies => self.take_technologies(*status, body.as_str()),
                Stage::Learning => self.take_learning(*status, body.as_str()),
                Stage::Projects => self.take_projects(*status, body.as_str()),
                Stage::Repositories => self.take_statistics(*status, body.as_str()),
                _ => self.fail(Failure::UnexpectedEvent),
            },
            Event::Time { unix_seconds, offset_seconds } => match self.stage {
                Stage::Clock => self.take_time(*unix_seconds, *offset_seconds),
                _ => self.fail(Failure::UnexpectedEvent),
            },
        }
    }

    /// Fails the run.
    fn fail(self, failure: Failure) -> (r: (Run, Action))
        ensures
            (r.0@, r.1@) == failing(self@, failure),
            r.0@.well_formed(),
    {
        proof {
            use_type_invariant(&self);
        }
        let run = Run { stage: Stage::Failed, ..self };
        (run, Action::Fail(failure))
    }

    /// Goes on with the given parts of a run once the rows are up to date.
    fn proceed(
        config: Config,
        profile: Profile,
        technologies: Vec<Technology>,
        learning: Vec<LearningItem>,
        projects: Vec<Project>,
        rows: Vec<ProjectRow>,
        Ghost(before): Ghost<Stage>,
    ) -> (r: (Run, Action))
        requires
            config@.well_formed(),
            rows.len() <= projects.len(),
            forall|i: int|
                0 <= i < rows.len() ==> (#[trigger] rows[i])@.name == projects[i]@.name
                    && rows[i]@.url == projects[i]@.url,
        ensures
            (r.0@, r.1@) == proceeding(
                RunView {
                    config: config@,
                    profile: profile@,
                    stage: before,
                    technologies: views(technologies@),
                    learning: views(learning@),
                    projects: views(projects@),
                    rows: views(rows@),
                },
            ),
            r.0@.well_formed(),
    {
        if rows.len() < projects.len() {
            let project = &projects[rows.len()];
            let request = Request::repository(project.username.as_str(), project.name.as_str());
            let run = Run {
                config,
                profile,
                stage: Stage::Repositories,
                technologies,
                learning,
                projects,
                rows,
            };
            (run, Action::Send(request))
        } else {
            let run = Run {
                config,
                profile,
                stage: Stage::Clock,
                technologies,
                learning,
                projects,
                rows,
            };
            (run, Action::ReadClock)
        }
    }

    /// Takes the reply to the request for the technologies.
    fn take_technologies(self, status: u16, body: &str) -> (r: (Run, Action))
        requires
            self.stage == Stage::Technologies,
        ensures
            (r.0@, r.1@) == on_technologies(self@, status, body@),
            r.0@.well_formed(),
    {
        proof {
            use_type_invariant(&self);
        }
        match read_list::<Technology>(status, body) {
            Ok(technologies) => {
                let request = Request::backend(&self.config, Resource::Learning);
                let run = Run { stage: Stage::Learning, technologies, ..self };
                (run, Action::Send(request))
            },
            Err(failure) => self.fail(failure),
        }
    }

    /// Takes the reply to the request for the learning items.
    fn take_learning(self, status: u16, body: &str) -> (r: (Run, Action))
        requires
            self.stage == Stage::Learning,
        ensures
            (r.0@, r.1@) == on_learning(self@, status, body@),
            r.0@.well_formed(),
    {
        proof {
            use_type_invariant(&self);
        }
        match read_list::<LearningItem>(status, body) {
            Ok(learning) => {
                let request = Request::backend(&self.config, Resource::Projects);
                let run = Run { stage: Stage::Projects, learning, ..self };
                (run, Action::Send(request))
            },
            Err(failure) => self.fail(failure),
        }
    }

    /// Takes the reply to the request for the projects.
    fn take_projects(self, status: u16, body: &str) -> (r: (Run, Action))
        requires
            self.stage == Stage::Projects,
        ensures
            (r.0@, r.1@) == on_projects(self@, status, body@),
            r.0@.well_formed(),
    {
        proof {
            use_type_invariant(&self);
        }
        match read_list::<Project>(status, body) {
            Ok(projects) => {
                let rows: Vec<ProjectRow> = Vec::new();
                assert(views(rows@) =~= Seq::empty());
                Run::proceed(
                    self.config,
                    self.profile,
                    self.technologies,
                    self.learning,
                    projects,
                    rows,
                    Ghost(Stage::Projects),
                )
            },
            Err(failure) => self.fail(failure),
        }
    }

    /// Takes the reply to the request for the statistics of a project.
    fn take_statistics(self, status: u16, body: &str) -> (r: (Run, Action))
        requires
            self.stage == Stage::Repositories,
        ensures
            (r.0@, r.1@) == on_statistics(self@, status, body@),
            r.0@.well_formed(),
    {
        proof {
            use_type_invariant(&self);
        }
        match read_record::<RepoStats>(status, body) {
            Ok(stats) => {
                let ghost before = self@;
                let mut rows = self.rows;
                let row = ProjectRow::new(&self.projects[rows.len()], stats);
                rows.push(row);
                assert(views(rows@) =~= before.rows.push(
                    row_of(before.projects[before.rows.len() as int], stats),
                ));
                assert forall|i: int| 0 <= i < rows.len() implies (#[trigger] rows[i])@.name
                    == self.projects[i]@.name && rows[i]@.url == self.projects[i]@.url by {
                    if i < before.rows.len() {
                        assert(before.rows[i].name == before.projects[i].name);
                    }
                }
                Run::proceed(
                    self.config,
                    self.profile,
                    self.technologies,
                    self.learning,
                    self.projects,
                    rows,
                    Ghost(Stage::Repositories),
                )
            },
            Err(failure) => self.fail(failure),
        }
    }

    /// Takes the time of rendering and renders the page.
    fn take_time(self, unix_seconds: i64, offset_seconds: i32) -> (r: (Run, Action))
        requires
            self.stage == Stage::Clock,
        ensures
            (r.0@, r.1@) == on_time(self@, unix_seconds, offset_seconds),
            r.0@.well_formed(),
    {
        proof {
            use_type_invariant(&self);
        }
        match render_stamp(unix_seconds, offset_seconds) {
            Ok(text) => {
                let document = render_page(
                    &self.profile,
                    &self.technologies,
                    &self.learning,
                    &self.rows,
                    text.as_str(),
                );
                let run = Run { stage: Stage::Done, ..self };
                (run, Action::Write(document))
            },
            Err(failure) => self.fail(failure),
        }
    }
}

/// The run after a sequence of events, taken one by one.
pub open spec fn run_after(run: RunView, events: Seq<EventView>) -> RunView
    decreases events.len(),
{
    if events.len() == 0 {
        run
    } else {
        next(run_after(run, events.drop_last()), events.last()).0
    }
}

/// What the run that started as `run` says to do in answer to the event
/// at `k`, the earlier events having been taken.
pub open spec fn action_at(run: RunView, events: Seq<EventView>, k: int) -> ActionView {
    next(run_after(run, events.take(k)), events[k]).1
}

/// The event is a reply with status 200.
pub open spec fn is_accepted_reply(event: EventView) -> bool {
    match event {
        EventView::Reply { status, body } => status == 200,
        _ => false,
    }
}

/// The run is waiting for something.
pub open spec fn is_active(stage: Stage) -> bool {
    stage != Stage::Failed && stage != Stage::Done
}

/// Every step keeps a run well formed.
pub proof fn step_keeps_well_formed(run: RunView, event: EventView)
    requires
        run.well_formed(),
    ensures
        next(run, event).0.well_formed(),
{
    let after = next(run, event).0;
    match (run.stage, event) {
        (Stage::Repositories, EventView::Reply { status, body }) => {
            match record_reply::<RepoStats>(status, body) {
                Ok(stats) => {
                    let rows = run.rows.push(row_of(run.projects[run.rows.len() as int], stats));
                    assert(after.rows == rows);
                    assert forall|i: int| 0 <= i < after.rows.len() implies (
                    #[trigger] after.rows[i]).name == after.projects[i].name && after.rows[i].url
                        == after.projects[i].url by {
                        if i < run.rows.len() {
                            assert(run.rows[i].name == run.projects[i].name);
                        }
                    }
                },
                Err(_) => {},
            }
        },
        _ => {},
    }
}

/// A reply with status 401 makes the run fail: what comes back is a
/// failure, never a page, and the run waits for nothing any more. Where the
/// run was waiting for a reply, the failure is `Unauthorized`.
pub proof fn unauthorized_reply_fails_the_run(run: RunView, body: Seq<char>)
    ensures
        next(run, EventView::Reply { status: 401, body }).0.stage == Stage::Failed,
        next(run, EventView::Reply { status: 401, body }).1 is Fail,
        run.stage == Stage::Technologies || run.stage == Stage::Learning || run.stage
            == Stage::Projects || run.stage == Stage::Repositories ==> next(
            run,
            EventView::Reply { status: 401, body },
        ).1 == ActionView::Fail(Failure::Unauthorized),
{
}

/// A run that has failed stays failed, and a run that has handed over its
/// page fails on whatever comes next: neither ever hands over a page.
pub proof fn stopped_run_never_writes(run: RunView, event: EventView)
    requires
        !is_active(run.stage),
    ensures
        next(run, event) == failing(run, Failure::UnexpectedEvent),
{
}

/// A run hands over a page only in answer to the clock, and only where
/// every event before was a reply with status 200. So after a reply with
/// any other status, 401 among them, no page is ever handed over.
pub proof fn page_needs_every_reply_accepted(
    config: ConfigView,
    profile: ProfileView,
    events: Seq<EventView>,
    k: int,
)
    requires
        0 <= k < events.len(),
        action_at(initial(config, profile), events, k) is Write,
    ensures
        events[k] is Time,
        forall|i: int| 0 <= i < k ==> is_accepted_reply(#[trigger] events[i]),
{
    lemma_active_run_has_clean_history(initial(config, profile), events.take(k));
    assert forall|i: int| 0 <= i < k implies is_accepted_reply(#[trigger] events[i]) by {
        assert(events.take(k)[i] == events[i]);
    }
}

/// Once a reply with status 401 has come in, the run never hands over a
/// page: not in answer to that reply, and not in answer to anything later.
pub proof fn no_page_after_unauthorized_reply(
    config: ConfigView,
    profile: ProfileView,
    events: Seq<EventView>,
    i: int,
    k: int,
)
    requires
        0 <= i <= k < events.len(),
        events[i] matches EventView::Reply { status, .. } && status == 401,
    ensures
        !(action_at(initial(config, profile), events, k) is Write),
{
    if action_at(initial(config, profile), events, k) is Write {
        page_needs_every_reply_accepted(config, profile, events, k);
        if i < k {
            assert(is_accepted_reply(events[i]));
        }
    }
}

/// While a run that started active is still active, every event so far
/// was a reply with status 200.
proof fn lemma_active_run_has_clean_history(run: RunView, events: Seq<EventView>)
    requires
        is_active(run_after(run, events).stage),
    ensures
        forall|i: int| 0 <= i < events.len() ==> is_accepted_reply(#[trigger] events[i]),
    decreases events.len(),
{
    if events.len() > 0 {
        let earlier = events.drop_last();
        lemma_active_run_has_clean_history(run, earlier);
        assert forall|i: int| 0 <= i < events.len() implies is_accepted_reply(
            #[trigger] events[i],
        ) by {
            if i < earlier.len() {
                assert(earlier[i] == events[i]);
            }
        }
    }
}

/// The statistics asked for are those of the first project without a row,
/// and the reply to that request fills the row of that same project.
pub proof fn statistics_go_to_the_project_asked_about(
    run: RunView,
    status: u16,
    body: Seq<char>,
    stats: RepoStats,
)
    requires
        run.well_formed(),
        run.stage == Stage::Repositories,
        record_reply::<RepoStats>(status, body) == Ok::<RepoStats, Failure>(stats),
    ensures
        proceeding(run).1 == ActionView::Send(
            repository_request(
                run.projects[run.rows.len() as int].username,
                run.projects[run.rows.len() as int].name,
            ),
        ),
        next(run, EventView::Reply { status, body }).0.rows == run.rows.push(
            row_of(run.projects[run.rows.len() as int], stats),
        ),
        next(run, EventView::Reply { status, body }).0.projects == run.projects,
{
}

/// The page that a run hands over shows what the run has fetched, and in
/// its table one row for each project, in the order of the projects, each
/// with the name and the address of its project.
pub proof fn page_shows_every_project(run: RunView, unix_seconds: i64, offset_seconds: i32)
    requires
        run.well_formed(),
        run.stage == Stage::Clock,
    ensures
        stamp(unix_seconds, offset_seconds) matches Some(text) ==> next(
            run,
            EventView::Time { unix_seconds, offset_seconds },
        ).1 == ActionView::Write(
            page(run.profile, run.technologies, run.learning, run.rows, text),
        ),
        run.rows.len() == run.projects.len(),
        forall|i: int|
            0 <= i < run.projects.len() ==> (#[trigger] run.rows[i]).name == run.projects[i].name
                && run.rows[i].url == run.projects[i].url,
{
}

/// A reply with status 200 whose body has not the expected shape makes
/// the run fail with `MalformedBody`, whichever reply the run was waiting
/// for.
pub proof fn malformed_body_fails_the_run(run: RunView, body: Seq<char>)
    requires
        match run.stage {
            Stage::Technologies => list_in_text::<Technology>(body) is None,
            Stage::Learning => list_in_text::<LearningItem>(body) is None,
            Stage::Projects => list_in_text::<Project>(body) is None,
            Stage::Repositories => record_in_text::<RepoStats>(body) is None,
            _ => false,
        },
    ensures
        next(run, EventView::Reply { status: 200, body }) == failing(
            run,
            Failure::MalformedBody,
        ),
{
}

} // verus!
