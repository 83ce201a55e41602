use profile_readme::failure::Failure;
use profile_readme::page::Profile;
use profile_readme::pipeline::{Action, Event, Run, Stage};
use profile_readme::request::{Config, Header, Request};

const TECHNOLOGIES: &str = r#"[{"name": "Rust", "badge": "https://img/rust.svg"}]"#;
const LEARNING: &str = r#"[{"name": "Zig", "badge": "https://img/zig.svg", "reason": "fun"}]"#;
const PROJECTS: &str = r#"[
    {"name": "tool", "username": "someone", "url": "https://example.org/tool"},
    {"name": "toy", "username": "other", "url": "https://example.org/toy"}
]"#;
const STATS: &str = "### Stats\n![Will's GitHub stats](https://github-readme-stats.vercel.app/api?username=anuraghazra&theme=github_dark&show_icons=true)\n<figure><embed src=\"https://wakatime.com/share/@a345175e-628e-4692-8abd-b349e72e294a/7ac23843-3870-4034-9d1e-d59527adf038.svg\"></embed></figure>\n";

fn fresh() -> (Run, Action) {
    let config =
        Config::new(Some(String::from("https://db.example/")), Some(String::from("key"))).unwrap();
    let profile = Profile { greeting: String::from("Hello"), intro: String::from("Intro.") };
    Run::start(config, profile)
}

fn reply(status: u16, body: &str) -> Event {
    Event::Reply { status, body: String::from(body) }
}

fn backend(path: &str) -> Action {
    Action::Send(Request {
        url: format!("https://db.example/{}", path),
        headers: vec![
            Header { name: String::from("apikey"), value: String::from("key") },
            Header { name: String::from("Authorization"), value: String::from("Bearer key") },
        ],
    })
}

fn repository(owner: &str, name: &str) -> Action {
    Action::Send(Request {
        url: format!("https://api.github.com/repos/{}/{}", owner, name),
        headers: vec![Header { name: String::from("User-Agent"), value: String::from("Rust") }],
    })
}

fn up_to_projects() -> Run {
    let (run, _) = fresh();
    let (run, _) = run.step(&reply(200, TECHNOLOGIES));
    let (run, _) = run.step(&reply(200, LEARNING));
    run
}

#[test]
fn run_starts_by_asking_for_the_technologies() {
    let (run, action) = fresh();
    assert_eq!(run.stage(), Stage::Technologies);
    assert_eq!(action, backend("technologies?select=*"));
}

#[test]
fn requests_go_out_in_order() {
    let (run, _) = fresh();
    let (run, action) = run.step(&reply(200, TECHNOLOGIES));
    assert_eq!(run.stage(), Stage::Learning);
    assert_eq!(action, backend("learn?select=*"));
    let (run, action) = run.step(&reply(200, LEARNING));
    assert_eq!(run.stage(), Stage::Projects);
    assert_eq!(action, backend("projects?select=*"));
    let (run, action) = run.step(&reply(200, PROJECTS));
    assert_eq!(run.stage(), Stage::Repositories);
    assert_eq!(action, repository("someone", "tool"));
    let (run, action) = run.step(&reply(200, r#"{"stargazers_count": 12, "forks": 3}"#));
    assert_eq!(run.stage(), Stage::Repositories);
    assert_eq!(action, repository("other", "toy"));
    let (run, action) = run.step(&reply(200, r#"{"stargazers_count": 0, "forks": 40}"#));
    assert_eq!(run.stage(), Stage::Clock);
    assert_eq!(action, Action::ReadClock);
    let (run, action) = run.step(&Event::Time { unix_seconds: 1431648000, offset_seconds: 3600 });
    assert_eq!(run.stage(), Stage::Done);
    let expected = format!(
        "{}{}{}{}{}{}",
        "# Hello\nIntro.\n",
        "### Technologies I use\n![Rust](https://img/rust.svg) \n",
        "### Things I'm learning\n![Zig](https://img/zig.svg) \n",
        "### Current Projects\n|📖 Projects|⭐ Stars|🍴 Forks|\n|-|-|-|\n|**[tool](https://example.org/tool)**|12|3|\n|**[toy](https://example.org/toy)**|0|40|\n",
        STATS,
        "-----\nThis *README* file is regenerated **every 6 hours**.\n*Should I have written it in Rust? No*\n\nLast Update: Friday, 15 May, 01:00 GMT+0100\n\n![Source Code](https://github.com/wsandy1/wsandy1)"
    );
    assert_eq!(action, Action::Write(expected));
}

#[test]
fn run_without_projects_goes_straight_to_the_clock() {
    let run = up_to_projects();
    let (run, action) = run.step(&reply(200, "[]"));
    assert_eq!(run.stage(), Stage::Clock);
    assert_eq!(action, Action::ReadClock);
    let (run, action) = run.step(&Event::Time { unix_seconds: 0, offset_seconds: 0 });
    assert_eq!(run.stage(), Stage::Done);
    let expected = format!(
        "{}{}{}",
        "# Hello\nIntro.\n### Technologies I use\n![Rust](https://img/rust.svg) \n### Things I'm learning\n![Zig](https://img/zig.svg) \n### Current Projects\n|📖 Projects|⭐ Stars|🍴 Forks|\n|-|-|-|\n|*It's deserted here… 😔*|🏜️|🌃|\n",
        STATS,
        "-----\nThis *README* file is regenerated **every 6 hours**.\n*Should I have written it in Rust? No*\n\nLast Update: Thursday,  1 January, 00:00 GMT+0000\n\n![Source Code](https://github.com/wsandy1/wsandy1)"
    );
    assert_eq!(action, Action::Write(expected));
}

#[test]
fn unauthorized_reply_for_the_technologies_fails_the_run() {
    let (run, _) = fresh();
    let (run, action) = run.step(&reply(401, TECHNOLOGIES));
    assert_eq!(run.stage(), Stage::Failed);
    assert_eq!(action, Action::Fail(Failure::Unauthorized));
}

#[test]
fn unauthorized_reply_for_the_learning_items_fails_the_run() {
    let (run, _) = fresh();
    let (run, _) = run.step(&reply(200, TECHNOLOGIES));
    let (run, action) = run.step(&reply(401, ""));
    assert_eq!(run.stage(), Stage::Failed);
    assert_eq!(action, Action::Fail(Failure::Unauthorized));
}

#[test]
fn unauthorized_reply_for_the_projects_fails_the_run() {
    let (run, action) = up_to_projects().step(&reply(401, PROJECTS));
    assert_eq!(run.stage(), Stage::Failed);
    assert_eq!(action, Action::Fail(Failure::Unauthorized));
}

#[test]
fn unauthorized_reply_for_the_statistics_fails_the_run() {
    let (run, _) = up_to_projects().step(&reply(200, PROJECTS));
    let (run, action) = run.step(&reply(401, r#"{"stargazers_count": 12, "forks": 3}"#));
    assert_eq!(run.stage(), Stage::Failed);
    assert_eq!(action, Action::Fail(Failure::Unauthorized));
}

#[test]
fn failed_run_never_hands_over_a_page() {
    let (run, _) = fresh();
    let (run, _) = run.step(&reply(401, ""));
    let (run, action) = run.step(&reply(200, TECHNOLOGIES));
    assert_eq!(run.stage(), Stage::Failed);
    assert_eq!(action, Action::Fail(Failure::UnexpectedEvent));
    let (run, action) = run.step(&Event::Time { unix_seconds: 0, offset_seconds: 0 });
    assert_eq!(run.stage(), Stage::Failed);
    assert_eq!(action, Action::Fail(Failure::UnexpectedEvent));
}

#[test]
fn unexpected_status_fails_the_run() {
    let (run, _) = fresh();
    let (run, action) = run.step(&reply(500, TECHNOLOGIES));
    assert_eq!(run.stage(), Stage::Failed);
    assert_eq!(action, Action::Fail(Failure::UnexpectedStatus(500)));
    let (run, _) = up_to_projects().step(&reply(200, PROJECTS));
    let (run, action) = run.step(&reply(404, "{}"));
    assert_eq!(run.stage(), Stage::Failed);
    assert_eq!(action, Action::Fail(Failure::UnexpectedStatus(404)));
}

#[test]
fn payload_out_of_shape_fails_the_run() {
    let (run, _) = fresh();
    let (run, action) = run.step(&reply(200, r#"[{"name": "Rust"}]"#));
    assert_eq!(run.stage(), Stage::Failed);
    assert_eq!(action, Action::Fail(Failure::MalformedBody));
    let (run, _) = up_to_projects().step(&reply(200, PROJECTS));
    let (run, action) = run.step(&reply(200, r#"{"stargazers_count": 12}"#));
    assert_eq!(run.stage(), Stage::Failed);
    assert_eq!(action, Action::Fail(Failure::MalformedBody));
}

#[test]
fn time_out_of_range_fails_the_run() {
    let (run, _) = up_to_projects().step(&reply(200, "[]"));
    let (run, action) = run.step(&Event::Time { unix_seconds: 0, offset_seconds: 86_400 });
    assert_eq!(run.stage(), Stage::Failed);
    assert_eq!(action, Action::Fail(Failure::TimeOutOfRange));
}

#[test]
fn event_out_of_turn_fails_the_run() {
    let (run, _) = fresh();
    let (run, action) = run.step(&Event::Time { unix_seconds: 0, offset_seconds: 0 });
    assert_eq!(run.stage(), Stage::Failed);
    assert_eq!(action, Action::Fail(Failure::UnexpectedEvent));
    let (run, _) = up_to_projects().step(&reply(200, "[]"));
    let (run, action) = run.step(&reply(200, "[]"));
    assert_eq!(run.stage(), Stage::Failed);
    assert_eq!(action, Action::Fail(Failure::UnexpectedEvent));
}

#[test]
fn finished_run_hands_over_no_second_page() {
    let (run, _) = up_to_projects().step(&reply(200, "[]"));
    let (run, _) = run.step(&Event::Time { unix_seconds: 0, offset_seconds: 0 });
    assert_eq!(run.stage(), Stage::Done);
    let (run, action) = run.step(&Event::Time { unix_seconds: 0, offset_seconds: 0 });
    assert_eq!(run.stage(), Stage::Failed);
    assert_eq!(action, Action::Fail(Failure::UnexpectedEvent));
}

#[test]
fn statistics_fill_the_row_of_the_project_asked_about() {
    let (run, _) = up_to_projects().step(&reply(200, PROJECTS));
    let (run, _) = run.step(&reply(200, r#"{"stargazers_count": 1, "forks": 2}"#));
    let (run, _) = run.step(&reply(200, r#"{"stargazers_count": 3, "forks": 4}"#));
    let (_, action) = run.step(&Event::Time { unix_seconds: 0, offset_seconds: 0 });
    match action {
        Action::Write(text) => {
            assert!(text.contains(
                "|**[tool](https://example.org/tool)**|1|2|\n|**[toy](https://example.org/toy)**|3|4|\n"
            ));
        }
        other => panic!("no page: {:?}", other),
    }
}
