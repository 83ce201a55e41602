use profile_readme::failure::Failure;
use profile_readme::request::{Config, Header, Request, Resource};

fn config() -> Config {
    Config::new(Some(String::from("https://db.example/rest/v1/")), Some(String::from("s3cr3t")))
        .unwrap()
}

fn header(name: &str, value: &str) -> Header {
    Header { name: String::from(name), value: String::from(value) }
}

#[test]
fn config_keeps_both_values() {
    let config = config();
    assert_eq!(config.base_url(), "https://db.example/rest/v1/");
    assert_eq!(config.api_key(), "s3cr3t");
}

#[test]
fn config_without_address_is_refused() {
    assert_eq!(Config::new(None, Some(String::from("k"))), Err(Failure::MissingBaseUrl));
    assert_eq!(
        Config::new(Some(String::new()), Some(String::from("k"))),
        Err(Failure::MissingBaseUrl)
    );
}

#[test]
fn config_without_key_is_refused() {
    assert_eq!(Config::new(Some(String::from("u")), None), Err(Failure::MissingApiKey));
    assert_eq!(
        Config::new(Some(String::from("u")), Some(String::new())),
        Err(Failure::MissingApiKey)
    );
}

#[test]
fn config_missing_both_names_the_address() {
    assert_eq!(Config::new(None, None), Err(Failure::MissingBaseUrl));
    assert_eq!(Config::new(Some(String::new()), None), Err(Failure::MissingBaseUrl));
}

#[test]
fn backend_request_for_technologies() {
    let request = Request::backend(&config(), Resource::Technologies);
    assert_eq!(request.url, "https://db.example/rest/v1/technologies?select=*");
    assert_eq!(
        request.headers,
        vec![header("apikey", "s3cr3t"), header("Authorization", "Bearer s3cr3t")]
    );
}

#[test]
fn backend_request_for_learning_items() {
    let request = Request::backend(&config(), Resource::Learning);
    assert_eq!(request.url, "https://db.example/rest/v1/learn?select=*");
    assert_eq!(
        request.headers,
        vec![header("apikey", "s3cr3t"), header("Authorization", "Bearer s3cr3t")]
    );
}

#[test]
fn backend_request_for_projects() {
    let request = Request::backend(&config(), Resource::Projects);
    assert_eq!(request.url, "https://db.example/rest/v1/projects?select=*");
    assert_eq!(
        request.headers,
        vec![header("apikey", "s3cr3t"), header("Authorization", "Bearer s3cr3t")]
    );
}

#[test]
fn backend_path_is_appended_as_it_stands() {
    let config =
        Config::new(Some(String::from("https://db.example")), Some(String::from("k"))).unwrap();
    let request = Request::backend(&config, Resource::Learning);
    assert_eq!(request.url, "https://db.examplelearn?select=*");
}

#[test]
fn repository_request_names_owner_then_repository() {
    let request = Request::repository("someone", "tool");
    assert_eq!(request.url, "https://api.github.com/repos/someone/tool");
    assert_eq!(request.headers, vec![header("User-Agent", "Rust")]);
}
