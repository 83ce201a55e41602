//! The requests that a run sends: where to, and with which headers.

use vstd::prelude::*;
use crate::failure::Failure;
use crate::model::views;

verus! {

/// Where the backend lives and the secret that opens it.
#[derive(Debug, PartialEq, Eq)]
pub struct Config {
    base_url: String,
    api_key: String,
}

/// A configuration as plain values.
pub struct ConfigView {
    pub base_url: Seq<char>,
    pub api_key: Seq<char>,
}

impl View for Config {
    type V = ConfigView;

    closed spec fn view(&self) -> ConfigView {
        ConfigView { base_url: self.base_url@, api_key: self.api_key@ }
    }
}

impl ConfigView {
    /// Both values are present.
    pub open spec fn well_formed(self) -> bool {
        self.base_url.len() > 0 && self.api_key.len() > 0
    }
}

impl Config {
    /// Both values are present in every configuration.
    #[verifier::type_invariant]
    spec fn present(self) -> bool {
        self.base_url@.len() > 0 && self.api_key@.len() > 0
    }

    /// The configuration made of the two values as the environment gave
    /// them. A value that is absent or empty is refused, the address first.
    pub fn new(base_url: Option<String>, api_key: Option<String>) -> (r: Result<Config, Failure>)
        ensures
            match r {
                Ok(config) => {
                    &&& base_url is Some
                    &&& api_key is Some
                    &&& config@.base_url == base_url->Some_0@
                    &&& config@.api_key == api_key->Some_0@
                    &&& config@.well_formed()
                },
                Err(failure) => if base_url is None || base_url->Some_0@.len() == 0 {
                    failure == Failure::MissingBaseUrl
                } else {
                    &&& failure == Failure::MissingApiKey
                    &&& (api_key is None || api_key->Some_0@.len() == 0)
                },
            },
    {
        let base_url = match base_url {
            Some(value) => value,
            None => return Err(Failure::MissingBaseUrl),
        };
        if base_url.as_str().is_empty() {
            return Err(Failure::MissingBaseUrl);
        }
        let api_key = match api_key {
            Some(value) => value,
            None => return Err(Failure::MissingApiKey),
        };
        if api_key.as_str().is_empty() {
            return Err(Failure::MissingApiKey);
        }
        Ok(Config { base_url, api_key })
    }

    /// The address of the backend, to which resource paths are appended.
    pub fn base_url(&self) -> (s: &str)
        ensures
            s@ == self@.base_url,
            self@.well_formed(),
    {
        proof {
            use_type_invariant(self);
        }
        self.base_url.as_str()
    }

    /// The secret, sent both as the key and as the bearer token.
    pub fn api_key(&self) -> (s: &str)
        ensures
            s@ == self@.api_key,
            self@.well_formed(),
    {
        proof {
            use_type_invariant(self);
        }
        self.api_key.as_str()
    }
}

/// One header of a request.
#[derive(Clone, Debug, PartialEq, Eq)]
pub struct Header {
    pub name: String,
    pub value: String,
}

/// A GET request: its address and its headers, in the order sent.
#[derive(Clone, Debug, PartialEq, Eq)]
pub struct Request {
    pub url: String,
    pub headers: Vec<Header>,
}

/// A header as plain values.
pub struct HeaderView {
    pub name: Seq<char>,
    pub value: Seq<char>,
}

/// A request as plain values.
pub struct RequestView {
    pub url: Seq<char>,
    pub headers: Seq<HeaderView>,
}

impl View for Header {
    type V = HeaderView;

    open spec fn view(&self) -> HeaderView {
        HeaderView { name: self.name@, value: self.value@ }
    }
}

impl View for Request {
    type V = RequestView;

    open spec fn view(&self) -> RequestView {
        RequestView { url: self.url@, headers: views(self.headers@) }
    }
}

/// The three collections that the backend serves.
#[derive(Clone, Copy, Debug, PartialEq, Eq, Structural)]
pub enum Resource {
    Technologies,
    Learning,
    Projects,
}

/// The path of a collection, with the query that selects every column.
pub open spec fn resource_path(resource: Resource) -> Seq<char> {
    match resource {
        Resource::Technologies => "technologies?select=*"@,
        Resource::Learning => "learn?select=*"@,
        Resource::Projects => "projects?select=*"@,
    }
}

/// The request for a collection of the backend: the path appended to the
/// configured address as it stands, the secret as `apikey`, and the secret
/// again as bearer token.
pub open spec fn backend_request(config: ConfigView, resource: Resource) -> RequestView {
    RequestView {
        url: config.base_url + resource_path(resource),
        headers: seq![
            HeaderView { name: "apikey"@, value: config.api_key },
            HeaderView { name: "Authorization"@, value: "Bearer "@ + config.api_key },
        ],
    }
}

/// The request for the statistics of the repository `name` of `username`
/// at the code host. It carries a user agent and no secret.
pub open spec fn repository_request(username: Seq<char>, name: Seq<char>) -> RequestView {
    RequestView {
        url: "https://api.github.com/repos/"@ + username + "/"@ + name,
        headers: seq![HeaderView { name: "User-Agent"@, value: "Rust"@ }],
    }
}

/// The text `first` followed by `second`.
fn joined(first: &str, second: &str) -> (s: String)
    ensures
        s@ == first@ + second@,
{
    let mut s = String::new();
    s.append(first);
    s.append(second);
    assert(s@ =~= first@ + second@);
    s
}

/// The path of a collection.
fn path_of(resource: Resource) -> (s: &'static str)
    ensures
        s@ == resource_path(resource),
{
    match resource {
        Resource::Technologies => "technologies?select=*",
        Resource::Learning => "learn?select=*",
        Resource::Projects => "projects?select=*",
    }
}

impl Request {
    /// The request for a collection of the backend. The configuration it
    /// is made from is complete, as every configuration is.
    pub fn backend(config: &Config, resource: Resource) -> (request: Request)
        ensures
            request@ == backend_request(config@, resource),
            config@.well_formed(),
    {
        let mut headers: Vec<Header> = Vec::new();
        headers.push(Header { name: "apikey".to_owned(), value: config.api_key().to_owned() });
        headers.push(
            Header { name: "Authorization".to_owned(), value: joined("Bearer ", config.api_key()) },
        );
        let request = Request { url: joined(config.base_url(), path_of(resource)), headers };
        assert(request@.headers =~= backend_request(config@, resource).headers);
        request
    }

    /// The request for the statistics of one repository.
    pub fn repository(username: &str, name: &str) -> (request: Request)
        ensures
            request@ == repository_request(username@, name@),
    {
        let mut url = joined("https://api.github.com/repos/", username);
        url.append("/");
        url.append(name);
        let mut headers: Vec<Header> = Vec::new();
        headers.push(Header { name: "User-Agent".to_owned(), value: "Rust".to_owned() });
        let request = Request { url, headers };
        assert(request@.headers =~= repository_request(username@, name@).headers);
        assert(request@.url =~= repository_request(username@, name@).url);
        request
    }
}

} // verus!
