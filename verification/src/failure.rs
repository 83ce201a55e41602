//! The ways in which building the page can fail. Each of them ends the run.

use vstd::prelude::*;
use crate::text::{decimal, push_decimal};

verus! {

/// Why the page could not be built.
#[derive(Clone, Copy, Debug, PartialEq, Eq, Structural)]
pub enum Failure {
    /// No address of the backend was configured.
    MissingBaseUrl,
    /// No key for the backend was configured.
    MissingApiKey,
    /// A server answered 401.
    Unauthorized,
    /// A server answered with a status other than 200 and 401.
    UnexpectedStatus(u16),
    /// A reply's body was not JSON of the expected shape.
    MalformedBody,
    /// The time of rendering lies outside the calendar.
    TimeOutOfRange,
    /// An event arrived that the run was not waiting for.
    UnexpectedEvent,
}

/// The diagnostic text of a failure.
pub open spec fn failure_message(failure: Failure) -> Seq<char> {
    match failure {
        Failure::MissingBaseUrl => "BASE_URL is not set"@,
        Failure::MissingApiKey => "API_KEY is not set"@,
        Failure::Unauthorized => "Unauthorized"@,
        Failure::UnexpectedStatus(status) => "Uh oh! Something unexpected happened: "@ + decimal(
            status as nat,
        ),
        Failure::MalformedBody => "Error deserializing response"@,
        Failure::TimeOutOfRange => "The time of rendering is out of range"@,
        Failure::UnexpectedEvent => "An event arrived out of turn"@,
    }
}

impl Failure {
    /// The diagnostic text of this failure.
    pub fn message(&self) -> (text: String)
        ensures
            text@ == failure_message(*self),
    {
        let mut text = String::new();
        match self {
            Failure::MissingBaseUrl => text.append("BASE_URL is not set"),
            Failure::MissingApiKey => text.append("API_KEY is not set"),
            Failure::Unauthorized => text.append("Unauthorized"),
            Failure::UnexpectedStatus(status) => {
                text.append("Uh oh! Something unexpected happened: ");
                push_decimal(&mut text, *status as u64);
            },
            Failure::MalformedBody => text.append("Error deserializing response"),
            Failure::TimeOutOfRange => text.append("The time of rendering is out of range"),
            Failure::UnexpectedEvent => text.append("An event arrived out of turn"),
        }
        assert(text@ =~= failure_message(*self));
        text
    }
}

} // verus!
