//! From the body of a reply to records.
//!
//! A collection arrives as a JSON array of objects, the statistics of a
//! repository as a single object. A record is read from the members that it
//! needs; members that it does not know are passed over. A body that is no
//! JSON, or in which a needed member is missing or of another kind, is
//! refused as a whole: nothing is filled in.

use vstd::prelude::*;
use crate::failure::Failure;
use crate::json::{json_document, json_value, json_values, member, parse_document, Json};
use crate::model::{
    views, LearningItem, LearningItemView, Project, ProjectView, RepoStats, Technology,
    TechnologyView,
};

verus! {

/// The text of the string member `key` of an object.
pub open spec fn text_member(value: Json, key: Seq<char>) -> Option<Seq<char>> {
    match value.member(key) {
        Some(found) => found.text(),
        None => None,
    }
}

/// The number of the unsigned member `key` of an object.
pub open spec fn number_member(value: Json, key: Seq<char>) -> Option<u64> {
    match value.member(key) {
        Some(found) => found.unsigned(),
        None => None,
    }
}

/// The text of the string member `key` of `value`.
pub fn text_of(value: &serde_json::Value, key: &str) -> (r: Option<String>)
    ensures
        match r {
            Some(text) => text_member(json_value(*value), key@) == Some(text@),
            None => text_member(json_value(*value), key@) is None,
        },
{
    match member(value, key) {
        Some(found) => match found.as_str() {
            Some(text) => Some(text.to_owned()),
            None => None,
        },
        None => None,
    }
}

/// The number of the unsigned member `key` of `value`.
pub fn number_of(value: &serde_json::Value, key: &str) -> (r: Option<u64>)
    ensures
        r == number_member(json_value(*value), key@),
{
    match member(value, key) {
        Some(found) => found.as_u64(),
        None => None,
    }
}

/// A kind of record that can be read from a JSON value.
pub trait Record: View + Sized {
    /// The record that `value` holds, where it has the shape of one.
    spec fn decoded(value: Json) -> Option<Self::V>;

    /// Reads a record from `value`.
    fn from_json(value: &serde_json::Value) -> (r: Option<Self>)
        ensures
            match r {
                Some(record) => Self::decoded(json_value(*value)) == Some(record@),
                None => Self::decoded(json_value(*value)) is None,
            },
    ;
}

impl Record for Technology {
    /// An object with the strings `name` and `badge`.
    open spec fn decoded(value: Json) -> Option<TechnologyView> {
        match (text_member(value, "name"@), text_member(value, "badge"@)) {
            (Some(name), Some(badge)) => Some(TechnologyView { name, badge }),
            _ => None,
        }
    }

    fn from_json(value: &serde_json::Value) -> (r: Option<Technology>) {
        let name = text_of(value, "name")?;
        let badge = text_of(value, "badge")?;
        Some(Technology { name, badge })
    }
}

impl Record for LearningItem {
    /// An object with the strings `name`, `badge` and `reason`.
    open spec fn decoded(value: Json) -> Option<LearningItemView> {
        match (
            text_member(value, "name"@),
            text_member(value, "badge"@),
            text_member(value, "reason"@),
        ) {
            (Some(name), Some(badge), Some(reason)) => Some(
                LearningItemView { name, badge, reason },
            ),
            _ => None,
        }
    }

    fn from_json(value: &serde_json::Value) -> (r: Option<LearningItem>) {
        let name = text_of(value, "name")?;
        let badge = text_of(value, "badge")?;
        let reason = text_of(value, "reason")?;
        Some(LearningItem { name, badge, reason })
    }
}

impl Record for Project {
    /// An object with the strings `name`, `username` and `url`.
    open spec fn decoded(value: Json) -> Option<ProjectView> {
        match (
            text_member(value, "name"@),
            text_member(value, "username"@),
            text_member(value, "url"@),
        ) {
            (Some(name), Some(username), Some(url)) => Some(ProjectView { name, username, url }),
            _ => None,
        }
    }

    fn from_json(value: &serde_json::Value) -> (r: Option<Project>) {
        let name = text_of(value, "name")?;
        let username = text_of(value, "username")?;
        let url = text_of(value, "url")?;
        Some(Project { name, username, url })
    }
}

impl Record for RepoStats {
    /// An object with the unsigned numbers `stargazers_count` and `forks`.
    open spec fn decoded(value: Json) -> Option<RepoStats> {
        match (number_member(value, "stargazers_count"@), number_member(value, "forks"@)) {
            (Some(stargazers_count), Some(forks)) => Some(RepoStats { stargazers_count, forks }),
            _ => None,
        }
    }

    fn from_json(value: &serde_json::Value) -> (r: Option<RepoStats>) {
        let stargazers_count = number_of(value, "stargazers_count")?;
        let forks = number_of(value, "forks")?;
        Some(RepoStats { stargazers_count, forks })
    }
}

/// The records that a JSON array holds, in its order: every element has to
/// have the shape of a record.
pub open spec fn decoded_list<T: Record>(document: Json) -> Option<Seq<T::V>> {
    match document.elements() {
        Some(elements) => if forall|i: int|
            0 <= i < elements.len() ==> (#[trigger] T::decoded(elements[i])) is Some {
            Some(Seq::new(elements.len(), |i: int| T::decoded(elements[i])->Some_0))
        } else {
            None
        },
        None => None,
    }
}

/// The record that the text holds, read as one JSON document.
pub open spec fn record_in_text<T: Record>(text: Seq<char>) -> Option<T::V> {
    match json_document(text) {
        Some(document) => T::decoded(document),
        None => None,
    }
}

/// The records that the text holds, read as one JSON array.
pub open spec fn list_in_text<T: Record>(text: Seq<char>) -> Option<Seq<T::V>> {
    match json_document(text) {
        Some(document) => decoded_list::<T>(document),
        None => None,
    }
}

/// Reads the records of a JSON array, in its order.
pub fn list_from_json<T: Record>(document: &serde_json::Value) -> (r: Result<Vec<T>, Failure>)
    ensures
        match r {
            Ok(records) => decoded_list::<T>(json_value(*document)) == Some(views(records@)),
            Err(failure) => failure == Failure::MalformedBody && decoded_list::<T>(
                json_value(*document),
            ) is None,
        },
{
    let elements = match document.as_array() {
        Some(elements) => elements,
        None => return Err(Failure::MalformedBody),
    };
    let mut records: Vec<T> = Vec::new();
    let mut i: usize = 0;
    while i < elements.len()
        invariant
            i <= elements.len(),
            json_value(*document) == Json::Array(json_values(elements@)),
            records@.len() == i,
            forall|j: int|
                0 <= j < i ==> (#[trigger] T::decoded(json_values(elements@)[j])) == Some(
                    records@[j]@,
                ),
        decreases elements.len() - i,
    {
        match T::from_json(&elements[i]) {
            Some(record) => records.push(record),
            None => {
                assert(T::decoded(json_values(elements@)[i as int]) is None);
                return Err(Failure::MalformedBody);
            },
        }
        i = i + 1;
    }
    assert(views(records@) =~= Seq::new(
        elements@.len() as nat,
        |i: int| T::decoded(json_values(elements@)[i])->Some_0,
    ));
    Ok(records)
}

/// Reads one record from the body of a reply.
pub fn record_from_text<T: Record>(text: &str) -> (r: Result<T, Failure>)
    ensures
        match r {
            Ok(record) => record_in_text::<T>(text@) == Some(record@),
            Err(failure) => failure == Failure::MalformedBody && record_in_text::<T>(text@)
                is None,
        },
{
    match parse_document(text) {
        Ok(document) => match T::from_json(&document) {
            Some(record) => Ok(record),
            None => Err(Failure::MalformedBody),
        },
        Err(_) => Err(Failure::MalformedBody),
    }
}

/// Reads a collection of records from the body of a reply.
pub fn list_from_text<T: Record>(text: &str) -> (r: Result<Vec<T>, Failure>)
    ensures
        match r {
            Ok(records) => list_in_text::<T>(text@) == Some(views(records@)),
            Err(failure) => failure == Failure::MalformedBody && list_in_text::<T>(text@) is None,
        },
{
    match parse_document(text) {
        Ok(document) => list_from_json(&document),
        Err(_) => Err(Failure::MalformedBody),
    }
}

/// A collection is refused as a whole as soon as one of its elements has
/// not the shape of a record: no element is left out and none is filled in.
pub proof fn element_out_of_shape_refuses_the_list<T: Record>(elements: Seq<Json>, i: int)
    requires
        0 <= i < elements.len(),
        T::decoded(elements[i]) is None,
    ensures
        decoded_list::<T>(Json::Array(elements)) is None,
{
}

/// A collection that is accepted holds one record for each element of the
/// array, in the order of the array.
pub proof fn accepted_list_keeps_every_element<T: Record>(elements: Seq<Json>)
    requires
        decoded_list::<T>(Json::Array(elements)) is Some,
    ensures
        decoded_list::<T>(Json::Array(elements))->Some_0.len() == elements.len(),
        forall|i: int|
            0 <= i < elements.len() ==> T::decoded(elements[i]) == Some(
                #[trigger] decoded_list::<T>(Json::Array(elements))->Some_0[i],
            ),
{
}

/// A value that is no array holds no collection.
pub proof fn only_an_array_is_a_list<T: Record>(document: Json)
    requires
        !(document is Array),
    ensures
        decoded_list::<T>(document) is None,
{
}

/// An object is a technology, a learning item or a project only with each
/// of its members present as a string, and the statistics of a repository
/// only with both counts present as unsigned numbers.
pub proof fn record_needs_every_member(value: Json)
    ensures
        Technology::decoded(value) is Some <==> text_member(value, "name"@) is Some
            && text_member(value, "badge"@) is Some,
        LearningItem::decoded(value) is Some <==> text_member(value, "name"@) is Some
            && text_member(value, "badge"@) is Some && text_member(value, "reason"@) is Some,
        Project::decoded(value) is Some <==> text_member(value, "name"@) is Some && text_member(
            value,
            "username"@,
        ) is Some && text_member(value, "url"@) is Some,
        RepoStats::decoded(value) is Some <==> number_member(value, "stargazers_count"@) is Some
            && number_member(value, "forks"@) is Some,
{
}

} // verus!
