//! Judging a reply: the status decides first, then the body is decoded.

use vstd::prelude::*;
use crate::decode::{list_from_text, list_in_text, record_from_text, record_in_text, Record};
use crate::failure::Failure;
use crate::model::views;

verus! {

/// What a status means: 200 lets the body through, 401 is a refusal of the
/// secret, and every other status is unexpected.
pub open spec fn status_verdict(status: u16) -> Result<(), Failure> {
    if status == 200 {
        Ok(())
    } else if status == 401 {
        Err(Failure::Unauthorized)
    } else {
        Err(Failure::UnexpectedStatus(status))
    }
}

/// The collection that a reply carries. The body is looked at only under
/// status 200.
pub open spec fn list_reply<T: Record>(status: u16, body: Seq<char>) -> Result<
    Seq<T::V>,
    Failure,
> {
    match status_verdict(status) {
        Ok(_) => match list_in_text::<T>(body) {
            Some(records) => Ok(records),
            None => Err(Failure::MalformedBody),
        },
        Err(failure) => Err(failure),
    }
}

/// The single record that a reply carries. The body is looked at only under
/// status 200.
pub open spec fn record_reply<T: Record>(status: u16, body: Seq<char>) -> Result<T::V, Failure> {
    match status_verdict(status) {
        Ok(_) => match record_in_text::<T>(body) {
            Some(record) => Ok(record),
            None => Err(Failure::MalformedBody),
        },
        Err(failure) => Err(failure),
    }
}

/// Judges the status of a reply.
pub fn check_status(status: u16) -> (r: Result<(), Failure>)
    ensures
        r == status_verdict(status),
{
    if status == 200 {
        Ok(())
    } else if status == 401 {
        Err(Failure::Unauthorized)
    } else {
        Err(Failure::UnexpectedStatus(status))
    }
}

/// Reads the collection that a reply carries.
pub fn read_list<T: Record>(status: u16, body: &str) -> (r: Result<Vec<T>, Failure>)
    ensures
        match r {
            Ok(records) => list_reply::<T>(status, body@) == Ok::<Seq<T::V>, Failure>(
                views(records@),
            ),
            Err(failure) => list_reply::<T>(status, body@) == Err::<Seq<T::V>, Failure>(failure),
        },
{
    match check_status(status) {
        Ok(_) => list_from_text(body),
        Err(failure) => Err(failure),
    }
}

/// Reads the single record that a reply carries.
pub fn read_record<T: Record>(status: u16, body: &str) -> (r: Result<T, Failure>)
    ensures
        match r {
            Ok(record) => record_reply::<T>(status, body@) == Ok::<T::V, Failure>(record@),
            Err(failure) => record_reply::<T>(status, body@) == Err::<T::V, Failure>(failure),
        },
{
    match check_status(status) {
        Ok(_) => record_from_text(body),
        Err(failure) => Err(failure),
    }
}

} // verus!
