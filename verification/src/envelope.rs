//! Fresh envelope headers: a random identifier and the current time.

use crate::identifier::{is_random_id, random_id};
use crate::models::{RequestHeader, ResponseHeader};
use vstd::prelude::*;

verus! {

/// A header as it is made afresh: its identifier is marked as drawn at
/// random, and its time is not before the Unix epoch.
pub open spec fn is_fresh(request_id: u128, send_date: i64) -> bool {
    is_random_id(request_id) && send_date >= 0
}

/// `chrono::Utc::now`, as milliseconds since the Unix epoch by
/// `DateTime::timestamp_millis`.
///
/// Claimed of it: the result is not negative, since `now` takes the
/// time that has passed since the epoch. Which instant it is depends on
/// the clock.
#[verifier::external_body]
pub(crate) fn now_millis() -> (millis: i64)
    ensures
        millis >= 0,
{
    chrono::Utc::now().timestamp_millis()
}

/// A header for an answer, made now: a random identifier and the
/// current time.
pub fn build_response_header() -> (header: ResponseHeader)
    ensures
        is_fresh(header.request_id, header.send_date),
{
    ResponseHeader::new(random_id(), now_millis())
}

/// A header for a request, made now: a random identifier and the
/// current time.
pub fn build_request_header() -> (header: RequestHeader)
    ensures
        is_fresh(header.request_id, header.send_date),
{
    RequestHeader::new(random_id(), now_millis())
}

} // verus!
