//! Headers in query-parameter form: the pairs `requestId`, a UUID, and
//! `sendDate`, a timestamp.

use crate::models::{RequestHeader, ResponseHeader};
use crate::query::parse::{datetime_from_str, parse_datetime, parse_uuid, parsed, uuid_from_str};
use crate::query::tokens::{
    comma_count, first_of, lemma_split_commas, missing_field, missing_field_text, missing_value,
    missing_value_text, same_text, split_commas, split_on_commas, token_views, unexpected_key,
    unexpected_key_text,
};
use vstd::prelude::*;

verus! {

/// What has been read of a header.
#[derive(Debug, Clone, Copy, PartialEq, Eq)]
pub struct HeaderFields {
    pub request_id: Option<u128>,
    pub send_date: Option<i64>,
}

/// A header of which nothing has been read.
pub open spec fn no_header_fields() -> HeaderFields {
    HeaderFields { request_id: None, send_date: None }
}

/// `fields` after an identifier was parsed for it: the first
/// identifier read stays, and an error ends the reading.
pub open spec fn keep_request_id(fields: HeaderFields, id: Result<u128, Seq<char>>) -> Result<
    HeaderFields,
    Seq<char>,
> {
    match id {
        Ok(id) => Ok(HeaderFields { request_id: first_of(fields.request_id, id), ..fields }),
        Err(error) => Err(error),
    }
}

/// `fields` after a time was parsed for it: the first time read stays,
/// and an error ends the reading.
pub open spec fn keep_send_date(fields: HeaderFields, time: Result<i64, Seq<char>>) -> Result<
    HeaderFields,
    Seq<char>,
> {
    match time {
        Ok(time) => Ok(HeaderFields { send_date: first_of(fields.send_date, time), ..fields }),
        Err(error) => Err(error),
    }
}

/// `fields` after the pair `key`, `value` of a header was read.
pub open spec fn header_take(
    fields: HeaderFields,
    key: Seq<char>,
    value: Seq<char>,
    record: Seq<char>,
) -> Result<HeaderFields, Seq<char>> {
    if key == "requestId"@ {
        keep_request_id(fields, uuid_from_str(value))
    } else if key == "sendDate"@ {
        keep_send_date(fields, datetime_from_str(value))
    } else {
        Err(unexpected_key(record))
    }
}

/// What the first `pairs` pairs of `tokens` give of a header, or the
/// first error met on the way.
pub open spec fn header_fields(tokens: Seq<Seq<char>>, pairs: nat, record: Seq<char>) -> Result<
    HeaderFields,
    Seq<char>,
>
    decreases pairs,
{
    if pairs == 0 {
        Ok(no_header_fields())
    } else {
        match header_fields(tokens, (pairs - 1) as nat, record) {
            Ok(fields) => header_take(
                fields,
                tokens[2 * (pairs - 1)],
                tokens[2 * (pairs - 1) + 1],
                record,
            ),
            Err(error) => Err(error),
        }
    }
}

/// The identifier and the time that `fields` hold, or the error that
/// names the one that is wanting.
pub open spec fn header_of_fields(fields: HeaderFields, record: Seq<char>) -> Result<
    (u128, i64),
    Seq<char>,
> {
    if fields.request_id is None {
        Err(missing_field("requestId"@, record))
    } else if fields.send_date is None {
        Err(missing_field("sendDate"@, record))
    } else {
        Ok((fields.request_id->0, fields.send_date->0))
    }
}

/// What the text `s` gives as a header of the kind `record`: the
/// identifier and the time it names, or the error.
pub open spec fn header_from_query(s: Seq<char>, record: Seq<char>) -> Result<
    (u128, i64),
    Seq<char>,
> {
    let tokens = split_commas(s);
    match header_fields(tokens, tokens.len() / 2, record) {
        Err(error) => Err(error),
        Ok(fields) => if tokens.len() % 2 == 1 {
            Err(missing_value(record))
        } else {
            header_of_fields(fields, record)
        },
    }
}

/// What the text `s` gives as the header of a request.
pub open spec fn request_header_from_query(s: Seq<char>) -> Result<RequestHeader, Seq<char>> {
    match header_from_query(s, "RequestHeader"@) {
        Ok((request_id, send_date)) => Ok(RequestHeader { request_id, send_date }),
        Err(error) => Err(error),
    }
}

/// What the text `s` gives as the header of an answer.
pub open spec fn response_header_from_query(s: Seq<char>) -> Result<ResponseHeader, Seq<char>> {
    match header_from_query(s, "ResponseHeader"@) {
        Ok((request_id, send_date)) => Ok(ResponseHeader { request_id, send_date }),
        Err(error) => Err(error),
    }
}

/// Once reading has met an error, that error is the outcome.
proof fn lemma_header_error_stays(
    tokens: Seq<Seq<char>>,
    pairs: nat,
    more: nat,
    record: Seq<char>,
)
    requires
        header_fields(tokens, pairs, record) is Err,
        pairs <= more,
    ensures
        header_fields(tokens, more, record) == header_fields(tokens, pairs, record),
    decreases more,
{
    if pairs < more {
        lemma_header_error_stays(tokens, pairs, (more - 1) as nat, record);
    }
}

/// A text without a comma is no header: it is a key without a value.
pub proof fn lemma_header_needs_a_pair(s: Seq<char>, record: Seq<char>)
    requires
        comma_count(s) == 0,
    ensures
        header_from_query(s, record) == Err::<(u128, i64), Seq<char>>(missing_value(record)),
{
    lemma_split_commas(s);
}

impl HeaderFields {
    /// A header of which nothing has been read.
    pub fn new() -> (fields: HeaderFields)
        ensures
            fields == no_header_fields(),
    {
        HeaderFields { request_id: None, send_date: None }
    }

    /// Takes in what parsing an identifier came to.
    pub fn with_request_id(self, id: Result<u128, String>) -> (r: Result<HeaderFields, String>)
        ensures
            parsed(r) == keep_request_id(self, parsed(id)),
    {
        match id {
            Ok(id) => Ok(
                HeaderFields {
                    request_id: if self.request_id.is_none() {
                        Some(id)
                    } else {
                        self.request_id
                    },
                    send_date: self.send_date,
                },
            ),
            Err(error) => Err(error),
        }
    }

    /// Takes in what parsing a time came to.
    pub fn with_send_date(self, time: Result<i64, String>) -> (r: Result<HeaderFields, String>)
        ensures
            parsed(r) == keep_send_date(self, parsed(time)),
    {
        match time {
            Ok(time) => Ok(
                HeaderFields {
                    request_id: self.request_id,
                    send_date: if self.send_date.is_none() {
                        Some(time)
                    } else {
                        self.send_date
                    },
                },
            ),
            Err(error) => Err(error),
        }
    }

    /// Reads the pair `key`, `value` of a header of the kind `record`.
    pub fn take(self, key: &str, value: &str, record: &str) -> (r: Result<HeaderFields, String>)
        ensures
            parsed(r) == header_take(self, key@, value@, record@),
    {
        if same_text(key, "requestId") {
            self.with_request_id(parse_uuid(value))
        } else if same_text(key, "sendDate") {
            self.with_send_date(parse_datetime(value))
        } else {
            Err(unexpected_key_text(record))
        }
    }

    /// The identifier and the time read, if both were.
    pub fn finish(self, record: &str) -> (r: Result<(u128, i64), String>)
        ensures
            parsed(r) == header_of_fields(self, record@),
    {
        match (self.request_id, self.send_date) {
            (None, _) => Err(missing_field_text("requestId", record)),
            (Some(_), None) => Err(missing_field_text("sendDate", record)),
            (Some(id), Some(time)) => Ok((id, time)),
        }
    }
}

/// Reads a header of the kind `record` from `s`.
pub fn parse_header(s: &str, record: &str) -> (r: Result<(u128, i64), String>)
    ensures
        parsed(r) == header_from_query(s@, record@),
{
    let tokens = split_on_commas(s);
    let ghost views = token_views(tokens@);
    let mut fields = HeaderFields::new();
    let mut i: usize = 0;
    while tokens.len() - i >= 2
        invariant
            i <= tokens.len(),
            i % 2 == 0,
            views == token_views(tokens@),
            views == split_commas(s@),
            header_fields(views, (i / 2) as nat, record@) == Ok::<HeaderFields, Seq<char>>(fields),
        decreases tokens.len() - i,
    {
        let ghost pairs = (i / 2 + 1) as nat;
        assert(views[2 * (pairs - 1)] == tokens[i as int]@);
        assert(views[2 * (pairs - 1) + 1] == tokens[i + 1]@);
        assert(pairs <= views.len() / 2);
        match fields.take(tokens[i], tokens[i + 1], record) {
            Ok(next) => {
                fields = next;
            },
            Err(error) => {
                proof {
                    lemma_header_error_stays(views, pairs, views.len() / 2, record@);
                }
                return Err(error);
            },
        }
        i += 2;
    }
    if i < tokens.len() {
        return Err(missing_value_text(record));
    }
    fields.finish(record)
}

impl RequestHeader {
    /// The query-parameter form of a header, which holds none of its
    /// fields: the empty text.
    pub fn to_string(&self) -> (text: String)
        ensures
            text@ == Seq::<char>::empty(),
    {
        String::new()
    }

    /// Reads the header of a request from its query-parameter form.
    pub fn from_str(s: &str) -> (r: Result<RequestHeader, String>)
        ensures
            parsed(r) == request_header_from_query(s@),
    {
        match parse_header(s, "RequestHeader") {
            Ok((request_id, send_date)) => Ok(RequestHeader::new(request_id, send_date)),
            Err(error) => Err(error),
        }
    }
}

impl ResponseHeader {
    /// The query-parameter form of a header, which holds none of its
    /// fields: the empty text.
    pub fn to_string(&self) -> (text: String)
        ensures
            text@ == Seq::<char>::empty(),
    {
        String::new()
    }

    /// Reads the header of an answer from its query-parameter form.
    pub fn from_str(s: &str) -> (r: Result<ResponseHeader, String>)
        ensures
            parsed(r) == response_header_from_query(s@),
    {
        match parse_header(s, "ResponseHeader") {
            Ok((request_id, send_date)) => Ok(ResponseHeader::new(request_id, send_date)),
            Err(error) => Err(error),
        }
    }
}

} // verus!
