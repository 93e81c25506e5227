//! Records as the value of a single HTTP header: the query-parameter
//! form of a record, held to what a header value may contain.
//!
//! A record goes into a header as text. A header that comes in is
//! handed over as the text it holds, if it holds text, and as it is
//! shown for inspection, which is what an error quotes where it does
//! not.

use crate::models::{
    CreateRequest, Error, RequestHeader, ResponseHeader, UpdateRequest, User, UserListResponse,
    UserResponse, UserView,
};
use crate::query::error::{error_from_query, error_to_query};
use crate::query::header::{request_header_from_query, response_header_from_query};
use crate::query::parse::parsed;
use crate::query::records::{pair_record_error, user_list_error};
use crate::query::user::{parsed_user, user_from_query, user_to_query};
use vstd::prelude::*;
use vstd::string::*;
use vstd::utf8::encode_utf8;

verus! {

/// Whether the byte `b` may stand in the value of a header: any byte
/// but the control characters, of which only the tab may.
pub open spec fn is_header_byte(b: u8) -> bool {
    b >= 32 && b != 127 || b == 9
}

/// Whether the text `s` may stand as the value of a header: whether
/// every byte of it, encoded as UTF-8, may.
pub open spec fn is_header_text(s: Seq<char>) -> bool {
    forall|i: int| 0 <= i < encode_utf8(s).len() ==> is_header_byte(#[trigger] encode_utf8(s)[i])
}

/// The error for a record whose text may not stand in a header.
pub open spec fn invalid_header_value(record: Seq<char>, text: Seq<char>) -> Seq<char> {
    "Invalid header value for "@ + record + " - value: "@ + text
        + " is invalid failed to parse header value"@
}

/// The error for a header value that is no text. `shown` is the value
/// as it is shown for inspection.
pub open spec fn unreadable_header(shown: Seq<char>) -> Seq<char> {
    "Unable to convert header: "@ + shown + " to string: failed to convert header to a str"@
}

/// The error for a header value that is text but no record.
pub open spec fn unconvertible_header(text: Seq<char>, record: Seq<char>, error: Seq<char>) -> Seq<
    char,
> {
    "Unable to convert header value '"@ + text + "' into "@ + record + " - "@ + error
}

/// The text `text` as the value of a header for a record of the kind
/// `record`, or the error where it may not stand there.
pub open spec fn header_text_of(text: Seq<char>, record: Seq<char>) -> Result<
    Seq<char>,
    Seq<char>,
> {
    if is_header_text(text) {
        Ok(text)
    } else {
        Err(invalid_header_value(record, text))
    }
}

/// What reading came to, with an error set in the message that tells
/// which header value would not convert.
pub open spec fn relabel<T>(read: Result<T, Seq<char>>, text: Seq<char>, record: Seq<char>) -> Result<
    T,
    Seq<char>,
> {
    match read {
        Ok(value) => Ok(value),
        Err(error) => Err(unconvertible_header(text, record, error)),
    }
}

/// A text or an error, each by its characters.
pub open spec fn texts(r: Result<String, String>) -> Result<Seq<char>, Seq<char>> {
    match r {
        Ok(text) => Ok(text@),
        Err(error) => Err(error@),
    }
}

/// `http::HeaderValue::from_str`, of which the verdict is kept: nothing
/// where it makes a value of `text`, else the text its error displays.
///
/// Claimed of it: it makes a value exactly of a text of which every
/// byte is 32 or more and not 127, or is the tab; and its error
/// displays as `failed to parse header value`.
#[verifier::external_body]
fn header_value_error(text: &str) -> (error: Option<String>)
    ensures
        error is None <==> is_header_text(text@),
        error matches Some(e) ==> e@ == "failed to parse header value"@,
{
    match http::HeaderValue::from_str(text) {
        Ok(_) => None,
        Err(e) => Some(e.to_string()),
    }
}

/// `text`, if it may stand as the value of a header, for a record of
/// the kind `record`.
pub fn into_header_text(text: String, record: &str) -> (r: Result<String, String>)
    ensures
        texts(r) == header_text_of(text@, record@),
{
    match header_value_error(text.as_str()) {
        None => Ok(text),
        Some(error) => {
            let mut message = String::from_str("Invalid header value for ");
            message.append(record);
            message.append(" - value: ");
            message.append(text.as_str());
            message.append(" is invalid ");
            message.append(error.as_str());
            assert(message@ =~= invalid_header_value(record@, text@)) by {
                reveal_strlit(" is invalid ");
                reveal_strlit("failed to parse header value");
                reveal_strlit(" is invalid failed to parse header value");
                assert(" is invalid "@ + "failed to parse header value"@
                    =~= " is invalid failed to parse header value"@);
            }
            Err(message)
        },
    }
}

/// The error for a header value that is no text.
pub fn unreadable_header_text(shown: &str) -> (message: String)
    ensures
        message@ == unreadable_header(shown@),
{
    let mut message = String::from_str("Unable to convert header: ");
    message.append(shown);
    message.append(" to string: failed to convert header to a str");
    message
}

/// What reading the text `text` of a header as a record of the kind
/// `record` came to.
pub fn relabelled<T>(read: Result<T, String>, text: &str, record: &str) -> (r: Result<T, String>)
    ensures
        parsed(r) == relabel(parsed(read), text@, record@),
{
    match read {
        Ok(value) => Ok(value),
        Err(error) => {
            let mut message = String::from_str("Unable to convert header value '");
            message.append(text);
            message.append("' into ");
            message.append(record);
            message.append(" - ");
            message.append(error.as_str());
            assert(message@ =~= unconvertible_header(text@, record@, error@));
            Err(message)
        },
    }
}

impl User {
    /// The text under which the user goes into a header.
    pub fn to_header_text(&self) -> (r: Result<String, String>)
        ensures
            texts(r) == header_text_of(user_to_query(self@), "User"@),
    {
        into_header_text(self.to_string(), "User")
    }

    /// Reads a user from a header that holds `text`, or holds no text
    /// and is shown as `shown`.
    pub fn from_header_text(text: Option<&str>, shown: &str) -> (r: Result<User, String>)
        ensures
            match text {
                Some(t) => parsed_user(r) == relabel(user_from_query(t@), t@, "User"@),
                None => parsed_user(r) == Err::<UserView, Seq<char>>(unreadable_header(shown@)),
            },
    {
        match text {
            Some(t) => relabelled(User::from_str(t), t, "User"),
            None => Err(unreadable_header_text(shown)),
        }
    }
}

impl Error {
    /// The text under which the error goes into a header.
    pub fn to_header_text(&self) -> (r: Result<String, String>)
        ensures
            texts(r) == header_text_of(error_to_query(self@), "Error"@),
    {
        into_header_text(self.to_string(), "Error")
    }

    /// Reads an error record from a header that holds `text`, or holds
    /// no text and is shown as `shown`. No header gives a record.
    pub fn from_header_text(text: Option<&str>, shown: &str) -> (r: Result<Error, String>)
        ensures
            r is Err,
            match text {
                Some(t) => r->Err_0@ == unconvertible_header(t@, "Error"@, error_from_query(t@)),
                None => r->Err_0@ == unreadable_header(shown@),
            },
    {
        match text {
            Some(t) => relabelled(Error::from_str(t), t, "Error"),
            None => Err(unreadable_header_text(shown)),
        }
    }
}

impl RequestHeader {
    /// The text under which the header goes into a header value: the
    /// empty text.
    pub fn to_header_text(&self) -> (r: Result<String, String>)
        ensures
            texts(r) == header_text_of(Seq::empty(), "RequestHeader"@),
    {
        into_header_text(self.to_string(), "RequestHeader")
    }

    /// Reads the header of a request from a header value that holds
    /// `text`, or holds no text and is shown as `shown`.
    pub fn from_header_text(text: Option<&str>, shown: &str) -> (r: Result<RequestHeader, String>)
        ensures
            match text {
                Some(t) => parsed(r) == relabel(
                    request_header_from_query(t@),
                    t@,
                    "RequestHeader"@,
                ),
                None => parsed(r) == Err::<RequestHeader, Seq<char>>(unreadable_header(shown@)),
            },
    {
        match text {
            Some(t) => relabelled(RequestHeader::from_str(t), t, "RequestHeader"),
            None => Err(unreadable_header_text(shown)),
        }
    }
}

impl ResponseHeader {
    /// The text under which the header goes into a header value: the
    /// empty text.
    pub fn to_header_text(&self) -> (r: Result<String, String>)
        ensures
            texts(r) == header_text_of(Seq::empty(), "ResponseHeader"@),
    {
        into_header_text(self.to_string(), "ResponseHeader")
    }

    /// Reads the header of an answer from a header value that holds
    /// `text`, or holds no text and is shown as `shown`.
    pub fn from_header_text(text: Option<&str>, shown: &str) -> (r: Result<ResponseHeader, String>)
        ensures
            match text {
                Some(t) => parsed(r) == relabel(
                    response_header_from_query(t@),
                    t@,
                    "ResponseHeader"@,
                ),
                None => parsed(r) == Err::<ResponseHeader, Seq<char>>(unreadable_header(shown@)),
            },
    {
        match text {
            Some(t) => relabelled(ResponseHeader::from_str(t), t, "ResponseHeader"),
            None => Err(unreadable_header_text(shown)),
        }
    }
}

impl CreateRequest {
    /// The text under which the request goes into a header: the empty
    /// text.
    pub fn to_header_text(&self) -> (r: Result<String, String>)
        ensures
            texts(r) == header_text_of(Seq::empty(), "CreateRequest"@),
    {
        into_header_text(self.to_string(), "CreateRequest")
    }

    /// Reads a request from a header that holds `text`, or holds no
    /// text and is shown as `shown`. No header gives a request.
    pub fn from_header_text(text: Option<&str>, shown: &str) -> (r: Result<CreateRequest, String>)
        ensures
            r is Err,
            match text {
                Some(t) => r->Err_0@ == unconvertible_header(
                    t@,
                    "CreateRequest"@,
                    pair_record_error(t@, "requestHeader"@, "CreateRequest"@),
                ),
                None => r->Err_0@ == unreadable_header(shown@),
            },
    {
        match text {
            Some(t) => relabelled(CreateRequest::from_str(t), t, "CreateRequest"),
            None => Err(unreadable_header_text(shown)),
        }
    }
}

impl UpdateRequest {
    /// The text under which the request goes into a header: the empty
    /// text.
    pub fn to_header_text(&self) -> (r: Result<String, String>)
        ensures
            texts(r) == header_text_of(Seq::empty(), "UpdateRequest"@),
    {
        into_header_text(self.to_string(), "UpdateRequest")
    }

    /// Reads a request from a header that holds `text`, or holds no
    /// text and is shown as `shown`. No header gives a request.
    pub fn from_header_text(text: Option<&str>, shown: &str) -> (r: Result<UpdateRequest, String>)
        ensures
            r is Err,
            match text {
                Some(t) => r->Err_0@ == unconvertible_header(
                    t@,
                    "UpdateRequest"@,
                    pair_record_error(t@, "requestHeader"@, "UpdateRequest"@),
                ),
                None => r->Err_0@ == unreadable_header(shown@),
            },
    {
        match text {
            Some(t) => relabelled(UpdateRequest::from_str(t), t, "UpdateRequest"),
            None => Err(unreadable_header_text(shown)),
        }
    }
}

impl UserResponse {
    /// The text under which the answer goes into a header: the empty
    /// text.
    pub fn to_header_text(&self) -> (r: Result<String, String>)
        ensures
            texts(r) == header_text_of(Seq::empty(), "UserResponse"@),
    {
        into_header_text(self.to_string(), "UserResponse")
    }

    /// Reads an answer from a header that holds `text`, or holds no
    /// text and is shown as `shown`. No header gives an answer.
    pub fn from_header_text(text: Option<&str>, shown: &str) -> (r: Result<UserResponse, String>)
        ensures
            r is Err,
            match text {
                Some(t) => r->Err_0@ == unconvertible_header(
                    t@,
                    "UserResponse"@,
                    pair_record_error(t@, "responseHeader"@, "UserResponse"@),
                ),
                None => r->Err_0@ == unreadable_header(shown@),
            },
    {
        match text {
            Some(t) => relabelled(UserResponse::from_str(t), t, "UserResponse"),
            None => Err(unreadable_header_text(shown)),
        }
    }
}

impl UserListResponse {
    /// The text under which the answer goes into a header: the empty
    /// text.
    pub fn to_header_text(&self) -> (r: Result<String, String>)
        ensures
            texts(r) == header_text_of(Seq::empty(), "UserListResponse"@),
    {
        into_header_text(self.to_string(), "UserListResponse")
    }

    /// Reads an answer from a header that holds `text`, or holds no
    /// text and is shown as `shown`. No header gives an answer.
    pub fn from_header_text(text: Option<&str>, shown: &str) -> (r: Result<
        UserListResponse,
        String,
    >)
        ensures
            r is Err,
            match text {
                Some(t) => r->Err_0@ == unconvertible_header(
                    t@,
                    "UserListResponse"@,
                    user_list_error(t@),
                ),
                None => r->Err_0@ == unreadable_header(shown@),
            },
    {
        match text {
            Some(t) => relabelled(UserListResponse::from_str(t), t, "UserListResponse"),
            None => Err(unreadable_header_text(shown)),
        }
    }
}

} // verus!
