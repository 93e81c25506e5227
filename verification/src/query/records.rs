//! Requests and answers in query-parameter form. Each holds records of
//! its own, which this form has no way to write: they are written as
//! the empty text, and no text is read as one of them.

use crate::models::{
    CreateRequest, RequestHeader, UpdateRequest, User, UserListResponse, UserResponse,
};
use crate::query::header::lemma_header_needs_a_pair;
use crate::query::tokens::{
    lemma_pieces_have_no_comma, lemma_split_commas, missing_field_text, missing_value,
    missing_value_text, same_text, split_commas, split_on_commas, token_views, unexpected_key,
    unexpected_key_text,
};
use crate::query::user::lemma_user_needs_a_pair;
use vstd::prelude::*;
use vstd::string::*;

verus! {

/// The error that reading the text `s` as a record of a header and a
/// user ends in, where the header stands under `header_key` and the
/// record is called `record`. It always ends in one: the first pair
/// already wants a record for its value, and no piece of a text holds
/// one.
pub open spec fn pair_record_error(s: Seq<char>, header_key: Seq<char>, record: Seq<char>) -> Seq<
    char,
> {
    let tokens = split_commas(s);
    if tokens.len() < 2 {
        missing_value(record)
    } else if tokens[0] == header_key {
        missing_value("RequestHeader"@)
    } else if tokens[0] == "user"@ {
        missing_value("User"@)
    } else {
        unexpected_key(record)
    }
}

/// The error for a list, which this form cannot hold.
pub open spec fn container_unsupported() -> Seq<char> {
    "Parsing a container in this style is not supported in UserListResponse"@
}

/// The error that reading the text `s` as a list of users ends in. It
/// always ends in one: the first pair wants either a header, which no
/// piece of a text holds, or a list, which this form cannot hold.
pub open spec fn user_list_error(s: Seq<char>) -> Seq<char> {
    let tokens = split_commas(s);
    if tokens.len() < 2 {
        missing_value("UserListResponse"@)
    } else if tokens[0] == "responseHeader"@ {
        missing_value("RequestHeader"@)
    } else if tokens[0] == "usersList"@ {
        container_unsupported()
    } else {
        unexpected_key("UserListResponse"@)
    }
}

/// Reads a header and a user from the pairs of `s`.
fn parse_header_and_user(s: &str, header_key: &str, record: &str) -> (r: Result<
    (RequestHeader, User),
    String,
>)
    ensures
        r matches Err(e) && e@ == pair_record_error(s@, header_key@, record@),
{
    let tokens = split_on_commas(s);
    let ghost views = token_views(tokens@);
    let mut header: Option<RequestHeader> = None;
    let mut user: Option<User> = None;
    let mut i: usize = 0;
    while tokens.len() - i >= 2
        invariant
            i == 0,
            views == token_views(tokens@),
            views == split_commas(s@),
            header is None,
            user is None,
        decreases tokens.len() - i,
    {
        let key = tokens[i];
        let value = tokens[i + 1];
        assert(views[0] == key@ && views[1] == value@);
        proof {
            lemma_pieces_have_no_comma(s@, 1);
            lemma_header_needs_a_pair(value@, "RequestHeader"@);
            lemma_user_needs_a_pair(value@);
        }
        if same_text(key, header_key) {
            match RequestHeader::from_str(value) {
                Ok(h) => {
                    if header.is_none() {
                        header = Some(h);
                    }
                },
                Err(error) => {
                    return Err(error);
                },
            }
        } else if same_text(key, "user") {
            match User::from_str(value) {
                Ok(u) => {
                    if user.is_none() {
                        user = Some(u);
                    }
                },
                Err(error) => {
                    return Err(error);
                },
            }
        } else {
            return Err(unexpected_key_text(record));
        }
        i += 2;
    }
    if i < tokens.len() {
        return Err(missing_value_text(record));
    }
    proof {
        lemma_split_commas(s@);
    }
    let header = match header {
        Some(header) => header,
        None => { return Err(missing_field_text(header_key, record)); },
    };
    let user = match user {
        Some(user) => user,
        None => { return Err(missing_field_text("user", record)); },
    };
    Ok((header, user))
}

impl CreateRequest {
    /// The query-parameter form of a request, which holds none of its
    /// fields: the empty text.
    pub fn to_string(&self) -> (text: String)
        ensures
            text@ == Seq::<char>::empty(),
    {
        String::new()
    }

    /// Reads a request from its query-parameter form. The keys are
    /// `requestHeader` and `user`.
    ///
    /// No text gives a request: both values would have to hold commas
    /// of their own.
    pub fn from_str(s: &str) -> (r: Result<CreateRequest, String>)
        ensures
            r matches Err(e) && e@ == pair_record_error(s@, "requestHeader"@, "CreateRequest"@),
    {
        match parse_header_and_user(s, "requestHeader", "CreateRequest") {
            Ok((request_header, user)) => Ok(CreateRequest::new(request_header, user)),
            Err(error) => Err(error),
        }
    }
}

impl UpdateRequest {
    /// The query-parameter form of a request, which holds none of its
    /// fields: the empty text.
    pub fn to_string(&self) -> (text: String)
        ensures
            text@ == Seq::<char>::empty(),
    {
        String::new()
    }

    /// Reads a request from its query-parameter form. The keys are
    /// `requestHeader` and `user`.
    ///
    /// No text gives a request: both values would have to hold commas
    /// of their own.
    pub fn from_str(s: &str) -> (r: Result<UpdateRequest, String>)
        ensures
            r matches Err(e) && e@ == pair_record_error(s@, "requestHeader"@, "UpdateRequest"@),
    {
        match parse_header_and_user(s, "requestHeader", "UpdateRequest") {
            Ok((request_header, user)) => Ok(UpdateRequest::new(request_header, user)),
            Err(error) => Err(error),
        }
    }
}

impl UserResponse {
    /// The query-parameter form of an answer, which holds none of its
    /// fields: the empty text.
    pub fn to_string(&self) -> (text: String)
        ensures
            text@ == Seq::<char>::empty(),
    {
        String::new()
    }

    /// Reads an answer from its query-parameter form. The keys are
    /// `responseHeader` and `user`.
    ///
    /// No text gives an answer: both values would have to hold commas
    /// of their own.
    pub fn from_str(s: &str) -> (r: Result<UserResponse, String>)
        ensures
            r matches Err(e) && e@ == pair_record_error(s@, "responseHeader"@, "UserResponse"@),
    {
        match parse_header_and_user(s, "responseHeader", "UserResponse") {
            Ok((response_header, user)) => Ok(UserResponse::new(response_header, user)),
            Err(error) => Err(error),
        }
    }
}

impl UserListResponse {
    /// The query-parameter form of an answer, which holds none of its
    /// fields: the empty text.
    pub fn to_string(&self) -> (text: String)
        ensures
            text@ == Seq::<char>::empty(),
    {
        String::new()
    }

    /// Reads an answer from its query-parameter form. The keys are
    /// `responseHeader` and `usersList`.
    ///
    /// No text gives an answer: a header would have to hold commas of
    /// its own, and a list cannot be written in this form at all.
    pub fn from_str(s: &str) -> (r: Result<UserListResponse, String>)
        ensures
            r matches Err(e) && e@ == user_list_error(s@),
    {
        let tokens = split_on_commas(s);
        let ghost views = token_views(tokens@);
        let mut header: Option<RequestHeader> = None;
        let mut i: usize = 0;
        while tokens.len() - i >= 2
            invariant
                i == 0,
                views == token_views(tokens@),
                views == split_commas(s@),
                header is None,
            decreases tokens.len() - i,
        {
            let key = tokens[i];
            let value = tokens[i + 1];
            assert(views[0] == key@ && views[1] == value@);
            proof {
                lemma_pieces_have_no_comma(s@, 1);
                lemma_header_needs_a_pair(value@, "RequestHeader"@);
            }
            if same_text(key, "responseHeader") {
                match RequestHeader::from_str(value) {
                    Ok(h) => {
                        if header.is_none() {
                            header = Some(h);
                        }
                    },
                    Err(error) => {
                        return Err(error);
                    },
                }
            } else if same_text(key, "usersList") {
                return Err(
                    String::from_str(
                        "Parsing a container in this style is not supported in UserListResponse",
                    ),
                );
            } else {
                return Err(unexpected_key_text("UserListResponse"));
            }
            i += 2;
        }
        if i < tokens.len() {
            return Err(missing_value_text("UserListResponse"));
        }
        proof {
            lemma_split_commas(s@);
        }
        match header {
            Some(_) => Err(missing_field_text("usersList", "UserListResponse")),
            None => Err(missing_field_text("responseHeader", "UserListResponse")),
        }
    }
}

} // verus!
