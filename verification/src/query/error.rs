//! Error records in query-parameter form. The keys are
//! `responseHeader`, `code` and `message`.

use crate::models::{Error, ErrorView, ResponseHeader};
use crate::query::header::lemma_header_needs_a_pair;
use crate::query::tokens::{
    first_text, lemma_pieces_have_no_comma, missing_field, missing_field_text, missing_value,
    missing_value_text, same_text, split_commas, split_on_commas, token_views, unexpected_key,
    unexpected_key_text,
};
use vstd::prelude::*;
use vstd::string::*;

verus! {

/// An error in query-parameter form: the code after its key, and the
/// message after its key where there is one. The header is left out.
pub open spec fn error_to_query(error: ErrorView) -> Seq<char> {
    "code,"@ + error.code + match error.message {
        Some(message) => ",message,"@ + message,
        None => Seq::empty(),
    }
}

/// The first error met in the first `pairs` pairs of `tokens` read as
/// an error record, if there is one. The keys `code` and `message`
/// take any value. The key `responseHeader` wants a header for its
/// value, and no piece of a text holds one.
pub open spec fn error_walk(tokens: Seq<Seq<char>>, pairs: nat) -> Option<Seq<char>>
    decreases pairs,
{
    if pairs == 0 {
        None
    } else {
        match error_walk(tokens, (pairs - 1) as nat) {
            Some(error) => Some(error),
            None => {
                let key = tokens[2 * (pairs - 1)];
                if key == "responseHeader"@ {
                    Some(missing_value("ResponseHeader"@))
                } else if key == "code"@ || key == "message"@ {
                    None
                } else {
                    Some(unexpected_key("Error"@))
                }
            },
        }
    }
}

/// The error that reading the text `s` as an error record ends in. It
/// always ends in one: the record must have a header, and the text
/// cannot hold one.
pub open spec fn error_from_query(s: Seq<char>) -> Seq<char> {
    let tokens = split_commas(s);
    match error_walk(tokens, tokens.len() / 2) {
        Some(error) => error,
        None => if tokens.len() % 2 == 1 {
            missing_value("Error"@)
        } else {
            missing_field("responseHeader"@, "Error"@)
        },
    }
}

/// Once reading has met an error, that error is the outcome.
proof fn lemma_error_walk_stays(tokens: Seq<Seq<char>>, pairs: nat, more: nat)
    requires
        error_walk(tokens, pairs) is Some,
        pairs <= more,
    ensures
        error_walk(tokens, more) == error_walk(tokens, pairs),
    decreases more,
{
    if pairs < more {
        lemma_error_walk_stays(tokens, pairs, (more - 1) as nat);
    }
}

impl Error {
    /// Writes the error in query-parameter form. The header is left
    /// out.
    pub fn to_string(&self) -> (text: String)
        ensures
            text@ == error_to_query(self@),
    {
        let mut text = String::from_str("code,");
        text.append(self.code.as_str());
        match &self.message {
            Some(message) => {
                text.append(",message,");
                text.append(message.as_str());
            },
            None => {},
        }
        assert(text@ =~= error_to_query(self@));
        text
    }

    /// Reads an error record from its query-parameter form.
    ///
    /// No text gives a record: the header is required, and its value
    /// would have to hold commas of its own.
    pub fn from_str(s: &str) -> (r: Result<Error, String>)
        ensures
            r matches Err(e) && e@ == error_from_query(s@),
    {
        let tokens = split_on_commas(s);
        let ghost views = token_views(tokens@);
        let mut response_header: Option<ResponseHeader> = None;
        let mut code: Option<String> = None;
        let mut message: Option<String> = None;
        let mut i: usize = 0;
        while tokens.len() - i >= 2
            invariant
                i <= tokens.len(),
                i % 2 == 0,
                views == token_views(tokens@),
                views == split_commas(s@),
                error_walk(views, (i / 2) as nat) is None,
                response_header is None,
            decreases tokens.len() - i,
        {
            let key = tokens[i];
            let value = tokens[i + 1];
            let ghost pairs = (i / 2 + 1) as nat;
            assert(views[2 * (pairs - 1)] == key@ && views[2 * (pairs - 1) + 1] == value@);
            assert(pairs <= views.len() / 2);
            if same_text(key, "responseHeader") {
                proof {
                    lemma_pieces_have_no_comma(s@, i + 1);
                    lemma_header_needs_a_pair(value@, "ResponseHeader"@);
                    lemma_error_walk_stays(views, pairs, views.len() / 2);
                }
                match ResponseHeader::from_str(value) {
                    Ok(header) => {
                        if response_header.is_none() {
                            response_header = Some(header);
                        }
                    },
                    Err(error) => {
                        return Err(error);
                    },
                }
            } else if same_text(key, "code") {
                code = first_text(code, value);
            } else if same_text(key, "message") {
                message = first_text(message, value);
            } else {
                proof {
                    lemma_error_walk_stays(views, pairs, views.len() / 2);
                }
                return Err(unexpected_key_text("Error"));
            }
            i += 2;
        }
        if i < tokens.len() {
            return Err(missing_value_text("Error"));
        }
        let response_header = match response_header {
            Some(header) => header,
            None => { return Err(missing_field_text("responseHeader", "Error")); },
        };
        let code = match code {
            Some(code) => code,
            None => { return Err(missing_field_text("code", "Error")); },
        };
        Ok(Error { response_header, code, message })
    }
}

} // verus!
