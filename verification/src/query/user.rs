//! Users in query-parameter form. The keys are `id`, `name`, `surname`,
//! `age`, `personalId`, `citizenship` and `email`.

use crate::models::{User, UserView};
use crate::query::numbers::{decimal, format_u32};
use crate::query::parse::{parse_u32, parse_uuid, parsed, u32_from_str, uuid_from_str};
use crate::query::tokens::{
    comma_count, first_of, first_text, lemma_split_commas, missing_field, missing_field_text,
    missing_value, missing_value_text, same_text, split_commas, split_on_commas, text_view,
    token_views, unexpected_key, unexpected_key_text,
};
use vstd::prelude::*;
use vstd::string::*;

verus! {

/// What has been read of a user.
pub struct UserFields {
    pub id: Option<u128>,
    pub name: Option<Seq<char>>,
    pub surname: Option<Seq<char>>,
    pub age: Option<u32>,
    pub personal_id: Option<Seq<char>>,
    pub citizenship: Option<Seq<char>>,
    pub email: Option<Seq<char>>,
}

/// A user of which nothing has been read.
pub open spec fn no_user_fields() -> UserFields {
    UserFields {
        id: None,
        name: None,
        surname: None,
        age: None,
        personal_id: None,
        citizenship: None,
        email: None,
    }
}

/// `fields` after an identifier was parsed for it: the first
/// identifier read stays, and an error ends the reading.
pub open spec fn keep_id(fields: UserFields, id: Result<u128, Seq<char>>) -> Result<
    UserFields,
    Seq<char>,
> {
    match id {
        Ok(id) => Ok(UserFields { id: first_of(fields.id, id), ..fields }),
        Err(error) => Err(error),
    }
}

/// `fields` after an age was parsed for it: the first age read stays,
/// and an error ends the reading.
pub open spec fn keep_age(fields: UserFields, age: Result<u32, Seq<char>>) -> Result<
    UserFields,
    Seq<char>,
> {
    match age {
        Ok(age) => Ok(UserFields { age: first_of(fields.age, age), ..fields }),
        Err(error) => Err(error),
    }
}

/// `fields` after the pair `key`, `value` of a user was read.
pub open spec fn user_take(fields: UserFields, key: Seq<char>, value: Seq<char>) -> Result<
    UserFields,
    Seq<char>,
> {
    if key == "id"@ {
        keep_id(fields, uuid_from_str(value))
    } else if key == "name"@ {
        Ok(UserFields { name: first_of(fields.name, value), ..fields })
    } else if key == "surname"@ {
        Ok(UserFields { surname: first_of(fields.surname, value), ..fields })
    } else if key == "age"@ {
        keep_age(fields, u32_from_str(value))
    } else if key == "personalId"@ {
        Ok(UserFields { personal_id: first_of(fields.personal_id, value), ..fields })
    } else if key == "citizenship"@ {
        Ok(UserFields { citizenship: first_of(fields.citizenship, value), ..fields })
    } else if key == "email"@ {
        Ok(UserFields { email: first_of(fields.email, value), ..fields })
    } else {
        Err(unexpected_key("User"@))
    }
}

/// What the first `pairs` pairs of `tokens` give of a user, or the
/// first error met on the way.
pub open spec fn user_fields(tokens: Seq<Seq<char>>, pairs: nat) -> Result<UserFields, Seq<char>>
    decreases pairs,
{
    if pairs == 0 {
        Ok(no_user_fields())
    } else {
        match user_fields(tokens, (pairs - 1) as nat) {
            Ok(fields) => user_take(fields, tokens[2 * (pairs - 1)], tokens[2 * (pairs - 1) + 1]),
            Err(error) => Err(error),
        }
    }
}

/// The user that `fields` make, or the error that names the first field
/// of a user that is wanting. The identifier and the e-mail address may
/// be absent.
pub open spec fn user_of_fields(fields: UserFields) -> Result<UserView, Seq<char>> {
    if fields.name is None {
        Err(missing_field("name"@, "User"@))
    } else if fields.surname is None {
        Err(missing_field("surname"@, "User"@))
    } else if fields.age is None {
        Err(missing_field("age"@, "User"@))
    } else if fields.personal_id is None {
        Err(missing_field("personalId"@, "User"@))
    } else if fields.citizenship is None {
        Err(missing_field("citizenship"@, "User"@))
    } else {
        Ok(
            UserView {
                id: fields.id,
                name: fields.name->0,
                surname: fields.surname->0,
                age: fields.age->0,
                personal_id: fields.personal_id->0,
                citizenship: fields.citizenship->0,
                email: fields.email,
            },
        )
    }
}

/// What the text `s` gives as a user, or the error.
pub open spec fn user_from_query(s: Seq<char>) -> Result<UserView, Seq<char>> {
    let tokens = split_commas(s);
    match user_fields(tokens, tokens.len() / 2) {
        Err(error) => Err(error),
        Ok(fields) => if tokens.len() % 2 == 1 {
            Err(missing_value("User"@))
        } else {
            user_of_fields(fields)
        },
    }
}

/// A user in query-parameter form: its fields but the identifier, each
/// after its key, and the e-mail address only where there is one.
pub open spec fn user_to_query(user: UserView) -> Seq<char> {
    "name,"@ + user.name + ",surname,"@ + user.surname + ",age,"@ + decimal(user.age as nat)
        + ",personalId,"@ + user.personal_id + ",citizenship,"@ + user.citizenship + match user.email {
        Some(email) => ",email,"@ + email,
        None => Seq::empty(),
    }
}

/// A parsed user by its view, or the characters of the error.
pub open spec fn parsed_user(r: Result<User, String>) -> Result<UserView, Seq<char>> {
    match r {
        Ok(user) => Ok(user@),
        Err(error) => Err(error@),
    }
}

/// Once reading has met an error, that error is the outcome.
proof fn lemma_user_error_stays(tokens: Seq<Seq<char>>, pairs: nat, more: nat)
    requires
        user_fields(tokens, pairs) is Err,
        pairs <= more,
    ensures
        user_fields(tokens, more) == user_fields(tokens, pairs),
    decreases more,
{
    if pairs < more {
        lemma_user_error_stays(tokens, pairs, (more - 1) as nat);
    }
}

/// A text without a comma is no user: it is a key without a value.
pub proof fn lemma_user_needs_a_pair(s: Seq<char>)
    requires
        comma_count(s) == 0,
    ensures
        user_from_query(s) == Err::<UserView, Seq<char>>(missing_value("User"@)),
{
    lemma_split_commas(s);
}

/// What has been read of a user, as text.
#[derive(Debug, PartialEq, Eq)]
pub struct UserDraft {
    pub id: Option<u128>,
    pub name: Option<String>,
    pub surname: Option<String>,
    pub age: Option<u32>,
    pub personal_id: Option<String>,
    pub citizenship: Option<String>,
    pub email: Option<String>,
}

impl View for UserDraft {
    type V = UserFields;

    open spec fn view(&self) -> UserFields {
        UserFields {
            id: self.id,
            name: text_view(self.name),
            surname: text_view(self.surname),
            age: self.age,
            personal_id: text_view(self.personal_id),
            citizenship: text_view(self.citizenship),
            email: text_view(self.email),
        }
    }
}

/// A draft by its view, or the characters of the error.
pub open spec fn parsed_draft(r: Result<UserDraft, String>) -> Result<UserFields, Seq<char>> {
    match r {
        Ok(draft) => Ok(draft@),
        Err(error) => Err(error@),
    }
}

impl UserDraft {
    /// A user of which nothing has been read.
    pub fn new() -> (draft: UserDraft)
        ensures
            draft@ == no_user_fields(),
    {
        UserDraft {
            id: None,
            name: None,
            surname: None,
            age: None,
            personal_id: None,
            citizenship: None,
            email: None,
        }
    }

    /// Takes in what parsing an identifier came to.
    pub fn with_id(self, id: Result<u128, String>) -> (r: Result<UserDraft, String>)
        ensures
            parsed_draft(r) == keep_id(self@, parsed(id)),
    {
        match id {
            Ok(id) => {
                let mut draft = self;
                if draft.id.is_none() {
                    draft.id = Some(id);
                }
                Ok(draft)
            },
            Err(error) => Err(error),
        }
    }

    /// Takes in what parsing an age came to.
    pub fn with_age(self, age: Result<u32, String>) -> (r: Result<UserDraft, String>)
        ensures
            parsed_draft(r) == keep_age(self@, parsed(age)),
    {
        match age {
            Ok(age) => {
                let mut draft = self;
                if draft.age.is_none() {
                    draft.age = Some(age);
                }
                Ok(draft)
            },
            Err(error) => Err(error),
        }
    }

    /// Reads the pair `key`, `value` of a user.
    pub fn take(self, key: &str, value: &str) -> (r: Result<UserDraft, String>)
        ensures
            parsed_draft(r) == user_take(self@, key@, value@),
    {
        let mut draft = self;
        if same_text(key, "id") {
            return draft.with_id(parse_uuid(value));
        } else if same_text(key, "name") {
            draft.name = first_text(draft.name, value);
        } else if same_text(key, "surname") {
            draft.surname = first_text(draft.surname, value);
        } else if same_text(key, "age") {
            return draft.with_age(parse_u32(value));
        } else if same_text(key, "personalId") {
            draft.personal_id = first_text(draft.personal_id, value);
        } else if same_text(key, "citizenship") {
            draft.citizenship = first_text(draft.citizenship, value);
        } else if same_text(key, "email") {
            draft.email = first_text(draft.email, value);
        } else {
            return Err(unexpected_key_text("User"));
        }
        Ok(draft)
    }

    /// The user read, if every field that a user must have was.
    pub fn finish(self) -> (r: Result<User, String>)
        ensures
            parsed_user(r) == user_of_fields(self@),
    {
        let name = match self.name {
            Some(name) => name,
            None => { return Err(missing_field_text("name", "User")); },
        };
        let surname = match self.surname {
            Some(surname) => surname,
            None => { return Err(missing_field_text("surname", "User")); },
        };
        let age = match self.age {
            Some(age) => age,
            None => { return Err(missing_field_text("age", "User")); },
        };
        let personal_id = match self.personal_id {
            Some(personal_id) => personal_id,
            None => { return Err(missing_field_text("personalId", "User")); },
        };
        let citizenship = match self.citizenship {
            Some(citizenship) => citizenship,
            None => { return Err(missing_field_text("citizenship", "User")); },
        };
        Ok(User { id: self.id, name, surname, age, personal_id, citizenship, email: self.email })
    }
}

impl User {
    /// Writes the user in query-parameter form. The identifier is left
    /// out.
    pub fn to_string(&self) -> (text: String)
        ensures
            text@ == user_to_query(self@),
    {
        let mut text = String::from_str("name,");
        text.append(self.name.as_str());
        text.append(",surname,");
        text.append(self.surname.as_str());
        text.append(",age,");
        text.append(format_u32(self.age).as_str());
        text.append(",personalId,");
        text.append(self.personal_id.as_str());
        text.append(",citizenship,");
        text.append(self.citizenship.as_str());
        match &self.email {
            Some(email) => {
                text.append(",email,");
                text.append(email.as_str());
            },
            None => {},
        }
        assert(text@ =~= user_to_query(self@));
        text
    }

    /// Reads a user from its query-parameter form. The fields are taken
    /// as they stand: no rule is held against them.
    pub fn from_str(s: &str) -> (r: Result<User, String>)
        ensures
            parsed_user(r) == user_from_query(s@),
    {
        let tokens = split_on_commas(s);
        let ghost views = token_views(tokens@);
        let mut draft = UserDraft::new();
        let mut i: usize = 0;
        while tokens.len() - i >= 2
            invariant
                i <= tokens.len(),
                i % 2 == 0,
                views == token_views(tokens@),
                views == split_commas(s@),
                user_fields(views, (i / 2) as nat) == Ok::<UserFields, Seq<char>>(draft@),
            decreases tokens.len() - i,
        {
            let ghost pairs = (i / 2 + 1) as nat;
            assert(views[2 * (pairs - 1)] == tokens[i as int]@);
            assert(views[2 * (pairs - 1) + 1] == tokens[i + 1]@);
            assert(pairs <= views.len() / 2);
            match draft.take(tokens[i], tokens[i + 1]) {
                Ok(next) => {
                    draft = next;
                },
                Err(error) => {
                    proof {
                        lemma_user_error_stays(views, pairs, views.len() / 2);
                    }
                    return Err(error);
                },
            }
            i += 2;
        }
        if i < tokens.len() {
            return Err(missing_value_text("User"));
        }
        draft.finish()
    }
}

} // verus!
