//! The field rules of a user record, and the check that holds a candidate
//! against all of them at once.
//!
//! Each rule is a predicate over the characters of one field. The exec
//! checks below are proved to decide exactly those predicates.

use crate::models::{CreateRequest, UpdateRequest, User, UserView};
use vstd::prelude::*;
use vstd::string::*;
use vstd::utf8::is_ascii_chars;

verus! {

/// A field of a user record that a rule speaks of.
#[derive(Debug, Clone, Copy, PartialEq, Eq, Structural)]
pub enum Field {
    Name,
    Surname,
    Age,
    PersonalId,
    Citizenship,
    Email,
}

/// What `validate` hands back for a candidate that breaks a rule: every
/// field at fault, in record order, and the message built from them.
#[derive(Debug, PartialEq, Eq)]
pub struct ValidationError {
    pub fields: Vec<Field>,
    pub message: String,
}

/// A decimal digit.
pub open spec fn is_digit(c: char) -> bool {
    '0' <= c && c <= '9'
}

/// An upper-case letter of the Latin alphabet.
pub open spec fn is_upper(c: char) -> bool {
    'A' <= c && c <= 'Z'
}

/// A lower-case letter of the Latin alphabet.
pub open spec fn is_lower(c: char) -> bool {
    'a' <= c && c <= 'z'
}

/// A letter, a digit or the underscore.
pub open spec fn is_word(c: char) -> bool {
    is_digit(c) || is_upper(c) || is_lower(c) || c == '_'
}

/// A character of the part of an address before the `@`.
pub open spec fn is_local_char(c: char) -> bool {
    is_word(c) || c == '-' || c == '.'
}

/// A character of one dot-separated label of a domain.
pub open spec fn is_label_char(c: char) -> bool {
    is_word(c) || c == '-'
}

/// Names are any text but the empty one.
pub open spec fn valid_name(s: Seq<char>) -> bool {
    s.len() > 0
}

/// Ages start at one.
pub open spec fn valid_age(age: u32) -> bool {
    age >= 1
}

/// Exactly eleven decimal digits.
pub open spec fn valid_personal_id(s: Seq<char>) -> bool {
    &&& s.len() == 11
    &&& forall|i: int| 0 <= i < s.len() ==> is_digit(#[trigger] s[i])
}

/// Exactly two upper-case letters.
pub open spec fn valid_citizenship(s: Seq<char>) -> bool {
    &&& s.len() == 2
    &&& forall|i: int| 0 <= i < s.len() ==> is_upper(#[trigger] s[i])
}

/// A domain: two or more non-empty labels joined by dots, the last of
/// them two to four characters long.
pub open spec fn valid_domain(d: Seq<char>) -> bool {
    &&& forall|i: int| 0 <= i < d.len() ==> is_label_char(#[trigger] d[i]) || d[i] == '.'
    &&& d.len() > 0 && d[0] != '.'
    &&& forall|i: int| 0 <= i && i + 1 < d.len() ==> !(#[trigger] d[i] == '.' && d[i + 1] == '.')
    &&& exists|dot: int|
        {
            &&& 0 <= dot < d.len()
            &&& #[trigger] d[dot] == '.'
            &&& forall|j: int| dot < j < d.len() ==> #[trigger] d[j] != '.'
            &&& 2 <= d.len() - 1 - dot <= 4
        }
}

/// `s` is an address whose `@` stands at index `at`.
pub open spec fn email_splits_at(s: Seq<char>, at: int) -> bool {
    &&& 0 < at < s.len()
    &&& s[at] == '@'
    &&& forall|i: int| 0 <= i < at ==> is_local_char(#[trigger] s[i])
    &&& valid_domain(s.subrange(at + 1, s.len() as int))
}

/// A basic e-mail address: a non-empty local part of word characters,
/// dots and hyphens, an `@`, and a domain.
pub open spec fn valid_email(s: Seq<char>) -> bool {
    exists|at: int| email_splits_at(s, at)
}

/// Every rule holds of `u`. An absent e-mail address breaks none.
pub open spec fn user_valid(u: UserView) -> bool {
    &&& valid_name(u.name)
    &&& valid_name(u.surname)
    &&& valid_age(u.age)
    &&& valid_personal_id(u.personal_id)
    &&& valid_citizenship(u.citizenship)
    &&& (u.email matches Some(e) ==> valid_email(e))
}

/// `[f]` when `broken`, nothing otherwise.
pub open spec fn fault(broken: bool, f: Field) -> Seq<Field> {
    if broken {
        seq![f]
    } else {
        Seq::empty()
    }
}

/// The fields of `u` that break their rule, in record order.
pub open spec fn violations(u: UserView) -> Seq<Field> {
    let name = fault(!valid_name(u.name), Field::Name);
    let surname = fault(!valid_name(u.surname), Field::Surname);
    let age = fault(!valid_age(u.age), Field::Age);
    let personal_id = fault(!valid_personal_id(u.personal_id), Field::PersonalId);
    let citizenship = fault(!valid_citizenship(u.citizenship), Field::Citizenship);
    let email = fault(u.email is Some && !valid_email(u.email->0), Field::Email);
    name + surname + age + personal_id + citizenship + email
}

/// The name under which a message speaks of a field.
pub open spec fn field_name(f: Field) -> Seq<char> {
    match f {
        Field::Name => "name"@,
        Field::Surname => "surname"@,
        Field::Age => "age"@,
        Field::PersonalId => "personal_id"@,
        Field::Citizenship => "citizenship"@,
        Field::Email => "email"@,
    }
}

/// What a message says a field must be.
pub open spec fn field_rule(f: Field) -> Seq<char> {
    match f {
        Field::Name => ": must not be empty"@,
        Field::Surname => ": must not be empty"@,
        Field::Age => ": must be at least 1"@,
        Field::PersonalId => ": must be exactly 11 digits"@,
        Field::Citizenship => ": must be exactly 2 upper-case letters"@,
        Field::Email => ": must be an e-mail address"@,
    }
}

/// The line of a message that reports one field.
pub open spec fn field_line(f: Field) -> Seq<char> {
    field_name(f) + field_rule(f)
}

/// The message for the faults `fs`: one line each, joined by newlines.
pub open spec fn render(fs: Seq<Field>) -> Seq<char>
    decreases fs.len(),
{
    if fs.len() == 0 {
        Seq::empty()
    } else if fs.len() == 1 {
        field_line(fs[0])
    } else {
        render(fs.drop_last()) + "\n"@ + field_line(fs.last())
    }
}

/// `needle` stands somewhere in `hay` as an unbroken run.
pub open spec fn occurs_in(needle: Seq<char>, hay: Seq<char>) -> bool {
    exists|k: int|
        0 <= k && k + needle.len() <= hay.len() && #[trigger] hay.subrange(
            k,
            k + needle.len(),
        ) == needle
}

/// A candidate breaks no rule exactly when it is valid.
pub proof fn lemma_no_violations_iff_valid(u: UserView)
    ensures
        violations(u).len() == 0 <==> user_valid(u),
{
}

/// A message names every field it was rendered from: whatever rules a
/// candidate breaks, each broken field's name stands in the message.
pub proof fn lemma_message_names_every_fault(fs: Seq<Field>, i: int)
    requires
        0 <= i < fs.len(),
    ensures
        occurs_in(field_line(fs[i]), render(fs)),
        occurs_in(field_name(fs[i]), render(fs)),
    decreases fs.len(),
{
    let line = field_line(fs[i]);
    let name = field_name(fs[i]);
    if fs.len() == 1 {
        assert(render(fs).subrange(0int, 0int + line.len()) == line);
        assert(render(fs).subrange(0int, 0int + name.len()) == name);
    } else if i == fs.len() - 1 {
        let k = (render(fs.drop_last()) + "\n"@).len() as int;
        assert(render(fs).subrange(k, k + line.len()) == line);
        assert(render(fs).subrange(k, k + name.len()) == name);
    } else {
        let rest = fs.drop_last();
        lemma_message_names_every_fault(rest, i);
        assert(rest[i] == fs[i]);
        let k = choose|k: int|
            0 <= k && k + line.len() <= render(rest).len() && #[trigger] render(rest).subrange(
                k,
                k + line.len(),
            ) == line;
        assert(render(fs).subrange(k, k + line.len()) == render(rest).subrange(
            k,
            k + line.len(),
        ));
        let m = choose|m: int|
            0 <= m && m + name.len() <= render(rest).len() && #[trigger] render(rest).subrange(
                m,
                m + name.len(),
            ) == name;
        assert(render(fs).subrange(m, m + name.len()) == render(rest).subrange(
            m,
            m + name.len(),
        ));
    }
}

/// Every fault of a candidate is named in the message rendered for it.
pub proof fn lemma_message_names_every_violation(u: UserView, f: Field)
    requires
        violations(u).contains(f),
    ensures
        occurs_in(field_name(f), render(violations(u))),
{
    let i = choose|i: int| 0 <= i < violations(u).len() && violations(u)[i] == f;
    lemma_message_names_every_fault(violations(u), i);
}

/// No address holds a character outside ASCII.
proof fn lemma_email_is_ascii(s: Seq<char>)
    requires
        valid_email(s),
    ensures
        is_ascii_chars(s),
{
    let at = choose|at: int| email_splits_at(s, at);
    let d = s.subrange(at + 1, s.len() as int);
    assert forall|i: int| 0 <= i < s.len() implies '\0' <= #[trigger] s[i] <= '\u{7f}' by {
        if i > at {
            assert(d[i - at - 1] == s[i]);
        }
    }
}

/// Where the run of local characters at the head of `s` ends at `at`,
/// only `at` can hold the `@` of an address.
proof fn lemma_at_is_unique(s: Seq<char>, at: int)
    requires
        0 <= at <= s.len(),
        forall|i: int| 0 <= i < at ==> is_local_char(#[trigger] s[i]),
        at < s.len() ==> !is_local_char(s[at]),
    ensures
        forall|k: int| email_splits_at(s, k) ==> k == at,
{
    assert forall|k: int| email_splits_at(s, k) implies k == at by {
        if k < at {
            assert(is_local_char(s[k]));
        } else if k > at {
            assert(is_local_char(s[at]));
        }
    }
}

/// The bytes of `s` where every character of it is ASCII: one byte per
/// character, of the same value.
fn ascii_bytes(s: &str) -> (r: Option<&[u8]>)
    ensures
        r is Some <==> is_ascii_chars(s@),
        r matches Some(b) ==> b@.len() == s@.len() && forall|i: int|
            #![trigger b@[i]]
            #![trigger s@[i]]
            0 <= i < s@.len() ==> b@[i] as char == s@[i],
{
    if s.is_ascii() {
        let b = s.as_bytes();
        proof {
            is_ascii_spec_bytes(s);
        }
        Some(b)
    } else {
        None
    }
}

/// Decides [`is_digit`] of an ASCII character by its byte.
fn byte_is_digit(b: u8) -> (r: bool)
    ensures
        r == is_digit(b as char),
{
    48 <= b && b <= 57
}

/// Decides [`is_upper`] of an ASCII character by its byte.
fn byte_is_upper(b: u8) -> (r: bool)
    ensures
        r == is_upper(b as char),
{
    65 <= b && b <= 90
}

/// Decides [`is_label_char`] of an ASCII character by its byte.
fn byte_is_label(b: u8) -> (r: bool)
    ensures
        r == is_label_char(b as char),
{
    byte_is_digit(b) || byte_is_upper(b) || (97 <= b && b <= 122) || b == 95 || b == 45
}

/// Decides [`is_local_char`] of an ASCII character by its byte.
fn byte_is_local(b: u8) -> (r: bool)
    ensures
        r == is_local_char(b as char),
{
    byte_is_label(b) || b == 46
}

/// Decides [`valid_personal_id`].
pub fn check_personal_id(s: &str) -> (ok: bool)
    ensures
        ok == valid_personal_id(s@),
{
    match ascii_bytes(s) {
        None => false,
        Some(b) => {
            if b.len() != 11 {
                return false;
            }
            let mut i: usize = 0;
            while i < 11
                invariant
                    i <= 11,
                    b@.len() == 11,
                    s@.len() == 11,
                    forall|j: int|
                        #![trigger b@[j]]
                        #![trigger s@[j]]
                        0 <= j < s@.len() ==> b@[j] as char == s@[j],
                    forall|j: int| 0 <= j < i ==> is_digit(#[trigger] s@[j]),
                decreases 11 - i,
            {
                if !byte_is_digit(b[i]) {
                    assert(!is_digit(s@[i as int]));
                    return false;
                }
                i += 1;
            }
            true
        },
    }
}

/// Decides [`valid_citizenship`].
pub fn check_citizenship(s: &str) -> (ok: bool)
    ensures
        ok == valid_citizenship(s@),
{
    match ascii_bytes(s) {
        None => false,
        Some(b) => {
            if b.len() != 2 {
                return false;
            }
            assert(b@[0] as char == s@[0] && b@[1] as char == s@[1]);
            byte_is_upper(b[0]) && byte_is_upper(b[1])
        },
    }
}

/// Decides [`valid_email`].
pub fn check_email(s: &str) -> (ok: bool)
    ensures
        ok == valid_email(s@),
{
    let b = match ascii_bytes(s) {
        Some(b) => b,
        None => {
            proof {
                if valid_email(s@) {
                    lemma_email_is_ascii(s@);
                }
            }
            return false;
        },
    };
    let n = b.len();
    let mut at: usize = 0;
    while at < n && byte_is_local(b[at])
        invariant
            at <= n,
            n == b@.len(),
            n == s@.len(),
            forall|j: int|
                #![trigger b@[j]]
                #![trigger s@[j]]
                0 <= j < s@.len() ==> b@[j] as char == s@[j],
            forall|j: int| 0 <= j < at ==> is_local_char(#[trigger] s@[j]),
        decreases n - at,
    {
        at += 1;
    }
    proof {
        if at < n {
            assert(b@[at as int] as char == s@[at as int]);
        }
        lemma_at_is_unique(s@, at as int);
    }
    if at == 0 || at >= n || b[at] != 64 {
        return false;
    }
    let ghost d = s@.subrange(at + 1, n as int);
    let mut i: usize = at + 1;
    let mut label_len: usize = 0;
    let mut seen_dot = false;
    let ghost mut last_dot: int = -1;
    while i < n
        invariant
            0 < at < i <= n,
            n == b@.len(),
            n == s@.len(),
            d == s@.subrange(at + 1, n as int),
            forall|j: int|
                #![trigger b@[j]]
                #![trigger s@[j]]
                0 <= j < s@.len() ==> b@[j] as char == s@[j],
            forall|k: int| email_splits_at(s@, k) ==> k == at,
            s@[at as int] == '@',
            forall|j: int| 0 <= j < at ==> is_local_char(#[trigger] s@[j]),
            forall|j: int| 0 <= j < i - at - 1 ==> is_label_char(#[trigger] d[j]) || d[j] == '.',
            i - at - 1 > 0 ==> d[0] != '.',
            forall|j: int|
                0 <= j && j + 1 < i - at - 1 ==> !(#[trigger] d[j] == '.' && d[j + 1] == '.'),
            seen_dot <==> last_dot >= 0,
            -1 <= last_dot < i - at - 1,
            last_dot >= 0 ==> d[last_dot] == '.',
            forall|j: int| last_dot < j < i - at - 1 ==> #[trigger] d[j] != '.',
            label_len == i - at - 2 - last_dot,
        decreases n - i,
    {
        let c = b[i];
        assert(c as char == s@[i as int]);
        assert(d[i - at - 1] == s@[i as int]);
        if c == 46 {
            if label_len == 0 {
                proof {
                    if last_dot >= 0 {
                        assert(d[last_dot] == '.' && d[last_dot + 1] == '.');
                    }
                    assert(!valid_domain(d));
                }
                return false;
            }
            seen_dot = true;
            label_len = 0;
            proof {
                last_dot = i - at - 1;
            }
        } else if byte_is_label(c) {
            label_len += 1;
        } else {
            assert(!valid_domain(d));
            return false;
        }
        i += 1;
    }
    let ok = seen_dot && 2 <= label_len && label_len <= 4;
    proof {
        if ok {
            assert(valid_domain(d));
            assert(email_splits_at(s@, at as int));
        } else if valid_domain(d) {
            let dot = choose|dot: int|
                {
                    &&& 0 <= dot < d.len()
                    &&& #[trigger] d[dot] == '.'
                    &&& forall|j: int| dot < j < d.len() ==> #[trigger] d[j] != '.'
                    &&& 2 <= d.len() - 1 - dot <= 4
                };
            assert(dot == last_dot);
        }
    }
    ok
}

/// The text of the line that reports `f`.
fn field_line_text(f: Field) -> (line: String)
    ensures
        line@ == field_line(f),
{
    let (name, rule) = match f {
        Field::Name => ("name", ": must not be empty"),
        Field::Surname => ("surname", ": must not be empty"),
        Field::Age => ("age", ": must be at least 1"),
        Field::PersonalId => ("personal_id", ": must be exactly 11 digits"),
        Field::Citizenship => ("citizenship", ": must be exactly 2 upper-case letters"),
        Field::Email => ("email", ": must be an e-mail address"),
    };
    let mut line = String::from_str(name);
    line.append(rule);
    line
}

/// Builds the message for the faults `fields`.
pub fn render_message(fields: &Vec<Field>) -> (message: String)
    ensures
        message@ == render(fields@),
{
    let mut message = String::new();
    let mut i: usize = 0;
    while i < fields.len()
        invariant
            i <= fields.len(),
            message@ == render(fields@.subrange(0, i as int)),
        decreases fields.len() - i,
    {
        let ghost done = fields@.subrange(0, i as int);
        let ghost next = fields@.subrange(0, i + 1);
        assert(next.drop_last() =~= done);
        assert(next.last() == fields@[i as int]);
        if i > 0 {
            message.append("\n");
        }
        let line = field_line_text(fields[i]);
        message.append(line.as_str());
        assert(message@ =~= render(next));
        i += 1;
    }
    assert(fields@.subrange(0, i as int) =~= fields@);
    message
}

/// Holds `user` against every field rule.
///
/// Succeeds exactly when the candidate is valid. Otherwise the error
/// lists every field at fault, not only the first, and carries the
/// message rendered from that list.
pub fn validate(user: &User) -> (res: Result<(), ValidationError>)
    ensures
        res is Ok <==> user_valid(user@),
        res matches Err(e) ==> e.fields@ == violations(user@) && e.message@ == render(
            violations(user@),
        ),
{
    let mut fields: Vec<Field> = Vec::new();
    if user.name.as_str().is_empty() {
        fields.push(Field::Name);
    }
    if user.surname.as_str().is_empty() {
        fields.push(Field::Surname);
    }
    if user.age < 1 {
        fields.push(Field::Age);
    }
    if !check_personal_id(user.personal_id.as_str()) {
        fields.push(Field::PersonalId);
    }
    if !check_citizenship(user.citizenship.as_str()) {
        fields.push(Field::Citizenship);
    }
    match &user.email {
        Some(email) => {
            if !check_email(email.as_str()) {
                fields.push(Field::Email);
            }
        },
        None => {},
    }
    assert(fields@ =~= violations(user@));
    if fields.len() == 0 {
        Ok(())
    } else {
        let message = render_message(&fields);
        Err(ValidationError { fields, message })
    }
}

impl CreateRequest {
    /// Holds the user of the request against every field rule, as
    /// [`validate`] does.
    pub fn validate(&self) -> (res: Result<(), ValidationError>)
        ensures
            res is Ok <==> user_valid(self.user@),
            res matches Err(e) ==> e.fields@ == violations(self.user@) && e.message@ == render(
                violations(self.user@),
            ),
    {
        validate(&self.user)
    }
}

impl UpdateRequest {
    /// Holds the user of the request against every field rule, as
    /// [`validate`] does.
    pub fn validate(&self) -> (res: Result<(), ValidationError>)
        ensures
            res is Ok <==> user_valid(self.user@),
            res matches Err(e) ==> e.fields@ == violations(self.user@) && e.message@ == render(
                violations(self.user@),
            ),
    {
        validate(&self.user)
    }
}

} // verus!
