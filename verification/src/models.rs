//! The records that travel through the service: users, the envelope
//! headers, and the request and response bodies built from them.

use vstd::prelude::*;

verus! {

/// A user as it is submitted by a caller and as the store keeps it.
///
/// `id` is absent until the store has assigned one.
#[derive(Debug, PartialEq, Eq)]
pub struct User {
    pub id: Option<u128>,
    pub name: String,
    pub surname: String,
    pub age: u32,
    pub personal_id: String,
    pub citizenship: String,
    pub email: Option<String>,
}

/// The mathematical content of a [`User`]: every text field as the
/// sequence of its characters.
pub struct UserView {
    pub id: Option<u128>,
    pub name: Seq<char>,
    pub surname: Seq<char>,
    pub age: u32,
    pub personal_id: Seq<char>,
    pub citizenship: Seq<char>,
    pub email: Option<Seq<char>>,
}

impl UserView {
    /// The same user, filed under `id`.
    pub open spec fn with_id(self, id: u128) -> UserView {
        UserView { id: Some(id), ..self }
    }
}

impl View for User {
    type V = UserView;

    open spec fn view(&self) -> UserView {
        UserView {
            id: self.id,
            name: self.name@,
            surname: self.surname@,
            age: self.age,
            personal_id: self.personal_id@,
            citizenship: self.citizenship@,
            email: match self.email {
                Some(e) => Some(e@),
                None => None,
            },
        }
    }
}

impl Clone for User {
    fn clone(&self) -> (res: Self)
        ensures
            res == *self,
    {
        User {
            id: self.id,
            name: self.name.clone(),
            surname: self.surname.clone(),
            age: self.age,
            personal_id: self.personal_id.clone(),
            citizenship: self.citizenship.clone(),
            email: match &self.email {
                Some(e) => Some(e.clone()),
                None => None,
            },
        }
    }
}

impl User {
    /// A user that has not been stored yet: no id, no email.
    pub fn new(
        name: String,
        surname: String,
        age: u32,
        personal_id: String,
        citizenship: String,
    ) -> (user: User)
        ensures
            user@ == (UserView {
                id: None,
                name: name@,
                surname: surname@,
                age,
                personal_id: personal_id@,
                citizenship: citizenship@,
                email: None,
            }),
    {
        User { id: None, name, surname, age, personal_id, citizenship, email: None }
    }
}

/// The views of a run of users, one for one.
pub open spec fn user_views(users: Seq<User>) -> Seq<UserView> {
    users.map_values(|u: User| u@)
}

/// The envelope a caller puts on a request: an identifier for the
/// message and the time it was sent, in milliseconds since the Unix
/// epoch, UTC.
#[derive(Debug, Clone, Copy, PartialEq, Eq, Structural)]
pub struct RequestHeader {
    pub request_id: u128,
    pub send_date: i64,
}

impl RequestHeader {
    pub fn new(request_id: u128, send_date: i64) -> (header: RequestHeader)
        ensures
            header == (RequestHeader { request_id, send_date }),
    {
        RequestHeader { request_id, send_date }
    }
}

/// The envelope the service puts on an answer. It is made afresh for
/// every answer and never repeats what the request carried.
#[derive(Debug, Clone, Copy, PartialEq, Eq, Structural)]
pub struct ResponseHeader {
    pub request_id: u128,
    pub send_date: i64,
}

impl ResponseHeader {
    pub fn new(request_id: u128, send_date: i64) -> (header: ResponseHeader)
        ensures
            header == (ResponseHeader { request_id, send_date }),
    {
        ResponseHeader { request_id, send_date }
    }
}

/// The body of a request to create a user.
#[derive(Debug, PartialEq, Eq)]
pub struct CreateRequest {
    pub request_header: RequestHeader,
    pub user: User,
}

impl CreateRequest {
    pub fn new(request_header: RequestHeader, user: User) -> (request: CreateRequest)
        ensures
            request == (CreateRequest { request_header, user }),
    {
        CreateRequest { request_header, user }
    }
}

/// The body of a request to replace a user.
#[derive(Debug, PartialEq, Eq)]
pub struct UpdateRequest {
    pub request_header: RequestHeader,
    pub user: User,
}

impl UpdateRequest {
    pub fn new(request_header: RequestHeader, user: User) -> (request: UpdateRequest)
        ensures
            request == (UpdateRequest { request_header, user }),
    {
        UpdateRequest { request_header, user }
    }
}

/// The body of an answer that reports a failure: a short code, and
/// where there is more to say, a message for a human reader.
#[derive(Debug, PartialEq, Eq)]
pub struct Error {
    pub response_header: ResponseHeader,
    pub code: String,
    pub message: Option<String>,
}

/// The content of an [`Error`].
pub struct ErrorView {
    pub response_header: ResponseHeader,
    pub code: Seq<char>,
    pub message: Option<Seq<char>>,
}

impl View for Error {
    type V = ErrorView;

    open spec fn view(&self) -> ErrorView {
        ErrorView {
            response_header: self.response_header,
            code: self.code@,
            message: match self.message {
                Some(m) => Some(m@),
                None => None,
            },
        }
    }
}

impl Error {
    /// An error with a code and no message.
    pub fn new(response_header: ResponseHeader, code: String) -> (error: Error)
        ensures
            error@ == (ErrorView { response_header, code: code@, message: None }),
    {
        Error { response_header, code, message: None }
    }
}

/// The body of an answer that carries one user.
#[derive(Debug, PartialEq, Eq)]
pub struct UserResponse {
    pub response_header: RequestHeader,
    pub user: User,
}

impl UserResponse {
    pub fn new(response_header: RequestHeader, user: User) -> (response: UserResponse)
        ensures
            response == (UserResponse { response_header, user }),
    {
        UserResponse { response_header, user }
    }
}

/// The body of an answer that carries every user of the store.
#[derive(Debug, PartialEq, Eq)]
pub struct UserListResponse {
    pub response_header: RequestHeader,
    pub users_list: Vec<User>,
}

impl UserListResponse {
    pub fn new(response_header: RequestHeader, users_list: Vec<User>) -> (response:
        UserListResponse)
        ensures
            response == (UserListResponse { response_header, users_list }),
    {
        UserListResponse { response_header, users_list }
    }
}

/// The id in the path of a request to delete a user.
#[derive(Debug, Clone, Copy, PartialEq, Eq, Structural)]
pub struct DeleteUserPathParams {
    pub id: u128,
}

/// The id in the path of a request to fetch a user.
#[derive(Debug, Clone, Copy, PartialEq, Eq, Structural)]
pub struct GetUserByIdPathParams {
    pub id: u128,
}

/// The id in the path of a request to replace a user.
#[derive(Debug, Clone, Copy, PartialEq, Eq, Structural)]
pub struct UpdateUserPathParams {
    pub id: u128,
}


} // verus!
