//! What each operation can answer, one variant per status, and the
//! common content that the contracts of the service speak of.

use crate::models::{Error, ErrorView, RequestHeader, UserListResponse, UserResponse, UserView};
use crate::models::user_views;
use vstd::prelude::*;

verus! {

/// The content of an answer, whichever operation gave it: the status it
/// goes out under and the body that goes with it.
pub enum Outcome {
    /// One user.
    One { status: u16, header: RequestHeader, user: UserView },
    /// A list of users.
    Many { status: u16, header: RequestHeader, users: Seq<UserView> },
    /// Success with no body.
    Empty { status: u16 },
    /// A failure and its report.
    Failure { status: u16, error: ErrorView },
}

impl Outcome {
    /// The status an answer goes out under.
    pub open spec fn status(self) -> u16 {
        match self {
            Outcome::One { status, .. } => status,
            Outcome::Many { status, .. } => status,
            Outcome::Empty { status } => status,
            Outcome::Failure { status, .. } => status,
        }
    }
}

/// The content of an answer that carries one user.
pub open spec fn one(status: u16, response: UserResponse) -> Outcome {
    Outcome::One { status, header: response.response_header, user: response.user@ }
}

/// The content of an answer that reports a failure.
pub open spec fn failure(status: u16, error: Error) -> Outcome {
    Outcome::Failure { status, error: error@ }
}

/// The answers to a request to create a user.
#[allow(non_camel_case_types)]
#[derive(Debug, PartialEq, Eq)]
pub enum CreateUserResponse {
    /// User created successfully
    Status201_UserCreatedSuccessfully(UserResponse),
    /// Bad request
    Status400_BadRequest(Error),
    /// Unauthorized
    Status401_Unauthorized(Error),
    /// Unprocessable entity
    Status422_UnprocessableEntity(Error),
}

impl View for CreateUserResponse {
    type V = Outcome;

    open spec fn view(&self) -> Outcome {
        match self {
            CreateUserResponse::Status201_UserCreatedSuccessfully(r) => one(201, *r),
            CreateUserResponse::Status400_BadRequest(e) => failure(400, *e),
            CreateUserResponse::Status401_Unauthorized(e) => failure(401, *e),
            CreateUserResponse::Status422_UnprocessableEntity(e) => failure(422, *e),
        }
    }
}

impl CreateUserResponse {
    /// The status this answer goes out under.
    pub fn status(&self) -> (status: u16)
        ensures
            status == self@.status(),
    {
        match self {
            CreateUserResponse::Status201_UserCreatedSuccessfully(_) => 201,
            CreateUserResponse::Status400_BadRequest(_) => 400,
            CreateUserResponse::Status401_Unauthorized(_) => 401,
            CreateUserResponse::Status422_UnprocessableEntity(_) => 422,
        }
    }
}

/// The answers to a request to delete a user.
#[allow(non_camel_case_types)]
#[derive(Debug, PartialEq, Eq)]
pub enum DeleteUserResponse {
    /// No content
    Status204_NoContent,
    /// Bad request
    Status400_BadRequest(Error),
    /// Unauthorized
    Status401_Unauthorized(Error),
    /// User not found
    Status404_UserNotFound(Error),
    /// Unprocessable entity
    Status422_UnprocessableEntity(Error),
}

impl View for DeleteUserResponse {
    type V = Outcome;

    open spec fn view(&self) -> Outcome {
        match self {
            DeleteUserResponse::Status204_NoContent => Outcome::Empty { status: 204 },
            DeleteUserResponse::Status400_BadRequest(e) => failure(400, *e),
            DeleteUserResponse::Status401_Unauthorized(e) => failure(401, *e),
            DeleteUserResponse::Status404_UserNotFound(e) => failure(404, *e),
            DeleteUserResponse::Status422_UnprocessableEntity(e) => failure(422, *e),
        }
    }
}

impl DeleteUserResponse {
    /// The status this answer goes out under.
    pub fn status(&self) -> (status: u16)
        ensures
            status == self@.status(),
    {
        match self {
            DeleteUserResponse::Status204_NoContent => 204,
            DeleteUserResponse::Status400_BadRequest(_) => 400,
            DeleteUserResponse::Status401_Unauthorized(_) => 401,
            DeleteUserResponse::Status404_UserNotFound(_) => 404,
            DeleteUserResponse::Status422_UnprocessableEntity(_) => 422,
        }
    }
}

/// The answers to a request for all users.
#[allow(non_camel_case_types)]
#[derive(Debug, PartialEq, Eq)]
pub enum GetAllUsersResponse {
    /// Success
    Status200_Success(UserListResponse),
    /// Bad request
    Status400_BadRequest(Error),
    /// Unauthorized
    Status401_Unauthorized(Error),
    /// Unprocessable entity
    Status422_UnprocessableEntity(Error),
}

impl View for GetAllUsersResponse {
    type V = Outcome;

    open spec fn view(&self) -> Outcome {
        match self {
            GetAllUsersResponse::Status200_Success(r) => Outcome::Many {
                status: 200,
                header: r.response_header,
                users: user_views(r.users_list@),
            },
            GetAllUsersResponse::Status400_BadRequest(e) => failure(400, *e),
            GetAllUsersResponse::Status401_Unauthorized(e) => failure(401, *e),
            GetAllUsersResponse::Status422_UnprocessableEntity(e) => failure(422, *e),
        }
    }
}

impl GetAllUsersResponse {
    /// The status this answer goes out under.
    pub fn status(&self) -> (status: u16)
        ensures
            status == self@.status(),
    {
        match self {
            GetAllUsersResponse::Status200_Success(_) => 200,
            GetAllUsersResponse::Status400_BadRequest(_) => 400,
            GetAllUsersResponse::Status401_Unauthorized(_) => 401,
            GetAllUsersResponse::Status422_UnprocessableEntity(_) => 422,
        }
    }
}

/// The answers to a request for one user.
#[allow(non_camel_case_types)]
#[derive(Debug, PartialEq, Eq)]
pub enum GetUserByIdResponse {
    /// Success
    Status200_Success(UserResponse),
    /// Bad request
    Status400_BadRequest(Error),
    /// Unauthorized
    Status401_Unauthorized(Error),
    /// User not found
    Status404_UserNotFound(Error),
    /// Unprocessable entity
    Status422_UnprocessableEntity(Error),
}

impl View for GetUserByIdResponse {
    type V = Outcome;

    open spec fn view(&self) -> Outcome {
        match self {
            GetUserByIdResponse::Status200_Success(r) => one(200, *r),
            GetUserByIdResponse::Status400_BadRequest(e) => failure(400, *e),
            GetUserByIdResponse::Status401_Unauthorized(e) => failure(401, *e),
            GetUserByIdResponse::Status404_UserNotFound(e) => failure(404, *e),
            GetUserByIdResponse::Status422_UnprocessableEntity(e) => failure(422, *e),
        }
    }
}

impl GetUserByIdResponse {
    /// The status this answer goes out under.
    pub fn status(&self) -> (status: u16)
        ensures
            status == self@.status(),
    {
        match self {
            GetUserByIdResponse::Status200_Success(_) => 200,
            GetUserByIdResponse::Status400_BadRequest(_) => 400,
            GetUserByIdResponse::Status401_Unauthorized(_) => 401,
            GetUserByIdResponse::Status404_UserNotFound(_) => 404,
            GetUserByIdResponse::Status422_UnprocessableEntity(_) => 422,
        }
    }
}

/// The answers to a request to replace a user.
#[allow(non_camel_case_types)]
#[derive(Debug, PartialEq, Eq)]
pub enum UpdateUserResponse {
    /// Success
    Status200_Success(UserResponse),
    /// Bad request
    Status400_BadRequest(Error),
    /// Unauthorized
    Status401_Unauthorized(Error),
    /// User not found
    Status404_UserNotFound(Error),
    /// Unprocessable entity
    Status422_UnprocessableEntity(Error),
}

impl View for UpdateUserResponse {
    type V = Outcome;

    open spec fn view(&self) -> Outcome {
        match self {
            UpdateUserResponse::Status200_Success(r) => one(200, *r),
            UpdateUserResponse::Status400_BadRequest(e) => failure(400, *e),
            UpdateUserResponse::Status401_Unauthorized(e) => failure(401, *e),
            UpdateUserResponse::Status404_UserNotFound(e) => failure(404, *e),
            UpdateUserResponse::Status422_UnprocessableEntity(e) => failure(422, *e),
        }
    }
}

impl UpdateUserResponse {
    /// The status this answer goes out under.
    pub fn status(&self) -> (status: u16)
        ensures
            status == self@.status(),
    {
        match self {
            UpdateUserResponse::Status200_Success(_) => 200,
            UpdateUserResponse::Status400_BadRequest(_) => 400,
            UpdateUserResponse::Status401_Unauthorized(_) => 401,
            UpdateUserResponse::Status404_UserNotFound(_) => 404,
            UpdateUserResponse::Status422_UnprocessableEntity(_) => 422,
        }
    }
}

} // verus!
