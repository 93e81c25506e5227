use user_service::envelope::{build_request_header, build_response_header};
use user_service::identifier::{KIND_MASK, KIND_RANDOM};
use user_service::models::{
    CreateRequest, DeleteUserPathParams, Error, GetUserByIdPathParams, RequestHeader,
    ResponseHeader, UpdateRequest, UpdateUserPathParams, User, UserListResponse, UserResponse,
};

fn ana() -> User {
    User::new(
        "Ana".to_string(),
        "Li".to_string(),
        30,
        "12345678901".to_string(),
        "US".to_string(),
    )
}

#[test]
fn a_new_user_has_neither_id_nor_email() {
    assert_eq!(
        ana(),
        User {
            id: None,
            name: "Ana".to_string(),
            surname: "Li".to_string(),
            age: 30,
            personal_id: "12345678901".to_string(),
            citizenship: "US".to_string(),
            email: None,
        }
    );
}

#[test]
fn a_clone_equals_what_it_was_made_from() {
    let mut user = ana();
    user.id = Some(3);
    user.email = Some("ana@li.org".to_string());
    assert_eq!(user.clone(), user);
    assert_eq!(ana().clone(), ana());
}

#[test]
fn headers_hold_what_they_were_made_of() {
    assert_eq!(RequestHeader::new(1, 2), RequestHeader { request_id: 1, send_date: 2 });
    assert_eq!(ResponseHeader::new(3, -4), ResponseHeader { request_id: 3, send_date: -4 });
}

#[test]
fn requests_hold_what_they_were_made_of() {
    let header = RequestHeader::new(1, 2);
    assert_eq!(
        CreateRequest::new(header, ana()),
        CreateRequest { request_header: header, user: ana() }
    );
    assert_eq!(
        UpdateRequest::new(header, ana()),
        UpdateRequest { request_header: header, user: ana() }
    );
}

#[test]
fn a_new_error_has_a_code_and_no_message() {
    let header = ResponseHeader::new(1, 2);
    assert_eq!(
        Error::new(header, "404".to_string()),
        Error { response_header: header, code: "404".to_string(), message: None }
    );
}

#[test]
fn responses_hold_what_they_were_made_of() {
    let header = RequestHeader::new(1, 2);
    assert_eq!(
        UserResponse::new(header, ana()),
        UserResponse { response_header: header, user: ana() }
    );
    assert_eq!(
        UserListResponse::new(header, vec![ana(), ana()]),
        UserListResponse { response_header: header, users_list: vec![ana(), ana()] }
    );
}

#[test]
fn path_parameters_carry_an_id() {
    assert_eq!(DeleteUserPathParams { id: 1 }.id, 1);
    assert_eq!(GetUserByIdPathParams { id: 2 }.id, 2);
    assert_eq!(UpdateUserPathParams { id: 3 }.id, 3);
}

#[test]
fn a_built_header_carries_a_random_uuid_and_the_time() {
    let header = build_response_header();
    assert_eq!(header.request_id & KIND_MASK, KIND_RANDOM);
    assert_eq!((header.request_id >> 76) & 0xf, 4);
    assert_eq!((header.request_id >> 62) & 0x3, 2);
    assert!(header.send_date >= 1_577_836_800_000);
    let header = build_request_header();
    assert_eq!(header.request_id & KIND_MASK, KIND_RANDOM);
    assert!(header.send_date >= 1_577_836_800_000);
}

#[test]
fn built_headers_differ_from_one_another() {
    let first = build_response_header();
    let second = build_response_header();
    assert_ne!(first.request_id, second.request_id);
    assert!(first.send_date <= second.send_date);
    let third = build_request_header();
    assert_ne!(third.request_id, first.request_id);
    assert_ne!(third.request_id, second.request_id);
}
