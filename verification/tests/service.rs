use user_service::models::{
    CreateRequest, Error, RequestHeader, ResponseHeader, UpdateRequest, User, UserListResponse,
    UserResponse,
};
use user_service::repository::{Fatal, Repository};
use user_service::responses::{
    CreateUserResponse, DeleteUserResponse, GetAllUsersResponse, GetUserByIdResponse,
    UpdateUserResponse,
};
use user_service::service::{create_user, delete_user, get_all_users, get_user_by_id, update_user};

fn ana() -> User {
    User::new(
        "Ana".to_string(),
        "Li".to_string(),
        30,
        "12345678901".to_string(),
        "US".to_string(),
    )
}

fn bo() -> User {
    let mut user = User::new(
        "Bo".to_string(),
        "Ek".to_string(),
        41,
        "10987654321".to_string(),
        "SE".to_string(),
    );
    user.email = Some("bo@ek.se".to_string());
    user
}

fn with_id(mut user: User, id: u128) -> User {
    user.id = Some(id);
    user
}

fn caller() -> RequestHeader {
    RequestHeader::new(1, 1_000)
}

fn header() -> ResponseHeader {
    ResponseHeader::new(77, 1_700_000_000_000)
}

fn success() -> RequestHeader {
    RequestHeader::new(77, 1_700_000_000_000)
}

fn not_found() -> Error {
    Error { response_header: header(), code: "404".to_string(), message: None }
}

fn bad_request(message: &str) -> Error {
    Error {
        response_header: header(),
        code: "400".to_string(),
        message: Some(message.to_string()),
    }
}

#[test]
fn create_stores_the_user_and_answers_201() {
    let mut repo = Repository::new();
    let response = create_user(&mut repo, CreateRequest::new(caller(), ana()), 5, header());
    assert_eq!(
        response,
        Ok(CreateUserResponse::Status201_UserCreatedSuccessfully(UserResponse {
            response_header: success(),
            user: with_id(ana(), 5),
        }))
    );
    assert_eq!(repo.get(5), Some(with_id(ana(), 5)));
    assert_eq!(repo.len(), 1);
}

#[test]
fn create_then_fetch_gives_the_user_back_with_its_id() {
    let mut repo = Repository::new();
    create_user(&mut repo, CreateRequest::new(caller(), bo()), 9, header()).unwrap();
    let fetched = get_user_by_id(&repo, 9, header());
    let expected = User {
        id: Some(9),
        name: "Bo".to_string(),
        surname: "Ek".to_string(),
        age: 41,
        personal_id: "10987654321".to_string(),
        citizenship: "SE".to_string(),
        email: Some("bo@ek.se".to_string()),
    };
    assert_eq!(
        fetched,
        GetUserByIdResponse::Status200_Success(UserResponse {
            response_header: success(),
            user: expected,
        })
    );
}

#[test]
fn the_answer_does_not_repeat_the_header_of_the_request() {
    let mut repo = Repository::new();
    let response = create_user(&mut repo, CreateRequest::new(caller(), ana()), 5, header());
    match response {
        Ok(CreateUserResponse::Status201_UserCreatedSuccessfully(body)) => {
            assert_ne!(body.response_header, caller());
            assert_eq!(body.response_header, success());
        }
        other => panic!("{:?}", other),
    }
}

#[test]
fn create_of_an_invalid_candidate_answers_400_and_stores_nothing() {
    let mut repo = Repository::new();
    let mut candidate = ana();
    candidate.age = 0;
    candidate.citizenship = "usa".to_string();
    let response = create_user(&mut repo, CreateRequest::new(caller(), candidate), 5, header());
    assert_eq!(
        response,
        Ok(CreateUserResponse::Status400_BadRequest(bad_request(
            "age: must be at least 1\ncitizenship: must be exactly 2 upper-case letters"
        )))
    );
    assert_eq!(repo.len(), 0);
    assert_eq!(repo.get(5), None);
}

#[test]
fn create_under_an_id_in_use_is_fatal_and_stores_nothing() {
    let mut repo = Repository::new();
    create_user(&mut repo, CreateRequest::new(caller(), ana()), 5, header()).unwrap();
    let response = create_user(&mut repo, CreateRequest::new(caller(), bo()), 5, header());
    assert_eq!(response, Err(Fatal::IdentifierSpaceExhausted));
    assert_eq!(repo.get(5), Some(with_id(ana(), 5)));
    assert_eq!(repo.len(), 1);
}

#[test]
fn an_invalid_candidate_is_turned_down_before_the_id_is_looked_at() {
    let mut repo = Repository::new();
    create_user(&mut repo, CreateRequest::new(caller(), ana()), 5, header()).unwrap();
    let mut candidate = bo();
    candidate.name = String::new();
    let response = create_user(&mut repo, CreateRequest::new(caller(), candidate), 5, header());
    assert_eq!(
        response,
        Ok(CreateUserResponse::Status400_BadRequest(bad_request("name: must not be empty")))
    );
}

#[test]
fn fetch_of_an_unknown_id_answers_404() {
    let repo = Repository::new();
    assert_eq!(
        get_user_by_id(&repo, 5, header()),
        GetUserByIdResponse::Status404_UserNotFound(not_found())
    );
}

#[test]
fn an_unknown_id_is_answered_with_404_by_fetch_update_and_delete() {
    let mut repo = Repository::new();
    create_user(&mut repo, CreateRequest::new(caller(), ana()), 5, header()).unwrap();
    let unknown = 0x67e5_5044_10b1_426f_9247_bb68_0e5f_e0c8;
    let fetched = get_user_by_id(&repo, unknown, header());
    let updated = update_user(&mut repo, unknown, UpdateRequest::new(caller(), bo()), header());
    let deleted = delete_user(&mut repo, unknown, header());
    assert_eq!(fetched, GetUserByIdResponse::Status404_UserNotFound(not_found()));
    assert_eq!(updated, UpdateUserResponse::Status404_UserNotFound(not_found()));
    assert_eq!(deleted, DeleteUserResponse::Status404_UserNotFound(not_found()));
    assert_eq!(fetched.status(), 404);
    assert_eq!(updated.status(), 404);
    assert_eq!(deleted.status(), 404);
    assert_eq!(repo.len(), 1);
    assert_eq!(repo.get(5), Some(with_id(ana(), 5)));
}

#[test]
fn list_of_an_empty_store_is_empty() {
    let repo = Repository::new();
    assert_eq!(
        get_all_users(&repo, header()),
        GetAllUsersResponse::Status200_Success(UserListResponse {
            response_header: success(),
            users_list: Vec::new(),
        })
    );
}

#[test]
fn list_answers_with_every_user() {
    let mut repo = Repository::new();
    create_user(&mut repo, CreateRequest::new(caller(), ana()), 5, header()).unwrap();
    create_user(&mut repo, CreateRequest::new(caller(), bo()), 6, header()).unwrap();
    match get_all_users(&repo, header()) {
        GetAllUsersResponse::Status200_Success(mut body) => {
            assert_eq!(body.response_header, success());
            body.users_list.sort_by_key(|u| u.id);
            assert_eq!(body.users_list, vec![with_id(ana(), 5), with_id(bo(), 6)]);
        }
        other => panic!("{:?}", other),
    }
}

#[test]
fn update_replaces_the_stored_user_and_answers_with_what_was_sent() {
    let mut repo = Repository::new();
    create_user(&mut repo, CreateRequest::new(caller(), ana()), 5, header()).unwrap();
    let response = update_user(&mut repo, 5, UpdateRequest::new(caller(), bo()), header());
    assert_eq!(
        response,
        UpdateUserResponse::Status200_Success(UserResponse {
            response_header: success(),
            user: bo(),
        })
    );
    assert_eq!(repo.get(5), Some(with_id(bo(), 5)));
    assert_eq!(repo.len(), 1);
}

#[test]
fn update_files_under_the_id_of_the_path_whatever_the_body_says() {
    let mut repo = Repository::new();
    create_user(&mut repo, CreateRequest::new(caller(), ana()), 5, header()).unwrap();
    let sent = with_id(bo(), 99);
    let response =
        update_user(&mut repo, 5, UpdateRequest::new(caller(), sent), header());
    assert_eq!(
        response,
        UpdateUserResponse::Status200_Success(UserResponse {
            response_header: success(),
            user: with_id(bo(), 99),
        })
    );
    assert_eq!(repo.get(5), Some(with_id(bo(), 5)));
    assert_eq!(repo.get(99), None);
}

#[test]
fn update_with_an_invalid_candidate_answers_400_and_keeps_the_old_user() {
    let mut repo = Repository::new();
    create_user(&mut repo, CreateRequest::new(caller(), ana()), 5, header()).unwrap();
    let mut candidate = bo();
    candidate.personal_id = "123".to_string();
    candidate.email = Some("bo".to_string());
    let response = update_user(&mut repo, 5, UpdateRequest::new(caller(), candidate), header());
    assert_eq!(
        response,
        UpdateUserResponse::Status400_BadRequest(bad_request(
            "personal_id: must be exactly 11 digits\nemail: must be an e-mail address"
        ))
    );
    assert_eq!(repo.get(5), Some(with_id(ana(), 5)));
}

#[test]
fn update_with_an_invalid_candidate_answers_400_even_for_an_unknown_id() {
    let mut repo = Repository::new();
    let mut candidate = bo();
    candidate.age = 0;
    let response = update_user(&mut repo, 5, UpdateRequest::new(caller(), candidate), header());
    assert_eq!(
        response,
        UpdateUserResponse::Status400_BadRequest(bad_request("age: must be at least 1"))
    );
    assert_eq!(response.status(), 400);
}

#[test]
fn of_several_updates_the_last_one_stays() {
    let mut repo = Repository::new();
    create_user(&mut repo, CreateRequest::new(caller(), ana()), 5, header()).unwrap();
    let mut payloads = Vec::new();
    for age in 1..=8u32 {
        let mut candidate = bo();
        candidate.age = age;
        payloads.push(candidate);
    }
    for candidate in payloads.iter() {
        let response =
            update_user(&mut repo, 5, UpdateRequest::new(caller(), candidate.clone()), header());
        assert_eq!(response.status(), 200);
    }
    let kept = repo.get(5).unwrap();
    assert_eq!(kept, with_id(payloads[7].clone(), 5));
    assert_eq!(payloads.iter().filter(|p| with_id((*p).clone(), 5) == kept).count(), 1);
    assert_eq!(repo.len(), 1);
}

#[test]
fn delete_removes_the_user_and_answers_204() {
    let mut repo = Repository::new();
    create_user(&mut repo, CreateRequest::new(caller(), ana()), 5, header()).unwrap();
    create_user(&mut repo, CreateRequest::new(caller(), bo()), 6, header()).unwrap();
    let response = delete_user(&mut repo, 5, header());
    assert_eq!(response, DeleteUserResponse::Status204_NoContent);
    assert_eq!(response.status(), 204);
    assert_eq!(repo.get(5), None);
    assert_eq!(repo.get(6), Some(with_id(bo(), 6)));
    assert_eq!(
        delete_user(&mut repo, 5, header()),
        DeleteUserResponse::Status404_UserNotFound(not_found())
    );
}

#[test]
fn created_deleted_gone() {
    let mut repo = Repository::new();
    let created = create_user(&mut repo, CreateRequest::new(caller(), ana()), 5, header()).unwrap();
    assert_eq!(created.status(), 201);
    assert_eq!(delete_user(&mut repo, 5, header()).status(), 204);
    assert_eq!(get_user_by_id(&repo, 5, header()).status(), 404);
}

#[test]
fn every_answer_knows_its_status() {
    let error = || Error::new(header(), "x".to_string());
    let one = || UserResponse::new(success(), ana());
    assert_eq!(CreateUserResponse::Status201_UserCreatedSuccessfully(one()).status(), 201);
    assert_eq!(CreateUserResponse::Status400_BadRequest(error()).status(), 400);
    assert_eq!(CreateUserResponse::Status401_Unauthorized(error()).status(), 401);
    assert_eq!(CreateUserResponse::Status422_UnprocessableEntity(error()).status(), 422);
    assert_eq!(DeleteUserResponse::Status204_NoContent.status(), 204);
    assert_eq!(DeleteUserResponse::Status400_BadRequest(error()).status(), 400);
    assert_eq!(DeleteUserResponse::Status401_Unauthorized(error()).status(), 401);
    assert_eq!(DeleteUserResponse::Status404_UserNotFound(error()).status(), 404);
    assert_eq!(DeleteUserResponse::Status422_UnprocessableEntity(error()).status(), 422);
    let list = UserListResponse::new(success(), Vec::new());
    assert_eq!(GetAllUsersResponse::Status200_Success(list).status(), 200);
    assert_eq!(GetAllUsersResponse::Status400_BadRequest(error()).status(), 400);
    assert_eq!(GetAllUsersResponse::Status401_Unauthorized(error()).status(), 401);
    assert_eq!(GetAllUsersResponse::Status422_UnprocessableEntity(error()).status(), 422);
    assert_eq!(GetUserByIdResponse::Status200_Success(one()).status(), 200);
    assert_eq!(GetUserByIdResponse::Status400_BadRequest(error()).status(), 400);
    assert_eq!(GetUserByIdResponse::Status401_Unauthorized(error()).status(), 401);
    assert_eq!(GetUserByIdResponse::Status404_UserNotFound(error()).status(), 404);
    assert_eq!(GetUserByIdResponse::Status422_UnprocessableEntity(error()).status(), 422);
    assert_eq!(UpdateUserResponse::Status200_Success(one()).status(), 200);
    assert_eq!(UpdateUserResponse::Status400_BadRequest(error()).status(), 400);
    assert_eq!(UpdateUserResponse::Status401_Unauthorized(error()).status(), 401);
    assert_eq!(UpdateUserResponse::Status404_UserNotFound(error()).status(), 404);
    assert_eq!(UpdateUserResponse::Status422_UnprocessableEntity(error()).status(), 422);
}
