use user_service::models::{
    CreateRequest, Error, RequestHeader, ResponseHeader, UpdateRequest, User, UserListResponse,
    UserResponse,
};
use user_service::query::header::{parse_header, HeaderFields};
use user_service::query::numbers::format_u32;
use user_service::query::tokens::{
    first_text, missing_field_text, missing_value_text, same_text, split_on_commas,
    unexpected_key_text,
};
use user_service::query::user::UserDraft;

const ID_TEXT: &str = "67e55044-10b1-426f-9247-bb680e5fe0c8";
const ID: u128 = 0x67e5_5044_10b1_426f_9247_bb68_0e5f_e0c8;

fn ana() -> User {
    User::new(
        "Ana".to_string(),
        "Li".to_string(),
        30,
        "12345678901".to_string(),
        "US".to_string(),
    )
}

fn err<T>(text: &str) -> Result<T, String> {
    Err(text.to_string())
}

#[test]
fn a_text_is_cut_at_every_comma() {
    assert_eq!(split_on_commas(""), vec![""]);
    assert_eq!(split_on_commas("a"), vec!["a"]);
    assert_eq!(split_on_commas(","), vec!["", ""]);
    assert_eq!(split_on_commas("a,b"), vec!["a", "b"]);
    assert_eq!(split_on_commas("a,,b,"), vec!["a", "", "b", ""]);
    assert_eq!(split_on_commas(",a"), vec!["", "a"]);
    assert_eq!(split_on_commas("naïve,日本,x"), vec!["naïve", "日本", "x"]);
    assert_eq!(split_on_commas("a;b c"), vec!["a;b c"]);
}

#[test]
fn cutting_agrees_with_the_standard_split() {
    for s in ["", ",", ",,", "a", "a,b", "a,,b,", "é,ü,", "key,value,key", " , "] {
        assert_eq!(split_on_commas(s), s.split(',').collect::<Vec<_>>(), "{:?}", s);
    }
}

#[test]
fn numbers_are_written_in_decimal() {
    assert_eq!(format_u32(0), "0");
    assert_eq!(format_u32(7), "7");
    assert_eq!(format_u32(9), "9");
    assert_eq!(format_u32(10), "10");
    assert_eq!(format_u32(30), "30");
    assert_eq!(format_u32(1_234_567_890), "1234567890");
    assert_eq!(format_u32(u32::MAX), "4294967295");
    for n in [1u32, 19, 100, 101, 999, 1000, 65_535, 4_000_000_000] {
        assert_eq!(format_u32(n), format!("{}", n));
    }
}

#[test]
fn a_user_is_written_without_its_id() {
    assert_eq!(
        ana().to_string(),
        "name,Ana,surname,Li,age,30,personalId,12345678901,citizenship,US"
    );
    let mut user = ana();
    user.id = Some(ID);
    assert_eq!(
        user.to_string(),
        "name,Ana,surname,Li,age,30,personalId,12345678901,citizenship,US"
    );
}

#[test]
fn a_user_is_written_with_its_email_where_it_has_one() {
    let mut user = ana();
    user.email = Some("ana@li.org".to_string());
    assert_eq!(
        user.to_string(),
        "name,Ana,surname,Li,age,30,personalId,12345678901,citizenship,US,email,ana@li.org"
    );
}

#[test]
fn a_written_user_is_read_back() {
    let mut user = ana();
    user.email = Some("ana@li.org".to_string());
    assert_eq!(User::from_str(&user.to_string()), Ok(user));
    assert_eq!(User::from_str(&ana().to_string()), Ok(ana()));
}

#[test]
fn a_user_is_read_with_its_keys_in_any_order() {
    let text = format!(
        "email,a@b.co,citizenship,US,personalId,12345678901,age,30,surname,Li,name,Ana,id,{}",
        ID_TEXT
    );
    let mut expected = ana();
    expected.id = Some(ID);
    expected.email = Some("a@b.co".to_string());
    assert_eq!(User::from_str(&text), Ok(expected));
}

#[test]
fn a_user_is_read_without_a_check_of_its_fields() {
    assert_eq!(
        User::from_str("name,,surname,,age,+0,personalId,x,citizenship,"),
        Ok(User::new(String::new(), String::new(), 0, "x".to_string(), String::new()))
    );
}

#[test]
fn of_a_key_that_comes_twice_the_first_value_counts() {
    assert_eq!(
        User::from_str(
            "name,Ana,name,Bo,surname,Li,age,30,age,31,personalId,12345678901,citizenship,US"
        ),
        Ok(ana())
    );
}

#[test]
fn a_second_value_is_still_parsed() {
    assert_eq!(
        User::from_str("name,Ana,surname,Li,age,30,age,old,personalId,1,citizenship,US"),
        err("invalid digit found in string")
    );
}

#[test]
fn a_user_text_that_lacks_a_field_names_the_first_one_wanting() {
    assert_eq!(User::from_str("id,abc"), err("invalid length: found 3"));
    assert_eq!(User::from_str(&format!("id,{}", ID_TEXT)), err("name missing in User"));
    assert_eq!(User::from_str("surname,Li"), err("name missing in User"));
    assert_eq!(User::from_str("name,Ana"), err("surname missing in User"));
    assert_eq!(User::from_str("name,Ana,surname,Li"), err("age missing in User"));
    assert_eq!(User::from_str("name,Ana,surname,Li,age,3"), err("personalId missing in User"));
    assert_eq!(
        User::from_str("name,Ana,surname,Li,age,3,personalId,1"),
        err("citizenship missing in User")
    );
}

#[test]
fn a_key_without_a_value_is_an_error() {
    assert_eq!(User::from_str(""), err("Missing value while parsing User"));
    assert_eq!(User::from_str("name"), err("Missing value while parsing User"));
    assert_eq!(User::from_str("name,Ana,surname"), err("Missing value while parsing User"));
    assert_eq!(
        User::from_str("name,Ana,surname,Li,age,30,personalId,12345678901,citizenship,US,"),
        err("Missing value while parsing User")
    );
}

#[test]
fn an_unknown_key_is_an_error() {
    assert_eq!(User::from_str("nickname,Annie"), err("Unexpected key while parsing User"));
    assert_eq!(User::from_str("Name,Ana"), err("Unexpected key while parsing User"));
    assert_eq!(User::from_str("personal_id,1"), err("Unexpected key while parsing User"));
    assert_eq!(User::from_str(",x"), err("Unexpected key while parsing User"));
}

#[test]
fn the_first_error_in_reading_order_is_the_one_reported() {
    assert_eq!(User::from_str("age,x,nickname,y"), err("invalid digit found in string"));
    assert_eq!(User::from_str("nickname,y,age,x"), err("Unexpected key while parsing User"));
    assert_eq!(User::from_str("age,x,name"), err("invalid digit found in string"));
    assert_eq!(User::from_str("name,Ana,age"), err("Missing value while parsing User"));
}

#[test]
fn an_age_is_read_as_the_standard_library_reads_a_u32() {
    for text in ["", "x", "-1", "+", "4294967296", "1_000", " 1", "1 ", "0x10", "١"] {
        let expected = text.parse::<u32>().unwrap_err().to_string();
        assert_eq!(User::from_str(&format!("age,{}", text)), Err(expected), "{:?}", text);
    }
    assert_eq!(User::from_str("age,"), err("cannot parse integer from empty string"));
    assert_eq!(User::from_str("age,4294967296"), err("number too large to fit in target type"));
    for (text, age) in [("0", 0u32), ("007", 7), ("+30", 30), ("4294967295", u32::MAX)] {
        let parsed = User::from_str(&format!(
            "name,Ana,surname,Li,age,{},personalId,1,citizenship,US",
            text
        ));
        assert_eq!(parsed.unwrap().age, age);
    }
}

#[test]
fn an_id_is_read_as_a_uuid() {
    let rest = "name,Ana,surname,Li,age,30,personalId,12345678901,citizenship,US";
    let mut expected = ana();
    expected.id = Some(ID);
    for text in [
        "67e55044-10b1-426f-9247-bb680e5fe0c8",
        "67E55044-10B1-426F-9247-BB680E5FE0C8",
        "67e5504410b1426f9247bb680e5fe0c8",
        "urn:uuid:67e55044-10b1-426f-9247-bb680e5fe0c8",
        "{67e55044-10b1-426f-9247-bb680e5fe0c8}",
    ] {
        assert_eq!(text.parse::<uuid::Uuid>().unwrap().as_u128(), ID);
        assert_eq!(User::from_str(&format!("id,{},{}", text, rest)), Ok(expected.clone()));
    }
    assert_eq!(
        User::from_str("id,67e55044-10b1-426f-9247-bb680e5fe0cg"),
        err("invalid character: found `g` at 35")
    );
    for text in ["", "abc", "67e55044", "67e55044-10b1-426f-9247-bb680e5fe0c", "zz"] {
        let expected = text.parse::<uuid::Uuid>().unwrap_err().to_string();
        assert_eq!(User::from_str(&format!("id,{}", text)), Err(expected), "{:?}", text);
    }
}

#[test]
fn a_header_is_read_from_an_id_and_a_time() {
    let text = format!("requestId,{},sendDate,2024-05-06T07:08:09.123Z", ID_TEXT);
    assert_eq!(RequestHeader::from_str(&text), Ok(RequestHeader::new(ID, 1_714_979_289_123)));
    assert_eq!(ResponseHeader::from_str(&text), Ok(ResponseHeader::new(ID, 1_714_979_289_123)));
    let text = format!("sendDate,1970-01-01 00:00:01+00:00,requestId,{}", ID_TEXT);
    assert_eq!(RequestHeader::from_str(&text), Ok(RequestHeader::new(ID, 1_000)));
    let text = format!("sendDate,1969-12-31T23:59:59.5Z,requestId,{}", ID_TEXT);
    assert_eq!(ResponseHeader::from_str(&text), Ok(ResponseHeader::new(ID, -500)));
}

#[test]
fn a_time_with_an_offset_is_taken_to_utc() {
    let text = format!("requestId,{},sendDate,2024-05-06 07:08:09+02:00", ID_TEXT);
    assert_eq!(RequestHeader::from_str(&text), Ok(RequestHeader::new(ID, 1_714_972_089_000)));
}

#[test]
fn a_time_is_read_as_chrono_reads_it() {
    for text in ["2024-05-06T07:08:09Z", "2024-05-06 07:08:09.999999999+01:30", "2000-02-29T00:00:00-00:00"] {
        let expected = text.parse::<chrono::DateTime<chrono::Utc>>().unwrap().timestamp_millis();
        let parsed = RequestHeader::from_str(&format!("requestId,{},sendDate,{}", ID_TEXT, text));
        assert_eq!(parsed, Ok(RequestHeader::new(ID, expected)));
    }
    for text in ["", "yesterday", "2024-05-06", "2024-13-06T07:08:09Z", "2024-05-06T07:08:09", "2024-05-06T07:08:09Zx"] {
        let expected = text.parse::<chrono::DateTime<chrono::Utc>>().unwrap_err().to_string();
        let parsed = RequestHeader::from_str(&format!("sendDate,{}", text));
        assert_eq!(parsed, Err(expected), "{:?}", text);
    }
    assert_eq!(
        RequestHeader::from_str("sendDate,yesterday"),
        err("input contains invalid characters")
    );
    assert_eq!(RequestHeader::from_str("sendDate,"), err("premature end of input"));
    assert_eq!(
        RequestHeader::from_str("sendDate,2024-05-06T07:08:09.123Zx"),
        err("trailing input")
    );
}

#[test]
fn a_header_text_that_lacks_a_field_names_it() {
    assert_eq!(
        RequestHeader::from_str("sendDate,2024-05-06T07:08:09Z"),
        err("requestId missing in RequestHeader")
    );
    assert_eq!(
        RequestHeader::from_str(&format!("requestId,{}", ID_TEXT)),
        err("sendDate missing in RequestHeader")
    );
    assert_eq!(
        ResponseHeader::from_str("sendDate,2024-05-06T07:08:09Z"),
        err("requestId missing in ResponseHeader")
    );
    assert_eq!(
        ResponseHeader::from_str(&format!("requestId,{}", ID_TEXT)),
        err("sendDate missing in ResponseHeader")
    );
}

#[test]
fn a_header_text_is_held_to_its_keys() {
    assert_eq!(RequestHeader::from_str(""), err("Missing value while parsing RequestHeader"));
    assert_eq!(RequestHeader::from_str("x"), err("Missing value while parsing RequestHeader"));
    assert_eq!(RequestHeader::from_str("x,y"), err("Unexpected key while parsing RequestHeader"));
    assert_eq!(ResponseHeader::from_str(""), err("Missing value while parsing ResponseHeader"));
    assert_eq!(
        ResponseHeader::from_str("request_id,y"),
        err("Unexpected key while parsing ResponseHeader")
    );
    assert_eq!(RequestHeader::from_str("requestId,abc"), err("invalid length: found 3"));
}

#[test]
fn of_two_ids_in_a_header_the_first_counts() {
    let text = format!(
        "requestId,{},requestId,00000000-0000-0000-0000-000000000001,sendDate,1970-01-01T00:00:00Z",
        ID_TEXT
    );
    assert_eq!(RequestHeader::from_str(&text), Ok(RequestHeader::new(ID, 0)));
}

#[test]
fn headers_requests_and_answers_are_written_as_the_empty_text() {
    let header = RequestHeader::new(1, 2);
    assert_eq!(header.to_string(), "");
    assert_eq!(ResponseHeader::new(1, 2).to_string(), "");
    assert_eq!(CreateRequest::new(header, ana()).to_string(), "");
    assert_eq!(UpdateRequest::new(header, ana()).to_string(), "");
    assert_eq!(UserResponse::new(header, ana()).to_string(), "");
    assert_eq!(UserListResponse::new(header, vec![ana()]).to_string(), "");
}

#[test]
fn an_error_is_written_with_its_code_and_message() {
    let header = ResponseHeader::new(1, 2);
    assert_eq!(Error::new(header, "404".to_string()).to_string(), "code,404");
    let error =
        Error { response_header: header, code: "400".to_string(), message: Some("no".to_string()) };
    assert_eq!(error.to_string(), "code,400,message,no");
}

#[test]
fn no_text_gives_an_error_record() {
    assert_eq!(Error::from_str(""), err("Missing value while parsing Error"));
    assert_eq!(Error::from_str("code"), err("Missing value while parsing Error"));
    assert_eq!(Error::from_str("code,404"), err("responseHeader missing in Error"));
    assert_eq!(Error::from_str("code,404,message,no"), err("responseHeader missing in Error"));
    assert_eq!(Error::from_str("message,no"), err("responseHeader missing in Error"));
    assert_eq!(Error::from_str("code,404,message"), err("Missing value while parsing Error"));
    assert_eq!(
        Error::from_str("responseHeader,x"),
        err("Missing value while parsing ResponseHeader")
    );
    assert_eq!(
        Error::from_str("code,404,responseHeader,requestId"),
        err("Missing value while parsing ResponseHeader")
    );
    assert_eq!(Error::from_str("code,404,status,x"), err("Unexpected key while parsing Error"));
    assert_eq!(
        Error::from_str("status,x,responseHeader,y"),
        err("Unexpected key while parsing Error")
    );
    let written = Error::new(ResponseHeader::new(1, 2), "404".to_string()).to_string();
    assert_eq!(Error::from_str(&written), err("responseHeader missing in Error"));
}

#[test]
fn no_text_gives_a_create_request() {
    assert_eq!(CreateRequest::from_str(""), err("Missing value while parsing CreateRequest"));
    assert_eq!(CreateRequest::from_str("user"), err("Missing value while parsing CreateRequest"));
    assert_eq!(
        CreateRequest::from_str("requestHeader,x"),
        err("Missing value while parsing RequestHeader")
    );
    assert_eq!(CreateRequest::from_str("user,x"), err("Missing value while parsing User"));
    assert_eq!(CreateRequest::from_str("user,"), err("Missing value while parsing User"));
    assert_eq!(
        CreateRequest::from_str("responseHeader,x"),
        err("Unexpected key while parsing CreateRequest")
    );
    assert_eq!(
        CreateRequest::from_str("user,name,Ana,surname,Li"),
        err("Missing value while parsing User")
    );
}

#[test]
fn no_text_gives_an_update_request() {
    assert_eq!(UpdateRequest::from_str(""), err("Missing value while parsing UpdateRequest"));
    assert_eq!(
        UpdateRequest::from_str("requestHeader,x"),
        err("Missing value while parsing RequestHeader")
    );
    assert_eq!(UpdateRequest::from_str("user,x,y"), err("Missing value while parsing User"));
    assert_eq!(
        UpdateRequest::from_str("x,y"),
        err("Unexpected key while parsing UpdateRequest")
    );
}

#[test]
fn no_text_gives_a_user_response() {
    assert_eq!(UserResponse::from_str(""), err("Missing value while parsing UserResponse"));
    assert_eq!(
        UserResponse::from_str("responseHeader,x"),
        err("Missing value while parsing RequestHeader")
    );
    assert_eq!(UserResponse::from_str("user,x"), err("Missing value while parsing User"));
    assert_eq!(
        UserResponse::from_str("requestHeader,x"),
        err("Unexpected key while parsing UserResponse")
    );
}

#[test]
fn no_text_gives_a_user_list() {
    assert_eq!(
        UserListResponse::from_str(""),
        err("Missing value while parsing UserListResponse")
    );
    assert_eq!(
        UserListResponse::from_str("usersList"),
        err("Missing value while parsing UserListResponse")
    );
    assert_eq!(
        UserListResponse::from_str("responseHeader,x"),
        err("Missing value while parsing RequestHeader")
    );
    assert_eq!(
        UserListResponse::from_str("usersList,x"),
        err("Parsing a container in this style is not supported in UserListResponse")
    );
    assert_eq!(
        UserListResponse::from_str("user,x"),
        err("Unexpected key while parsing UserListResponse")
    );
}

#[test]
fn texts_are_the_same_when_their_characters_are() {
    assert!(same_text("", ""));
    assert!(same_text("name", "name"));
    assert!(same_text("日本", "日本"));
    assert!(!same_text("name", "Name"));
    assert!(!same_text("name", "names"));
    assert!(!same_text("names", "name"));
    assert!(!same_text("", " "));
    assert!(!same_text("e\u{301}", "\u{e9}"));
}

#[test]
fn the_first_text_read_stays() {
    assert_eq!(first_text(None, "a"), Some("a".to_string()));
    assert_eq!(first_text(Some("a".to_string()), "b"), Some("a".to_string()));
    assert_eq!(first_text(Some(String::new()), "b"), Some(String::new()));
}

#[test]
fn the_errors_of_reading_name_the_record() {
    assert_eq!(missing_value_text("User"), "Missing value while parsing User");
    assert_eq!(unexpected_key_text("Error"), "Unexpected key while parsing Error");
    assert_eq!(missing_field_text("age", "User"), "age missing in User");
}

#[test]
fn header_fields_keep_what_was_parsed_first() {
    let none = HeaderFields::new();
    assert_eq!(none, HeaderFields { request_id: None, send_date: None });
    let one = none.with_request_id(Ok(7)).unwrap();
    assert_eq!(one, HeaderFields { request_id: Some(7), send_date: None });
    assert_eq!(one.with_request_id(Ok(8)), Ok(one));
    let two = one.with_send_date(Ok(-5)).unwrap();
    assert_eq!(two, HeaderFields { request_id: Some(7), send_date: Some(-5) });
    assert_eq!(two.with_send_date(Ok(6)), Ok(two));
    assert_eq!(two.with_request_id(Err("bad id".to_string())), err("bad id"));
    assert_eq!(two.with_send_date(Err("bad time".to_string())), err("bad time"));
}

#[test]
fn header_fields_read_one_pair_at_a_time() {
    let none = HeaderFields::new();
    assert_eq!(
        none.take("requestId", ID_TEXT, "RequestHeader"),
        Ok(HeaderFields { request_id: Some(ID), send_date: None })
    );
    assert_eq!(
        none.take("sendDate", "1970-01-01T00:00:00.007Z", "RequestHeader"),
        Ok(HeaderFields { request_id: None, send_date: Some(7) })
    );
    assert_eq!(none.take("sendDate", "7", "RequestHeader"), err("premature end of input"));
    assert_eq!(none.take("id", "7", "Envelope"), err("Unexpected key while parsing Envelope"));
}

#[test]
fn header_fields_finish_when_both_are_there() {
    let none = HeaderFields::new();
    assert_eq!(none.finish("Envelope"), err("requestId missing in Envelope"));
    let id_only = HeaderFields { request_id: Some(1), send_date: None };
    assert_eq!(id_only.finish("Envelope"), err("sendDate missing in Envelope"));
    let time_only = HeaderFields { request_id: None, send_date: Some(2) };
    assert_eq!(time_only.finish("Envelope"), err("requestId missing in Envelope"));
    let both = HeaderFields { request_id: Some(1), send_date: Some(2) };
    assert_eq!(both.finish("Envelope"), Ok((1, 2)));
}

#[test]
fn a_header_of_any_kind_is_read_alike() {
    let text = format!("requestId,{},sendDate,1970-01-01T00:00:00Z", ID_TEXT);
    assert_eq!(parse_header(&text, "Envelope"), Ok((ID, 0)));
    assert_eq!(parse_header("x", "Envelope"), err("Missing value while parsing Envelope"));
    assert_eq!(parse_header("x,y", "Envelope"), err("Unexpected key while parsing Envelope"));
}

#[test]
fn a_draft_keeps_what_was_parsed_first() {
    let none = UserDraft::new();
    assert_eq!(none.id, None);
    assert_eq!(none.age, None);
    let one = none.with_id(Ok(7)).unwrap();
    assert_eq!(one.id, Some(7));
    let one = one.with_id(Ok(8)).unwrap();
    assert_eq!(one.id, Some(7));
    let two = one.with_age(Ok(30)).unwrap();
    assert_eq!(two.age, Some(30));
    let two = two.with_age(Ok(31)).unwrap();
    assert_eq!(two.age, Some(30));
    assert_eq!(two.id, Some(7));
    assert_eq!(UserDraft::new().with_id(Err("bad id".to_string())), err("bad id"));
    assert_eq!(UserDraft::new().with_age(Err("bad age".to_string())), err("bad age"));
}

#[test]
fn a_draft_reads_one_pair_at_a_time() {
    let draft = UserDraft::new().take("name", "Ana").unwrap();
    assert_eq!(draft.name, Some("Ana".to_string()));
    let draft = draft.take("name", "Bo").unwrap();
    assert_eq!(draft.name, Some("Ana".to_string()));
    let draft = draft.take("surname", "Li").unwrap();
    let draft = draft.take("age", "30").unwrap();
    let draft = draft.take("personalId", "12345678901").unwrap();
    assert_eq!(
        UserDraft::new().take("citizenship", "US").unwrap().finish(),
        err("name missing in User")
    );
    let draft = draft.take("citizenship", "US").unwrap();
    assert_eq!(draft.email, None);
    assert_eq!(draft.id, None);
    assert_eq!(draft.finish(), Ok(ana()));
    assert_eq!(UserDraft::new().take("age", "thirty"), err("invalid digit found in string"));
    assert_eq!(UserDraft::new().take("id", "7"), err("invalid length: found 1"));
    assert_eq!(UserDraft::new().take("Age", "30"), err("Unexpected key while parsing User"));
    let with_email = UserDraft::new().take("email", "not checked").unwrap();
    assert_eq!(with_email.email, Some("not checked".to_string()));
}
