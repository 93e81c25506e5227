//! The five operations on users: what each answers, and what it leaves
//! in the store, as a function of the store, the request, and the
//! identifier and header drawn for it.

use crate::models::{
    CreateRequest, Error, ErrorView, RequestHeader, ResponseHeader, UpdateRequest,
    UserListResponse, UserResponse, UserView,
};
use crate::repository::{ids_match_keys, is_snapshot, Fatal, Repository};
use crate::responses::{
    failure, CreateUserResponse, DeleteUserResponse, GetAllUsersResponse, GetUserByIdResponse,
    Outcome, UpdateUserResponse,
};
use crate::validation::{
    field_name, lemma_message_names_every_violation, occurs_in, render, user_valid, violations,
    Field,
};
use vstd::prelude::*;
use vstd::string::*;

verus! {

/// The header of a success, which carries the same identifier and time
/// as `header`.
pub open spec fn success_header(header: ResponseHeader) -> RequestHeader {
    RequestHeader { request_id: header.request_id, send_date: header.send_date }
}

/// The answer that carries one user under a success status.
pub open spec fn one_user(status: u16, header: ResponseHeader, user: UserView) -> Outcome {
    Outcome::One { status, header: success_header(header), user }
}

/// The answer to a candidate that breaks a rule: status 400, and a
/// message with a line for every field at fault.
pub open spec fn bad_request(header: ResponseHeader, candidate: UserView) -> Outcome {
    Outcome::Failure {
        status: 400,
        error: ErrorView {
            response_header: header,
            code: "400"@,
            message: Some(render(violations(candidate))),
        },
    }
}

/// The answer to an identifier that is not in the store: status 404,
/// the code `404`, no message.
pub open spec fn not_found(header: ResponseHeader) -> Outcome {
    Outcome::Failure {
        status: 404,
        error: ErrorView { response_header: header, code: "404"@, message: None },
    }
}

/// Every user in `store` satisfies the field rules.
pub open spec fn all_valid(store: Map<u128, UserView>) -> bool {
    forall|id: u128| store.contains_key(id) ==> user_valid(#[trigger] store[id])
}

/// What creating `candidate` under the drawn identifier `id` answers.
pub open spec fn create_user_outcome(
    store: Map<u128, UserView>,
    candidate: UserView,
    id: u128,
    header: ResponseHeader,
) -> Result<Outcome, Fatal> {
    if !user_valid(candidate) {
        Ok(bad_request(header, candidate))
    } else if store.contains_key(id) {
        Err(Fatal::IdentifierSpaceExhausted)
    } else {
        Ok(one_user(201, header, candidate.with_id(id)))
    }
}

/// The store after creating `candidate` under the drawn identifier `id`.
pub open spec fn store_after_create(
    store: Map<u128, UserView>,
    candidate: UserView,
    id: u128,
) -> Map<u128, UserView> {
    if user_valid(candidate) && !store.contains_key(id) {
        store.insert(id, candidate.with_id(id))
    } else {
        store
    }
}

/// What fetching the user under `id` answers.
pub open spec fn get_user_outcome(
    store: Map<u128, UserView>,
    id: u128,
    header: ResponseHeader,
) -> Outcome {
    if store.contains_key(id) {
        one_user(200, header, store[id])
    } else {
        not_found(header)
    }
}

/// Whether `outcome` is an answer to a request for all users of `store`:
/// status 200 and the users, each once, in some order.
pub open spec fn is_list_outcome(
    store: Map<u128, UserView>,
    header: ResponseHeader,
    outcome: Outcome,
) -> bool {
    &&& outcome matches Outcome::Many { status, header: h, users }
    &&& status == 200
    &&& h == success_header(header)
    &&& is_snapshot(store, users)
}

/// What replacing the user under `id` by `candidate` answers. A success
/// carries the candidate as it was submitted.
pub open spec fn update_user_outcome(
    store: Map<u128, UserView>,
    id: u128,
    candidate: UserView,
    header: ResponseHeader,
) -> Outcome {
    if !user_valid(candidate) {
        bad_request(header, candidate)
    } else if !store.contains_key(id) {
        not_found(header)
    } else {
        one_user(200, header, candidate)
    }
}

/// The store after replacing the user under `id` by `candidate`.
pub open spec fn store_after_update(
    store: Map<u128, UserView>,
    id: u128,
    candidate: UserView,
) -> Map<u128, UserView> {
    if user_valid(candidate) && store.contains_key(id) {
        store.insert(id, candidate.with_id(id))
    } else {
        store
    }
}

/// What deleting the user under `id` answers.
pub open spec fn delete_user_outcome(
    store: Map<u128, UserView>,
    id: u128,
    header: ResponseHeader,
) -> Outcome {
    if store.contains_key(id) {
        Outcome::Empty { status: 204 }
    } else {
        not_found(header)
    }
}

/// The store after deleting the user under `id`.
pub open spec fn store_after_delete(store: Map<u128, UserView>, id: u128) -> Map<u128, UserView> {
    store.remove(id)
}

/// What a call of [`create_user`] came to: the content of its answer,
/// or the failure.
pub open spec fn outcome_of(res: Result<CreateUserResponse, Fatal>) -> Result<Outcome, Fatal> {
    match res {
        Ok(response) => Ok(response@),
        Err(fatal) => Err(fatal),
    }
}

/// The header of a success made from `header`.
fn to_success_header(header: ResponseHeader) -> (h: RequestHeader)
    ensures
        h == success_header(header),
{
    RequestHeader::new(header.request_id, header.send_date)
}

/// The report of an identifier that is not in the store.
fn not_found_error(header: ResponseHeader) -> (error: Error)
    ensures
        failure(404, error) == not_found(header),
{
    Error::new(header, String::from_str("404"))
}

/// Creates the user of `body` under the identifier `id`, answering
/// under `header`.
///
/// A candidate that breaks a rule is answered with status 400 and the
/// store is left as it was. A valid candidate is stored with `id` as
/// its identifier and answered with status 201 and the stored user;
/// where `id` is in use already nothing is stored and the failure is
/// fatal.
pub fn create_user(
    repo: &mut Repository,
    body: CreateRequest,
    id: u128,
    header: ResponseHeader,
) -> (res: Result<CreateUserResponse, Fatal>)
    ensures
        final(repo)@ == store_after_create(old(repo)@, body.user@, id),
        all_valid(old(repo)@) ==> all_valid(final(repo)@),
        outcome_of(res) == create_user_outcome(old(repo)@, body.user@, id, header),
{
    match body.validate() {
        Err(e) => {
            let error = Error {
                response_header: header,
                code: String::from_str("400"),
                message: Some(e.message),
            };
            Ok(CreateUserResponse::Status400_BadRequest(error))
        },
        Ok(()) => {
            match repo.insert_with_id(id, body.user.clone()) {
                Err(fatal) => Err(fatal),
                Ok(_) => {
                    let mut user = body.user;
                    user.id = Some(id);
                    Ok(
                        CreateUserResponse::Status201_UserCreatedSuccessfully(
                            UserResponse::new(to_success_header(header), user),
                        ),
                    )
                },
            }
        },
    }
}

/// Fetches the user under `id`, answering under `header`.
pub fn get_user_by_id(repo: &Repository, id: u128, header: ResponseHeader) -> (response:
    GetUserByIdResponse)
    ensures
        response@ == get_user_outcome(repo@, id, header),
{
    match repo.get(id) {
        None => GetUserByIdResponse::Status404_UserNotFound(not_found_error(header)),
        Some(user) => GetUserByIdResponse::Status200_Success(
            UserResponse::new(to_success_header(header), user),
        ),
    }
}

/// Lists all users, answering under `header`. The order is not fixed.
pub fn get_all_users(repo: &Repository, header: ResponseHeader) -> (response: GetAllUsersResponse)
    ensures
        is_list_outcome(repo@, header, response@),
{
    GetAllUsersResponse::Status200_Success(
        UserListResponse::new(to_success_header(header), repo.list()),
    )
}

/// Replaces the user under `id` by the user of `body`, answering under
/// `header`.
///
/// The candidate is held against the rules first: one that breaks a
/// rule is answered with status 400, whether `id` is in the store or
/// not. A valid candidate for an `id` that is not in the store is
/// answered with status 404. Otherwise the candidate is stored under
/// `id`, in place of what was there, and answered as it was submitted.
pub fn update_user(
    repo: &mut Repository,
    id: u128,
    body: UpdateRequest,
    header: ResponseHeader,
) -> (response: UpdateUserResponse)
    ensures
        final(repo)@ == store_after_update(old(repo)@, id, body.user@),
        all_valid(old(repo)@) ==> all_valid(final(repo)@),
        response@ == update_user_outcome(old(repo)@, id, body.user@, header),
{
    match body.validate() {
        Err(e) => {
            let error = Error {
                response_header: header,
                code: String::from_str("400"),
                message: Some(e.message),
            };
            UpdateUserResponse::Status400_BadRequest(error)
        },
        Ok(()) => {
            match repo.replace(id, body.user.clone()) {
                Err(_) => UpdateUserResponse::Status404_UserNotFound(not_found_error(header)),
                Ok(()) => UpdateUserResponse::Status200_Success(
                    UserResponse::new(to_success_header(header), body.user),
                ),
            }
        },
    }
}

/// Deletes the user under `id`, answering under `header`.
pub fn delete_user(repo: &mut Repository, id: u128, header: ResponseHeader) -> (response:
    DeleteUserResponse)
    ensures
        final(repo)@ == store_after_delete(old(repo)@, id),
        all_valid(old(repo)@) ==> all_valid(final(repo)@),
        response@ == delete_user_outcome(old(repo)@, id, header),
{
    match repo.remove(id) {
        Err(_) => {
            assert(repo@ =~= old(repo)@.remove(id));
            DeleteUserResponse::Status404_UserNotFound(not_found_error(header))
        },
        Ok(_) => DeleteUserResponse::Status204_NoContent,
    }
}

/// The store after the candidates `candidates` were put, one after the
/// other, in the place of the user under `id`.
pub open spec fn store_after_updates(
    store: Map<u128, UserView>,
    id: u128,
    candidates: Seq<UserView>,
) -> Map<u128, UserView>
    decreases candidates.len(),
{
    if candidates.len() == 0 {
        store
    } else {
        store_after_update(
            store_after_updates(store, id, candidates.drop_last()),
            id,
            candidates.last(),
        )
    }
}

/// A user that was created is found again: where creating a valid
/// candidate answers at all, it answers with the candidate under its
/// new identifier, and fetching under that identifier then answers with
/// the same user, equal to the candidate in every field but the
/// identifier, which is now set. Where it does not answer, the
/// identifier drawn was in use and nothing was stored.
pub proof fn lemma_created_user_is_found(
    store: Map<u128, UserView>,
    candidate: UserView,
    id: u128,
    header: ResponseHeader,
    later: ResponseHeader,
)
    requires
        user_valid(candidate),
    ensures
        match create_user_outcome(store, candidate, id, header) {
            Ok(created) => {
                &&& created == one_user(201, header, candidate.with_id(id))
                &&& get_user_outcome(store_after_create(store, candidate, id), id, later)
                    == one_user(200, later, candidate.with_id(id))
            },
            Err(_) => store.contains_key(id) && store_after_create(store, candidate, id) == store,
        },
        candidate.with_id(id) == (UserView { id: Some(id), ..candidate }),
{
}

/// A candidate that is turned down is told everything that is wrong
/// with it: the answer has status 400, and its message names every
/// field that breaks a rule, not only the first.
pub proof fn lemma_bad_request_names_every_fault(
    header: ResponseHeader,
    candidate: UserView,
    field: Field,
)
    requires
        violations(candidate).contains(field),
    ensures
        bad_request(header, candidate).status() == 400,
        bad_request(header, candidate)->error.message is Some,
        occurs_in(field_name(field), bad_request(header, candidate)->error.message->0),
{
    lemma_message_names_every_violation(candidate, field);
}

/// Fetching changes nothing, so fetching again answers the same: two
/// fetches under one identifier from one store agree in status and in
/// the user they carry, and differ at most in their headers.
pub proof fn lemma_fetches_agree(
    store: Map<u128, UserView>,
    id: u128,
    first: ResponseHeader,
    second: ResponseHeader,
)
    ensures
        get_user_outcome(store, id, first).status() == get_user_outcome(store, id, second).status(),
        store.contains_key(id) ==> get_user_outcome(store, id, first)->user == get_user_outcome(
            store,
            id,
            second,
        )->user,
        first == second ==> get_user_outcome(store, id, first) == get_user_outcome(
            store,
            id,
            second,
        ),
{
}

/// An identifier that is not in the store is answered alike by every
/// operation that takes one: fetching, replacing by a valid candidate
/// and deleting all answer with status 404 and the code `404`, and
/// leave the store as it was.
pub proof fn lemma_unknown_id_is_not_found(
    store: Map<u128, UserView>,
    id: u128,
    candidate: UserView,
    header: ResponseHeader,
)
    requires
        !store.contains_key(id),
        user_valid(candidate),
    ensures
        get_user_outcome(store, id, header) == not_found(header),
        update_user_outcome(store, id, candidate, header) == not_found(header),
        delete_user_outcome(store, id, header) == not_found(header),
        not_found(header).status() == 404,
        not_found(header)->error.code == "404"@,
        store_after_update(store, id, candidate) == store,
        store_after_delete(store, id) == store,
{
    assert(store.remove(id) =~= store);
}

/// Whatever an operation does to a store in which every user is valid
/// and filed under its own identifier, the store it leaves is such a
/// store again.
pub proof fn lemma_store_stays_valid(store: Map<u128, UserView>, id: u128, candidate: UserView)
    requires
        all_valid(store),
        ids_match_keys(store),
    ensures
        all_valid(store_after_create(store, candidate, id)),
        ids_match_keys(store_after_create(store, candidate, id)),
        all_valid(store_after_update(store, id, candidate)),
        ids_match_keys(store_after_update(store, id, candidate)),
        all_valid(store_after_delete(store, id)),
        ids_match_keys(store_after_delete(store, id)),
{
}

/// Doing it again changes nothing more: a replacement or a deletion
/// that is repeated leaves the store as the first one left it.
pub proof fn lemma_repeating_leaves_the_store(
    store: Map<u128, UserView>,
    id: u128,
    candidate: UserView,
)
    ensures
        store_after_update(store_after_update(store, id, candidate), id, candidate)
            == store_after_update(store, id, candidate),
        store_after_delete(store_after_delete(store, id), id) == store_after_delete(store, id),
{
    let once = store_after_update(store, id, candidate);
    assert(store_after_update(once, id, candidate) =~= once);
    assert(store.remove(id).remove(id) =~= store.remove(id));
}

/// The last writer wins. Where replacements of the user under `id` are
/// applied one after the other, in whatever order, the store ends up
/// holding under `id` one of the valid candidates whole, namely the
/// last of them, or what it held before where no candidate is valid.
/// No other user is touched, and no identifier comes or goes.
pub proof fn lemma_last_update_wins(
    store: Map<u128, UserView>,
    id: u128,
    candidates: Seq<UserView>,
)
    ensures
        store_after_updates(store, id, candidates).dom() == store.dom(),
        forall|other: u128|
            other != id && store.contains_key(other) ==> #[trigger] store_after_updates(
                store,
                id,
                candidates,
            )[other] == store[other],
        store.contains_key(id) ==> {
            ||| {
                &&& forall|i: int| 0 <= i < candidates.len() ==> !user_valid(#[trigger] candidates[i])
                &&& store_after_updates(store, id, candidates)[id] == store[id]
            }
            ||| exists|i: int|
                {
                    &&& 0 <= i < candidates.len()
                    &&& user_valid(#[trigger] candidates[i])
                    &&& forall|j: int| i < j < candidates.len() ==> !user_valid(#[trigger] candidates[j])
                    &&& store_after_updates(store, id, candidates)[id] == candidates[i].with_id(id)
                }
        },
    decreases candidates.len(),
{
    if candidates.len() > 0 {
        let before = candidates.drop_last();
        lemma_last_update_wins(store, id, before);
        let mid = store_after_updates(store, id, before);
        let after = store_after_updates(store, id, candidates);
        assert(after.dom() =~= store.dom());
        if store.contains_key(id) {
            let last = candidates.len() - 1;
            if user_valid(candidates.last()) {
                assert(user_valid(candidates[last]));
                assert(after[id] == candidates[last].with_id(id));
            } else if forall|i: int| 0 <= i < before.len() ==> !user_valid(#[trigger] before[i]) {
                assert forall|i: int| 0 <= i < candidates.len() implies !user_valid(
                    #[trigger] candidates[i],
                ) by {
                    if i < last {
                        assert(before[i] == candidates[i]);
                    }
                }
            } else {
                let i = choose|i: int|
                    {
                        &&& 0 <= i < before.len()
                        &&& user_valid(#[trigger] before[i])
                        &&& forall|j: int| i < j < before.len() ==> !user_valid(#[trigger] before[j])
                        &&& mid[id] == before[i].with_id(id)
                    };
                assert(before[i] == candidates[i]);
                assert forall|j: int| i < j < candidates.len() implies !user_valid(
                    #[trigger] candidates[j],
                ) by {
                    if j < last {
                        assert(before[j] == candidates[j]);
                    }
                }
                assert(user_valid(candidates[i]));
            }
        }
    }
}


} // verus!
