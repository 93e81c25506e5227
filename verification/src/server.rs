//! The service as many callers share it: one store behind a lock that
//! admits any number of readers or a single writer.
//!
//! Every operation takes the lock once and holds it from its first look
//! at the store to its last write, so no caller ever sees half of
//! another's work. Identifiers and headers are drawn before the lock is
//! taken.

use crate::envelope::{build_response_header, is_fresh};
use crate::identifier::{is_random_id, random_id};
use crate::models::{
    CreateRequest, DeleteUserPathParams, GetUserByIdPathParams, ResponseHeader, UpdateRequest,
    UpdateUserPathParams, UserView,
};
use crate::repository::{ids_match_keys, Fatal, Repository};
use crate::responses::{
    CreateUserResponse, DeleteUserResponse, GetAllUsersResponse, GetUserByIdResponse,
    UpdateUserResponse,
};
use crate::service;
use crate::service::{
    all_valid, create_user_outcome, delete_user_outcome, get_user_outcome, is_list_outcome,
    outcome_of, update_user_outcome,
};
use vstd::prelude::*;
use vstd::rwlock::{RwLock, RwLockPredicate};

verus! {

/// What the lock keeps true of the store whoever holds it: every user
/// in it is valid. Whoever takes the lock for writing gives the store
/// back in that state.
pub struct StoreInvariant;

impl RwLockPredicate<Repository> for StoreInvariant {
    open spec fn inv(self, repo: Repository) -> bool {
        all_valid(repo@)
    }
}

/// A store as it is found under the lock: finite, every user in it
/// valid and filed under its own identifier.
pub open spec fn sound_store(store: Map<u128, UserView>) -> bool {
    &&& store.dom().finite()
    &&& ids_match_keys(store)
    &&& all_valid(store)
}

/// A header as the service draws it.
pub open spec fn fresh_header(header: ResponseHeader) -> bool {
    is_fresh(header.request_id, header.send_date)
}

/// The service, ready to be shared by reference among its callers.
pub struct ServerImpl {
    users: RwLock<Repository, StoreInvariant>,
}

impl ServerImpl {
    /// A service with no users.
    pub fn new() -> (server: ServerImpl) {
        ServerImpl { users: RwLock::new(Repository::new(), Ghost(StoreInvariant)) }
    }

    /// Creates the user of `body` under a new identifier.
    ///
    /// The answer is the one that [`service::create_user`] gives on the
    /// store as it stood when the lock was held, for an identifier and
    /// a header drawn at random.
    pub fn create_user(&self, body: CreateRequest) -> (res: Result<CreateUserResponse, Fatal>)
        ensures
            exists|store: Map<u128, UserView>, id: u128, header: ResponseHeader|
                {
                    &&& sound_store(store)
                    &&& is_random_id(id)
                    &&& fresh_header(header)
                    &&& outcome_of(res) == #[trigger] create_user_outcome(
                        store,
                        body.user@,
                        id,
                        header,
                    )
                },
    {
        let id = random_id();
        let header = build_response_header();
        let (mut repo, handle) = self.users.acquire_write();
        let ghost store = repo@;
        proof {
            repo.lemma_well_formed();
        }
        let res = service::create_user(&mut repo, body, id, header);
        handle.release_write(repo);
        assert(outcome_of(res) == create_user_outcome(store, body.user@, id, header));
        res
    }

    /// Deletes the user under the identifier of `path_params`.
    pub fn delete_user(&self, path_params: DeleteUserPathParams) -> (response: DeleteUserResponse)
        ensures
            exists|store: Map<u128, UserView>, header: ResponseHeader|
                {
                    &&& sound_store(store)
                    &&& fresh_header(header)
                    &&& response@ == #[trigger] delete_user_outcome(store, path_params.id, header)
                },
    {
        let header = build_response_header();
        let (mut repo, handle) = self.users.acquire_write();
        let ghost store = repo@;
        proof {
            repo.lemma_well_formed();
        }
        let response = service::delete_user(&mut repo, path_params.id, header);
        handle.release_write(repo);
        assert(response@ == delete_user_outcome(store, path_params.id, header));
        response
    }

    /// Lists all users.
    pub fn get_all_users(&self) -> (response: GetAllUsersResponse)
        ensures
            exists|store: Map<u128, UserView>, header: ResponseHeader|
                {
                    &&& sound_store(store)
                    &&& fresh_header(header)
                    &&& #[trigger] is_list_outcome(store, header, response@)
                },
    {
        let header = build_response_header();
        let handle = self.users.acquire_read();
        let repo = handle.borrow();
        proof {
            repo.lemma_well_formed();
        }
        let response = service::get_all_users(repo, header);
        assert(is_list_outcome(repo@, header, response@));
        handle.release_read();
        response
    }

    /// Fetches the user under the identifier of `path_params`.
    pub fn get_user_by_id(&self, path_params: GetUserByIdPathParams) -> (response:
        GetUserByIdResponse)
        ensures
            exists|store: Map<u128, UserView>, header: ResponseHeader|
                {
                    &&& sound_store(store)
                    &&& fresh_header(header)
                    &&& response@ == #[trigger] get_user_outcome(store, path_params.id, header)
                },
    {
        let header = build_response_header();
        let handle = self.users.acquire_read();
        let repo = handle.borrow();
        proof {
            repo.lemma_well_formed();
        }
        let response = service::get_user_by_id(repo, path_params.id, header);
        assert(response@ == get_user_outcome(repo@, path_params.id, header));
        handle.release_read();
        response
    }

    /// Replaces the user under the identifier of `path_params` by the
    /// user of `body`.
    ///
    /// The look for the identifier and the write that follows it happen
    /// under one hold of the lock: of two replacements of one user, one
    /// comes wholly after the other.
    pub fn update_user(&self, path_params: UpdateUserPathParams, body: UpdateRequest) -> (response:
        UpdateUserResponse)
        ensures
            exists|store: Map<u128, UserView>, header: ResponseHeader|
                {
                    &&& sound_store(store)
                    &&& fresh_header(header)
                    &&& response@ == #[trigger] update_user_outcome(
                        store,
                        path_params.id,
                        body.user@,
                        header,
                    )
                },
    {
        let header = build_response_header();
        let (mut repo, handle) = self.users.acquire_write();
        let ghost store = repo@;
        proof {
            repo.lemma_well_formed();
        }
        let response = service::update_user(&mut repo, path_params.id, body, header);
        handle.release_write(repo);
        assert(response@ == update_user_outcome(store, path_params.id, body.user@, header));
        response
    }
}

} // verus!
