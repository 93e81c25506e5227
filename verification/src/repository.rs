//! The store of users: a map from identifier to user that only this
//! module writes, and that hands out copies.

use crate::identifier::{is_random_id, random_id};
use crate::models::{user_views, User, UserView};
use std::collections::HashMap;
use vstd::prelude::*;
use vstd::std_specs::iter::IteratorSpec;

verus! {

broadcast use vstd::std_specs::hash::group_hash_axioms;

/// The identifier asked for is not in the store.
#[derive(Debug, Clone, Copy, PartialEq, Eq, Structural)]
pub struct NotFound;

/// A failure that no caller can recover from.
#[derive(Debug, Clone, Copy, PartialEq, Eq, Structural)]
pub enum Fatal {
    /// No unused identifier could be had for a new user.
    IdentifierSpaceExhausted,
}

/// Every user is filed under its own identifier.
pub open spec fn ids_match_keys(store: Map<u128, UserView>) -> bool {
    forall|id: u128| store.contains_key(id) ==> (#[trigger] store[id]).id == Some(id)
}

/// `users` holds the users of `store`, each once, in some order.
pub open spec fn is_snapshot(store: Map<u128, UserView>, users: Seq<UserView>) -> bool {
    &&& users.len() == store.len()
    &&& forall|i: int|
        0 <= i < users.len() ==> {
            &&& (#[trigger] users[i]).id is Some
            &&& store.contains_key(users[i].id->0)
            &&& store[users[i].id->0] == users[i]
        }
    &&& forall|id: u128|
        store.contains_key(id) ==> exists|i: int|
            0 <= i < users.len() && #[trigger] users[i] == store[id]
    &&& forall|i: int, j: int|
        0 <= i < j < users.len() ==> (#[trigger] users[i]).id != (#[trigger] users[j]).id
}

/// The users of the service, keyed by identifier.
///
/// The key is what counts: whatever a user's own `id` field held when
/// it came in, the user that is stored, and every copy handed out,
/// carries the identifier it is filed under.
pub struct Repository {
    users: HashMap<u128, User>,
}

impl View for Repository {
    type V = Map<u128, UserView>;

    closed spec fn view(&self) -> Map<u128, UserView> {
        Map::new(
            |id: u128| self.users@.contains_key(id),
            |id: u128| self.users@[id]@.with_id(id),
        )
    }
}

impl Repository {
    /// What holds of every repository: it is finite, and each user in it
    /// carries the identifier it is filed under.
    pub proof fn lemma_well_formed(&self)
        ensures
            self@.dom().finite(),
            ids_match_keys(self@),
    {
        assert(self@.dom() =~= self.users@.dom());
    }

    /// An empty repository.
    pub fn new() -> (repo: Repository)
        ensures
            repo@ == Map::<u128, UserView>::empty(),
    {
        let repo = Repository { users: HashMap::new() };
        assert(repo@ =~= Map::<u128, UserView>::empty());
        repo
    }

    /// The number of users stored.
    pub fn len(&self) -> (n: usize)
        ensures
            n == self@.len(),
    {
        assert(self@.dom() =~= self.users@.dom());
        self.users.len()
    }

    /// Whether a user is filed under `id`.
    pub fn contains(&self, id: u128) -> (found: bool)
        ensures
            found == self@.contains_key(id),
    {
        self.users.contains_key(&id)
    }

    /// A copy of the user filed under `id`, if there is one.
    pub fn get(&self, id: u128) -> (found: Option<User>)
        ensures
            match found {
                Some(user) => self@.contains_key(id) && user@ == self@[id],
                None => !self@.contains_key(id),
            },
    {
        match self.users.get(&id) {
            Some(user) => Some(filed_under(user.clone(), id)),
            None => None,
        }
    }

    /// Files `user` under `id` unless a user is filed there already.
    pub fn insert_with_id(&mut self, id: u128, user: User) -> (res: Result<u128, Fatal>)
        ensures
            match res {
                Ok(key) => {
                    &&& key == id
                    &&& !old(self)@.contains_key(id)
                    &&& final(self)@ == old(self)@.insert(id, user@.with_id(id))
                },
                Err(_) => old(self)@.contains_key(id) && final(self)@ == old(self)@,
            },
    {
        if self.users.contains_key(&id) {
            return Err(Fatal::IdentifierSpaceExhausted);
        }
        self.users.insert(id, filed_under(user, id));
        assert(self@ =~= old(self)@.insert(id, user@.with_id(id)));
        Ok(id)
    }

    /// Files `user` under an identifier drawn at random and returns it.
    ///
    /// Fails, and stores nothing, only where the identifier drawn is in
    /// use already. In an empty repository it cannot fail.
    pub fn insert(&mut self, user: User) -> (res: Result<u128, Fatal>)
        ensures
            match res {
                Ok(id) => {
                    &&& is_random_id(id)
                    &&& !old(self)@.contains_key(id)
                    &&& final(self)@ == old(self)@.insert(id, user@.with_id(id))
                },
                Err(_) => {
                    &&& final(self)@ == old(self)@
                    &&& exists|id: u128| is_random_id(id) && #[trigger] old(self)@.contains_key(id)
                },
            },
    {
        let id = random_id();
        self.insert_with_id(id, user)
    }

    /// Puts `user` in the place of the user filed under `id`. Where no
    /// user is filed under `id`, nothing is stored.
    pub fn replace(&mut self, id: u128, user: User) -> (res: Result<(), NotFound>)
        ensures
            res is Ok <==> old(self)@.contains_key(id),
            res is Ok ==> final(self)@ == old(self)@.insert(id, user@.with_id(id)),
            res is Err ==> final(self)@ == old(self)@,
    {
        if !self.users.contains_key(&id) {
            return Err(NotFound);
        }
        self.users.insert(id, filed_under(user, id));
        assert(self@ =~= old(self)@.insert(id, user@.with_id(id)));
        Ok(())
    }

    /// Takes the user filed under `id` out of the store and returns it.
    pub fn remove(&mut self, id: u128) -> (res: Result<User, NotFound>)
        ensures
            match res {
                Ok(user) => {
                    &&& old(self)@.contains_key(id)
                    &&& user@ == old(self)@[id]
                    &&& final(self)@ == old(self)@.remove(id)
                },
                Err(_) => !old(self)@.contains_key(id) && final(self)@ == old(self)@,
            },
    {
        match self.users.remove(&id) {
            Some(user) => {
                assert(self@ =~= old(self)@.remove(id));
                Ok(filed_under(user, id))
            },
            None => {
                assert(self@ =~= old(self)@);
                Err(NotFound)
            },
        }
    }

    /// Copies of all users now stored, in no particular order.
    pub fn list(&self) -> (users: Vec<User>)
        ensures
            is_snapshot(self@, user_views(users@)),
    {
        let mut users: Vec<User> = Vec::new();
        for entry in iter: self.users.iter()
            invariant
                iter.seq() == self.users.iter().remaining(),
                users.len() == iter.index(),
                forall|i: int|
                    0 <= i < users.len() ==> users@[i]@ == (*iter.seq()[i].1)@.with_id(
                        *iter.seq()[i].0,
                    ),
        {
            users.push(filed_under(entry.1.clone(), *entry.0));
        }
        proof {
            let entries = self.users.iter().remaining();
            let views = user_views(users@);
            assert(self@.dom() =~= self.users@.dom());
            assert(views.len() == self@.len());
            assert forall|i: int| 0 <= i < views.len() implies {
                &&& (#[trigger] views[i]).id is Some
                &&& self@.contains_key(views[i].id->0)
                &&& self@[views[i].id->0] == views[i]
            } by {
                assert(self.users@.contains_key(*entries[i].0));
                assert(self@[*entries[i].0] == views[i]);
            }
            assert forall|id: u128| self@.contains_key(id) implies exists|i: int|
                0 <= i < views.len() && #[trigger] views[i] == self@[id] by {
                let entry = (&id, &self.users@[id]);
                assert(entries.contains(entry));
                let i = choose|i: int| 0 <= i < entries.len() && entries[i] == entry;
                assert(views[i] == self@[id]);
            }
            assert forall|i: int, j: int| 0 <= i < j < views.len() implies (#[trigger] views[i]).id
                != (#[trigger] views[j]).id by {
                assert(self.users@.contains_key(*entries[i].0));
                assert(self.users@.contains_key(*entries[j].0));
                assert(self@[*entries[i].0] == views[i]);
                assert(self@[*entries[j].0] == views[j]);
                assert(entries[i] != entries[j]);
            }
        }
        users
    }
}

/// `user`, carrying `id` as its identifier.
fn filed_under(user: User, id: u128) -> (filed: User)
    ensures
        filed@ == user@.with_id(id),
{
    let mut filed = user;
    filed.id = Some(id);
    filed
}

/// Reading twice gives the same users: two listings of one store hold
/// each user as often as the other does, whatever order each is in.
pub proof fn lemma_snapshots_agree(
    store: Map<u128, UserView>,
    first: Seq<UserView>,
    second: Seq<UserView>,
)
    requires
        is_snapshot(store, first),
        is_snapshot(store, second),
    ensures
        first.len() == second.len(),
        first.to_multiset() == second.to_multiset(),
{
    lemma_snapshot_counts(store, first);
    lemma_snapshot_counts(store, second);
    assert(first.to_multiset() =~= second.to_multiset());
}

/// A listing holds every user of the store once and nothing else.
proof fn lemma_snapshot_counts(store: Map<u128, UserView>, users: Seq<UserView>)
    requires
        is_snapshot(store, users),
    ensures
        forall|u: UserView|
            #[trigger] users.to_multiset().count(u) == if u.id is Some && store.contains_key(
                u.id->0,
            ) && store[u.id->0] == u {
                1nat
            } else {
                0nat
            },
{
    assert(users.no_duplicates());
    users.lemma_multiset_has_no_duplicates();
    users.to_multiset_ensures();
    assert forall|u: UserView|
        #[trigger] users.to_multiset().count(u) == if u.id is Some && store.contains_key(u.id->0)
            && store[u.id->0] == u {
            1nat
        } else {
            0nat
        } by {
        if u.id is Some && store.contains_key(u.id->0) && store[u.id->0] == u {
            let i = choose|i: int| 0 <= i < users.len() && #[trigger] users[i] == store[u.id->0];
            assert(users.contains(u));
        } else if users.contains(u) {
            let i = choose|i: int| 0 <= i < users.len() && users[i] == u;
            assert(users[i].id is Some);
        }
    }
}

} // verus!
