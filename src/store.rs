use vstd::prelude::*;

use crate::error::UserStoreError;
use crate::user::UserRecord;

verus! {

/// Defines methods for CRUD operations and fetching and listing users without defining a
/// storage strategy.
///
/// A store holds at most one record per identifier. Every operation is atomic: one that fails
/// leaves the records as they were. Any operation may fail with a `StorageError` when the
/// storage behind the store fails; the other errors come only where stated.
pub trait UserStore<T: UserRecord> {
    /// The records held, keyed by the identifier of each.
    spec fn users(&self) -> Map<Seq<char>, T>;

    /// Whether the user with identifier `id` belongs to the scope `scope`.
    spec fn in_scope(&self, scope: Seq<char>, id: Seq<char>) -> bool;

    /// The store's own invariant, which every operation keeps.
    spec fn well_formed(&self) -> bool;

    /// Adds a user to the underlying storage.
    fn add_user(&mut self, user: T) -> (r: Result<(), UserStoreError>)
        requires
            old(self).well_formed(),
        ensures
            final(self).well_formed(),
            old(self).users().contains_key(user.record_id()) ==> r is Err,
            match r {
                Ok(()) => final(self).users() == old(self).users().insert(user.record_id(), user),
                Err(e) => {
                    &&& final(self).users() == old(self).users()
                    &&& (e.is_duplicate_of(user.record_id()) && old(self).users().contains_key(
                        user.record_id(),
                    )) || e is StorageError
                },
            },
    ;

    /// Replaces the stored record of the user with the identifier of `updated_user`.
    fn update_user(&mut self, updated_user: T) -> (r: Result<(), UserStoreError>)
        requires
            old(self).well_formed(),
        ensures
            final(self).well_formed(),
            !old(self).users().contains_key(updated_user.record_id()) ==> r is Err,
            match r {
                Ok(()) => final(self).users() == old(self).users().insert(
                    updated_user.record_id(),
                    updated_user,
                ),
                Err(e) => {
                    &&& final(self).users() == old(self).users()
                    &&& (e.is_not_found_of(updated_user.record_id()) && !old(
                        self,
                    ).users().contains_key(updated_user.record_id())) || e is StorageError
                },
            },
    ;

    /// Removes the user with identifier `id` from the underlying storage and returns its record.
    fn remove_user(&mut self, id: &str) -> (r: Result<T, UserStoreError>)
        requires
            old(self).well_formed(),
        ensures
            final(self).well_formed(),
            match r {
                Ok(user) => {
                    &&& old(self).users().contains_key(id@)
                    &&& user == old(self).users()[id@]
                    &&& final(self).users() == old(self).users().remove(id@)
                },
                Err(e) => {
                    &&& final(self).users() == old(self).users()
                    &&& (e.is_not_found_of(id@) && !old(self).users().contains_key(id@))
                        || e is StorageError
                },
            },
    ;

    /// Fetches the record of the user with identifier `id` from the underlying storage.
    fn fetch_user(&self, id: &str) -> (r: Result<T, UserStoreError>)
        requires
            self.well_formed(),
        ensures
            match r {
                Ok(user) => self.users().contains_key(id@) && user == self.users()[id@],
                Err(e) => (e.is_not_found_of(id@) && !self.users().contains_key(id@))
                    || e is StorageError,
            },
    ;

    /// Lists the records of all users in the scope `id`, each once.
    fn list_users(&self, id: &str) -> (r: Result<Vec<T>, UserStoreError>)
        requires
            self.well_formed(),
        ensures
            match r {
                Ok(users) => lists_scope(self.users(), |key| self.in_scope(id@, key), users@),
                Err(e) => e is StorageError,
            },
    ;

    /// Checks whether a user with identifier `id` is stored.
    fn is_user(&self, id: &str) -> (r: Result<bool, UserStoreError>)
        requires
            self.well_formed(),
        ensures
            match r {
                Ok(found) => found == self.users().contains_key(id@),
                Err(e) => e is StorageError,
            },
    ;
}

/// `listed` is a listing of the records of `users` whose identifiers satisfy `in_scope`: each
/// of them once, and nothing else.
pub open spec fn lists_scope<T: UserRecord>(
    users: Map<Seq<char>, T>,
    in_scope: spec_fn(Seq<char>) -> bool,
    listed: Seq<T>,
) -> bool {
    &&& forall|i: int|
        0 <= i < listed.len() ==> {
            let key = #[trigger] listed[i].record_id();
            &&& users.contains_key(key)
            &&& users[key] == listed[i]
            &&& in_scope(key)
        }
    &&& forall|key: Seq<char>|
        users.contains_key(key) && #[trigger] in_scope(key) ==> exists|i: int|
            0 <= i < listed.len() && #[trigger] listed[i].record_id() == key
    &&& distinct_ids(listed)
}

/// No two of `records` have the same identifier.
pub open spec fn distinct_ids<T: UserRecord>(records: Seq<T>) -> bool {
    forall|i: int, j: int|
        #![trigger records[i].record_id(), records[j].record_id()]
        0 <= i < records.len() && 0 <= j < records.len() && i != j ==> records[i].record_id()
            != records[j].record_id()
}

/// Some record of `records` has identifier `id`.
pub open spec fn holds_id<T: UserRecord>(records: Seq<T>, id: Seq<char>) -> bool {
    exists|i: int| 0 <= i < records.len() && #[trigger] records[i].record_id() == id
}

/// The records of `records` keyed by identifier; of two with one identifier the later counts.
pub open spec fn users_by_id<T: UserRecord>(records: Seq<T>) -> Map<Seq<char>, T>
    decreases records.len(),
{
    if records.len() == 0 {
        Map::empty()
    } else {
        users_by_id(records.drop_last()).insert(records.last().record_id(), records.last())
    }
}

} // verus!
