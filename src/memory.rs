use vstd::prelude::*;

use crate::error::UserStoreError;
use crate::records::{
    lemma_users_by_id_contains, lemma_users_by_id_index, lemma_users_by_id_push,
    lemma_users_by_id_remove, lemma_users_by_id_update,
};
use crate::store::{distinct_ids, holds_id, users_by_id, UserStore};
use crate::user::UserRecord;

verus! {

/// A user store that keeps its records in memory, in the order in which they were added.
///
/// The store serves one scope, named when it is made: listing that scope gives every record,
/// listing any other gives none. It never fails with a `StorageError`.
pub struct MemoryUserStore<T: UserRecord> {
    scope: String,
    records: Vec<T>,
}

impl<T: UserRecord> View for MemoryUserStore<T> {
    type V = Seq<T>;

    /// The records, oldest first.
    closed spec fn view(&self) -> Seq<T> {
        self.records@
    }
}

impl<T: UserRecord> MemoryUserStore<T> {
    /// The scope that the store serves.
    pub closed spec fn scope(&self) -> Seq<char> {
        self.scope@
    }

    /// Creates an empty store that serves the scope `scope`.
    pub fn new(scope: &str) -> (r: MemoryUserStore<T>)
        ensures
            r@ == Seq::<T>::empty(),
            r.scope() == scope@,
            r.well_formed(),
    {
        MemoryUserStore { scope: scope.to_string(), records: Vec::new() }
    }

    /// Returns the place of the record with identifier `id`, if there is one.
    fn position(&self, id: &String) -> (r: Option<usize>)
        ensures
            match r {
                Some(i) => i < self@.len() && self@[i as int].record_id() == id@,
                None => !holds_id(self@, id@),
            },
    {
        let mut i: usize = 0;
        while i < self.records.len()
            invariant
                i <= self.records@.len(),
                forall|j: int| 0 <= j < i ==> #[trigger] self.records@[j].record_id() != id@,
            decreases self.records@.len() - i,
        {
            if self.records[i].user_id() == *id {
                return Some(i);
            }
            i = i + 1;
        }
        None
    }
}

impl<T: UserRecord> UserStore<T> for MemoryUserStore<T> {
    open spec fn users(&self) -> Map<Seq<char>, T> {
        users_by_id(self@)
    }

    open spec fn in_scope(&self, scope: Seq<char>, id: Seq<char>) -> bool {
        scope == self.scope()
    }

    /// No two records have the same identifier.
    open spec fn well_formed(&self) -> bool {
        distinct_ids(self@)
    }

    fn add_user(&mut self, user: T) -> (r: Result<(), UserStoreError>)
        ensures
            r is Ok == !old(self).users().contains_key(user.record_id()),
            r is Err ==> r->Err_0.is_duplicate_of(user.record_id()),
            r is Ok ==> final(self)@ == old(self)@.push(user),
            r is Err ==> final(self)@ == old(self)@,
            final(self).scope() == old(self).scope(),
    {
        let id = user.user_id();
        proof {
            lemma_users_by_id_contains(self@, id@);
        }
        match self.position(&id) {
            Some(_) => Err(UserStoreError::DuplicateError(id)),
            None => {
                proof {
                    lemma_users_by_id_push(self@, user);
                }
                self.records.push(user);
                Ok(())
            },
        }
    }

    fn update_user(&mut self, updated_user: T) -> (r: Result<(), UserStoreError>)
        ensures
            r is Ok == old(self).users().contains_key(updated_user.record_id()),
            r is Err ==> r->Err_0.is_not_found_of(updated_user.record_id()),
            r is Ok ==> exists|i: int|
                0 <= i < old(self)@.len() && #[trigger] old(self)@[i].record_id()
                    == updated_user.record_id() && final(self)@ == old(self)@.update(i, updated_user),
            r is Err ==> final(self)@ == old(self)@,
            final(self).scope() == old(self).scope(),
    {
        let id = updated_user.user_id();
        proof {
            lemma_users_by_id_contains(self@, id@);
        }
        match self.position(&id) {
            Some(i) => {
                proof {
                    lemma_users_by_id_update(self@, i as int, updated_user);
                }
                self.records.set(i, updated_user);
                Ok(())
            },
            None => Err(UserStoreError::NotFoundError(id)),
        }
    }

    fn remove_user(&mut self, id: &str) -> (r: Result<T, UserStoreError>)
        ensures
            r is Ok == old(self).users().contains_key(id@),
            r is Err ==> r->Err_0.is_not_found_of(id@),
            r is Ok ==> exists|i: int|
                0 <= i < old(self)@.len() && #[trigger] old(self)@[i].record_id() == id@
                    && final(self)@ == old(self)@.remove(i),
            r is Err ==> final(self)@ == old(self)@,
            final(self).scope() == old(self).scope(),
    {
        let key = id.to_string();
        proof {
            lemma_users_by_id_contains(self@, id@);
        }
        match self.position(&key) {
            Some(i) => {
                proof {
                    lemma_users_by_id_index(self@, i as int);
                    lemma_users_by_id_remove(self@, i as int);
                }
                Ok(self.records.remove(i))
            },
            None => Err(UserStoreError::NotFoundError(key)),
        }
    }

    fn fetch_user(&self, id: &str) -> (r: Result<T, UserStoreError>)
        ensures
            r is Ok == self.users().contains_key(id@),
            r is Err ==> r->Err_0.is_not_found_of(id@),
    {
        let key = id.to_string();
        proof {
            lemma_users_by_id_contains(self@, id@);
        }
        match self.position(&key) {
            Some(i) => {
                proof {
                    lemma_users_by_id_index(self@, i as int);
                }
                Ok(self.records[i].copy_record())
            },
            None => Err(UserStoreError::NotFoundError(key)),
        }
    }

    fn list_users(&self, id: &str) -> (r: Result<Vec<T>, UserStoreError>)
        ensures
            r matches Ok(users) && users@ == if id@ == self.scope() {
                self@
            } else {
                Seq::<T>::empty()
            },
    {
        let mut users: Vec<T> = Vec::new();
        let scope = id.to_string();
        if self.scope == scope {
            let mut i: usize = 0;
            while i < self.records.len()
                invariant
                    i <= self.records@.len(),
                    users@ == self.records@.subrange(0, i as int),
                decreases self.records@.len() - i,
            {
                users.push(self.records[i].copy_record());
                i = i + 1;
            }
            proof {
                assert(users@ =~= self@);
                assert forall|i: int| 0 <= i < users@.len() implies {
                    let key = #[trigger] users@[i].record_id();
                    &&& self.users().contains_key(key)
                    &&& self.users()[key] == users@[i]
                } by {
                    lemma_users_by_id_index(self@, i);
                }
                assert forall|key: Seq<char>|
                    #[trigger] self.users().contains_key(key)
                    implies exists|i: int| 0 <= i < users@.len() && #[trigger] users@[i].record_id() == key by {
                    lemma_users_by_id_contains(self@, key);
                }
            }
        }
        Ok(users)
    }

    fn is_user(&self, id: &str) -> (r: Result<bool, UserStoreError>)
        ensures
            r == Ok::<bool, UserStoreError>(self.users().contains_key(id@)),
    {
        let key = id.to_string();
        proof {
            lemma_users_by_id_contains(self@, id@);
        }
        Ok(self.position(&key).is_some())
    }
}

} // verus!
