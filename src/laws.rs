use vstd::prelude::*;

use crate::store::lists_scope;
use crate::user::UserRecord;

verus! {

/// After a successful `add_user(user)` the records are `users.insert(id, user)`; fetching the
/// identifier of `user` then finds it, and gives back a record equal to `user`.
pub proof fn lemma_fetch_after_add<T: UserRecord>(users: Map<Seq<char>, T>, user: T)
    requires
        !users.contains_key(user.record_id()),
    ensures
        users.insert(user.record_id(), user).contains_key(user.record_id()),
        users.insert(user.record_id(), user)[user.record_id()] == user,
{
}

/// Adding a record keeps its identifier whether the add succeeded or found it already
/// stored, so a second add of a record with the same identifier fails with a duplicate error.
pub proof fn lemma_add_twice<T: UserRecord>(users: Map<Seq<char>, T>, first: T, second: T)
    requires
        first.record_id() == second.record_id(),
    ensures
        ({
            let after = if users.contains_key(first.record_id()) {
                users
            } else {
                users.insert(first.record_id(), first)
            };
            after.contains_key(second.record_id())
        }),
{
}

/// Removing an identifier that is not stored fails with a not-found error; removing one that is
/// stored gives back its record and leaves the identifier absent, so fetching it then fails with
/// a not-found error.
pub proof fn lemma_fetch_after_remove<T: UserRecord>(users: Map<Seq<char>, T>, id: Seq<char>)
    requires
        users.contains_key(id),
    ensures
        !users.remove(id).contains_key(id),
{
}

/// An identifier that is not stored is reported absent; after an add of a record with it, it is
/// present; after its removal, it is absent again.
pub proof fn lemma_exists_through_add_and_remove<T: UserRecord>(
    users: Map<Seq<char>, T>,
    user: T,
)
    requires
        !users.contains_key(user.record_id()),
    ensures
        users.insert(user.record_id(), user).contains_key(user.record_id()),
        !users.insert(user.record_id(), user).remove(user.record_id()).contains_key(
            user.record_id(),
        ),
        users.insert(user.record_id(), user).remove(user.record_id()) == users,
{
    assert(users.insert(user.record_id(), user).remove(user.record_id()) =~= users);
}

/// A listing of a scope that holds no records is empty.
pub proof fn lemma_list_empty_scope<T: UserRecord>(
    users: Map<Seq<char>, T>,
    in_scope: spec_fn(Seq<char>) -> bool,
    listed: Seq<T>,
)
    requires
        forall|key: Seq<char>| #[trigger] users.contains_key(key) ==> !in_scope(key),
        lists_scope(users, in_scope, listed),
    ensures
        listed.len() == 0,
{
    if listed.len() > 0 {
        let key = listed[0].record_id();
        assert(users.contains_key(key));
    }
}

} // verus!
