use vstd::prelude::*;

use crate::store::{distinct_ids, holds_id, users_by_id};
use crate::user::UserRecord;

verus! {

/// A record is keyed under an identifier exactly when some record has it.
pub proof fn lemma_users_by_id_contains<T: UserRecord>(records: Seq<T>, id: Seq<char>)
    ensures
        users_by_id(records).contains_key(id) == holds_id(records, id),
    decreases records.len(),
{
    if records.len() > 0 {
        let rest = records.drop_last();
        lemma_users_by_id_contains(rest, id);
        if holds_id(rest, id) {
            let i = choose|i: int| 0 <= i < rest.len() && #[trigger] rest[i].record_id() == id;
            assert(records[i].record_id() == id);
        }
        if holds_id(records, id) && records.last().record_id() != id {
            let i = choose|i: int| 0 <= i < records.len() && #[trigger] records[i].record_id() == id;
            assert(rest[i].record_id() == id);
        }
        if records.last().record_id() == id {
            assert(records[records.len() - 1].record_id() == id);
        }
    }
}

/// Where identifiers are distinct, each record is the one keyed under its identifier.
pub proof fn lemma_users_by_id_index<T: UserRecord>(records: Seq<T>, i: int)
    requires
        distinct_ids(records),
        0 <= i < records.len(),
    ensures
        users_by_id(records).contains_key(records[i].record_id()),
        users_by_id(records)[records[i].record_id()] == records[i],
    decreases records.len(),
{
    let rest = records.drop_last();
    if i < records.len() - 1 {
        assert(rest[i] == records[i]);
        lemma_users_by_id_index(rest, i);
        assert(records[i].record_id() != records[records.len() - 1].record_id());
    }
}

/// Replacing a record by one with the same identifier replaces what is keyed under it.
pub proof fn lemma_users_by_id_update<T: UserRecord>(records: Seq<T>, i: int, user: T)
    requires
        distinct_ids(records),
        0 <= i < records.len(),
        records[i].record_id() == user.record_id(),
    ensures
        distinct_ids(records.update(i, user)),
        users_by_id(records.update(i, user)) == users_by_id(records).insert(
            user.record_id(),
            user,
        ),
    decreases records.len(),
{
    let updated = records.update(i, user);
    assert forall|a: int, b: int|
        0 <= a < updated.len() && 0 <= b < updated.len() && a != b implies #[trigger] updated[a].record_id()
        != #[trigger] updated[b].record_id() by {
        assert(records[a].record_id() != records[b].record_id());
    }
    let n = records.len() - 1;
    if i == n {
        assert(updated.drop_last() =~= records.drop_last());
    } else {
        let rest = records.drop_last();
        assert(updated.drop_last() =~= rest.update(i, user));
        assert(rest[i] == records[i]);
        lemma_users_by_id_update(rest, i, user);
        assert(records[i].record_id() != records[n].record_id());
        assert(users_by_id(updated) =~= users_by_id(records).insert(user.record_id(), user));
    }
}

/// Removing a record removes what is keyed under its identifier.
pub proof fn lemma_users_by_id_remove<T: UserRecord>(records: Seq<T>, i: int)
    requires
        distinct_ids(records),
        0 <= i < records.len(),
    ensures
        distinct_ids(records.remove(i)),
        users_by_id(records.remove(i)) == users_by_id(records).remove(records[i].record_id()),
    decreases records.len(),
{
    let removed = records.remove(i);
    assert forall|a: int, b: int|
        0 <= a < removed.len() && 0 <= b < removed.len() && a != b implies #[trigger] removed[a].record_id()
        != #[trigger] removed[b].record_id() by {
        let a2 = if a < i { a } else { a + 1 };
        let b2 = if b < i { b } else { b + 1 };
        assert(records[a2].record_id() != records[b2].record_id());
    }
    let n = records.len() - 1;
    let rest = records.drop_last();
    let id = records[i].record_id();
    if i == n {
        assert(removed =~= rest);
        assert forall|k: int| 0 <= k < rest.len() implies #[trigger] rest[k].record_id() != id by {
            assert(records[k].record_id() != records[n].record_id());
        }
        lemma_users_by_id_contains(rest, id);
        assert(users_by_id(removed) =~= users_by_id(records).remove(id));
    } else {
        assert(removed.drop_last() =~= rest.remove(i));
        assert(removed.last() == records.last());
        assert(rest[i] == records[i]);
        lemma_users_by_id_remove(rest, i);
        assert(records[i].record_id() != records[n].record_id());
        assert(users_by_id(removed) =~= users_by_id(records).remove(id));
    }
}

/// Appending a record with a new identifier keeps identifiers distinct and keys it.
pub proof fn lemma_users_by_id_push<T: UserRecord>(records: Seq<T>, user: T)
    requires
        distinct_ids(records),
        !holds_id(records, user.record_id()),
    ensures
        distinct_ids(records.push(user)),
        users_by_id(records.push(user)) == users_by_id(records).insert(user.record_id(), user),
{
    let pushed = records.push(user);
    assert(pushed.drop_last() =~= records);
    assert forall|a: int, b: int|
        0 <= a < pushed.len() && 0 <= b < pushed.len() && a != b implies #[trigger] pushed[a].record_id()
        != #[trigger] pushed[b].record_id() by {
        if a < records.len() && b < records.len() {
            assert(records[a].record_id() != records[b].record_id());
        } else if a < records.len() {
            assert(records[a].record_id() != user.record_id());
        } else {
            assert(records[b].record_id() != user.record_id());
        }
    }
}

} // verus!
