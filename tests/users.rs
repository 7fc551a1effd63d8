use biome_users::{MemoryUserStore, ProfileModel, SplinterUser, UserModel, UserRecord, UserStore, UserStoreError};

fn account(id: &str, name: &str) -> ProfileModel {
    ProfileModel { id: id.to_string(), display_name: name.to_string() }
}

fn same(a: &ProfileModel, b: &ProfileModel) -> bool {
    a.id == b.id && a.display_name == b.display_name
}

fn model(id: &str) -> UserModel {
    UserModel { id: id.to_string() }
}

#[test]
fn new_user_keeps_id() {
    for id in ["alice", "", "user-42", "é"] {
        assert_eq!(SplinterUser::new(id).id(), id);
    }
}

#[test]
fn model_round_trip_keeps_id() {
    let user = SplinterUser::from(model("bob"));
    assert_eq!(user.id(), "bob");
    let back: UserModel = user.into();
    assert_eq!(back.id, "bob");
    let from_user: UserModel = SplinterUser::new("carol").into();
    assert_eq!(SplinterUser::from(from_user).id(), "carol");
}

#[test]
fn add_then_fetch_returns_record() {
    let mut store = MemoryUserStore::new("tenant");
    assert!(store.add_user(account("alice", "Alice")).is_ok());
    assert!(same(&store.fetch_user("alice").unwrap(), &account("alice", "Alice")));
}

#[test]
fn add_twice_is_duplicate() {
    let mut store = MemoryUserStore::new("tenant");
    assert!(store.add_user(account("alice", "Alice")).is_ok());
    match store.add_user(account("alice", "Other")) {
        Err(UserStoreError::DuplicateError(id)) => assert_eq!(id, "alice"),
        other => panic!("expected a duplicate error, got {:?}", other.err()),
    }
    assert!(same(&store.fetch_user("alice").unwrap(), &account("alice", "Alice")));
}

#[test]
fn remove_missing_is_not_found() {
    let mut store: MemoryUserStore<UserModel> = MemoryUserStore::new("tenant");
    match store.remove_user("nobody") {
        Err(UserStoreError::NotFoundError(id)) => assert_eq!(id, "nobody"),
        other => panic!("expected a not-found error, got {:?}", other.map(|u| u.id)),
    }
}

#[test]
fn remove_returns_record_then_fetch_fails() {
    let mut store = MemoryUserStore::new("tenant");
    store.add_user(account("a", "A")).unwrap();
    store.add_user(account("b", "B")).unwrap();
    assert!(same(&store.remove_user("a").unwrap(), &account("a", "A")));
    assert!(matches!(store.fetch_user("a"), Err(UserStoreError::NotFoundError(_))));
    assert!(same(&store.fetch_user("b").unwrap(), &account("b", "B")));
}

#[test]
fn exists_before_after_add_and_remove() {
    let mut store = MemoryUserStore::new("tenant");
    assert_eq!(store.is_user("u1").unwrap(), false);
    store.add_user(model("u1")).unwrap();
    assert_eq!(store.is_user("u1").unwrap(), true);
    store.remove_user("u1").unwrap();
    assert_eq!(store.is_user("u1").unwrap(), false);
}

#[test]
fn list_empty_scope_is_empty() {
    let mut store: MemoryUserStore<UserModel> = MemoryUserStore::new("tenant");
    assert!(store.list_users("tenant").unwrap().is_empty());
    store.add_user(model("x")).unwrap();
    assert!(store.list_users("other").unwrap().is_empty());
}

#[test]
fn list_scope_in_insertion_order() {
    let mut store = MemoryUserStore::new("tenant");
    store.add_user(account("c", "C")).unwrap();
    store.add_user(account("a", "A")).unwrap();
    store.add_user(account("b", "B")).unwrap();
    store.update_user(account("a", "A2")).unwrap();
    store.remove_user("c").unwrap();
    let listed = store.list_users("tenant").unwrap();
    assert_eq!(listed.len(), 2);
    assert!(same(&listed[0], &account("a", "A2")));
    assert!(same(&listed[1], &account("b", "B")));
}

#[test]
fn update_missing_is_not_found() {
    let mut store = MemoryUserStore::new("tenant");
    match store.update_user(account("ghost", "G")) {
        Err(UserStoreError::NotFoundError(id)) => assert_eq!(id, "ghost"),
        other => panic!("expected a not-found error, got {:?}", other.err()),
    }
    assert!(store.list_users("tenant").unwrap().is_empty());
}

#[test]
fn alice_lifecycle() {
    let mut store = MemoryUserStore::new("tenant");
    store.add_user(account("alice", "first")).unwrap();
    assert_eq!(store.fetch_user("alice").unwrap().id, "alice");
    store.update_user(account("alice", "second")).unwrap();
    assert_eq!(store.fetch_user("alice").unwrap().display_name, "second");
    assert!(same(&store.remove_user("alice").unwrap(), &account("alice", "second")));
    assert!(matches!(store.fetch_user("alice"), Err(UserStoreError::NotFoundError(_))));
}

#[test]
fn error_message_holds_text() {
    assert_eq!(UserStoreError::StorageError("disk".to_string()).message(), "disk");
    assert_eq!(UserStoreError::ConversionError("bad id".to_string()).message(), "bad id");
    assert_eq!(UserStoreError::DuplicateError("alice".to_string()).message(), "alice");
}

#[test]
fn profile_to_user_keeps_id_only() {
    let user = SplinterUser::from(account("dave", "Dave"));
    assert_eq!(user.id(), "dave");
    let back: UserModel = user.into();
    assert_eq!(back.id, "dave");
}

#[test]
fn record_accessors() {
    let profile = account("erin", "Erin");
    assert_eq!(profile.user_id(), "erin");
    assert!(same(&profile.copy_record(), &profile));
    assert_eq!(model("frank").user_id(), "frank");
}

fn add_and_check<S: UserStore<UserModel>>(store: &mut S) -> bool {
    store.add_user(model("g")).is_ok() && store.is_user("g").unwrap()
}

#[test]
fn user_store_used_generically() {    let mut store = MemoryUserStore::new("tenant");
    assert!(add_and_check(&mut store));
    assert!(!add_and_check(&mut store));
}
