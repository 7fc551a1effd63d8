use vstd::prelude::*;

verus! {

/// What went wrong in an operation on a user store.
#[derive(Debug)]
pub enum UserStoreError {
    /// A user with the identifier held here is already stored.
    DuplicateError(String),
    /// No user with the identifier held here is stored.
    NotFoundError(String),
    /// The storage behind the store failed; holds the backend's account of the cause.
    StorageError(String),
    /// A persisted record could not be turned into a user; holds why.
    ConversionError(String),
}

impl UserStoreError {
    /// The error says that a user with identifier `id` is already stored.
    pub open spec fn is_duplicate_of(&self, id: Seq<char>) -> bool {
        match self {
            UserStoreError::DuplicateError(m) => m@ == id,
            _ => false,
        }
    }

    /// The error says that no user with identifier `id` is stored.
    pub open spec fn is_not_found_of(&self, id: Seq<char>) -> bool {
        match self {
            UserStoreError::NotFoundError(m) => m@ == id,
            _ => false,
        }
    }

    /// Returns the text that the error holds.
    pub fn message(&self) -> (r: String)
        ensures
            r@ == match self {
                UserStoreError::DuplicateError(m) => m@,
                UserStoreError::NotFoundError(m) => m@,
                UserStoreError::StorageError(m) => m@,
                UserStoreError::ConversionError(m) => m@,
            },
    {
        match self {
            UserStoreError::DuplicateError(m) => m.clone(),
            UserStoreError::NotFoundError(m) => m.clone(),
            UserStoreError::StorageError(m) => m.clone(),
            UserStoreError::ConversionError(m) => m.clone(),
        }
    }
}

} // verus!
