//! A basic representation of a user and a storage-independent API to manage users.
//!
//! Users are the central entity of the biome module: each one stands for a real person who uses
//! a splinter application.
mod error;
mod laws;
mod memory;
mod records;
mod store;
mod user;

pub use error::UserStoreError;
pub use laws::{
    lemma_add_twice, lemma_exists_through_add_and_remove, lemma_fetch_after_add,
    lemma_fetch_after_remove, lemma_list_empty_scope,
};
pub use memory::MemoryUserStore;
pub use store::{distinct_ids, holds_id, lists_scope, users_by_id, UserStore};
pub use user::{
    lemma_model_round_trip, lemma_user_round_trip, ProfileModel, SplinterUser, UserModel,
    UserRecord,
};
