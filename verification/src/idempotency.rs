//! Idempotent execution: the key and the saved responses.

pub mod key;
pub mod persistence;
pub mod response;

pub use key::IdempotencyKey;
pub use persistence::{
    get_saved_response, save_response, ResponseStore, SavedResponse, StoreError, UserId,
};
pub use response::{HeaderPair, Response};
