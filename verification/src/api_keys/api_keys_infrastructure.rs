//! What stands between the API-key services and the outside: the request
//! guard, a store in memory and the command line.

pub mod api_key_memory_repository;
pub mod cli;
pub mod middlewares;

pub use crate::api_keys::api_keys_infrastructure::api_key_memory_repository::ApiKeyMemoryRepository;
pub use crate::api_keys::api_keys_infrastructure::middlewares::{
    ApiKeyValidationStrategy, AuthError, AuthFailure, AuthHeader, AuthMiddleware,
};
