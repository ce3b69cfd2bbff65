//! Catalogue service core: API-key issuance and verification, the request
//! guard built on it, and the validated values of the book catalogue.

pub mod api_keys;
pub mod books;
pub mod config;
pub mod errors;
pub mod init;
pub mod text;

pub use crate::errors::{AppError, AppErrorKind};
