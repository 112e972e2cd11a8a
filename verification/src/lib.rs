//! Authentication and authorization core for a multi-user REST backend.
//!
//! Clients register with a handle, an email address and a password, log in to
//! receive a signed, time-limited token, and present that token on later
//! requests to prove their identity. This crate holds the verified core:
//! password hashing and verification, token issuance and validation, the
//! registration and login decisions, bearer-header identity extraction, and
//! the ownership check used by mutating endpoints. Persistence and HTTP
//! plumbing are outside collaborators and stay outside this crate.

pub mod errors;
pub mod hasher;
pub mod hex;
pub mod identity;
pub mod ownership;
pub mod service;
pub mod token;

pub use errors::ApiError;
pub use errors::StoreError;
pub use errors::TokenError;
pub use hasher::{hash_password, verify_password};
pub use identity::{authenticate, authenticate_at, Auth};
pub use ownership::{require_owner, require_resource_owner};
pub use service::{login, register, Account, LoginRequest, RegisterRequest};
pub use token::{generate_jwt, validate_jwt, Claims, TokenCodec, WebToken};
