//! Verified core of a token-based authentication service: request
//! validation, password hashing, access and refresh tokens, and the
//! decisions of registration, login, refresh and logout.
//!
//! The storage, the revocation store and the HTTP layer are driven by the
//! caller; each operation here is a sequence of steps, each taking what the
//! previous piece of outside work returned.

pub mod auth_user;
pub mod dto;
pub mod error;
pub mod jwt;
pub mod laws;
pub mod password;
pub mod service;
pub mod text;
pub mod time;
pub mod token;
pub mod validate;

pub use auth_user::{bearer_token, AuthUser, PendingAuth};
pub use dto::{
    CreateUserRequest, LoginResponse, LoginUserRequest, LogoutRequest, RefreshResponse,
    RefreshToken, RefreshTokenRequest, RegisterUserRequest, User,
};
pub use error::AppError;
pub use jwt::{blacklist_key, create_jwt, verify_jwt, Claims, JwtError};
pub use password::{hash_password, verify_password};
pub use service::{
    AuthService, Failure, IssuedTokens, LogoutAllPlan, LogoutPlan, NewUser, RefreshPlan,
    Revocation,
};
pub use time::Timestamp;
pub use token::{generate_token, hash_token};
pub use validate::{validated, FieldError, Rule, Validate, ValidatedJson, ValidationErrors};
