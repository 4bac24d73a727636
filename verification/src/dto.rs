//! Request and response bodies of the authentication endpoints, and the
//! stored records they are built from, with the validation rules of the
//! requests.

use vstd::prelude::*;

use crate::time::Timestamp;
use crate::validate::{email_failures, length_failures, Validate, ValidationErrors, FieldErrorView};

verus! {

/// A registration: the address must be a valid email, the password must not
/// be blank.
#[derive(Clone, Debug)]
pub struct RegisterUserRequest {
    pub email: String,
    pub password: String,
}

/// A login: the address must be a valid email, the password must not be
/// empty.
#[derive(Clone, Debug)]
pub struct LoginUserRequest {
    pub email: String,
    pub password: String,
}

/// The tokens handed out by a login.
#[derive(Clone, Debug)]
pub struct LoginResponse {
    pub access_token: String,
    pub refresh_token: String,
}

/// A request to exchange a refresh token; the token must not be empty.
#[derive(Clone, Debug)]
pub struct RefreshTokenRequest {
    pub refresh_token: String,
}

/// The tokens handed out by a refresh.
#[derive(Clone, Debug)]
pub struct RefreshResponse {
    pub access_token: String,
    pub refresh_token: String,
}

/// A logout; the refresh token to drop must not be empty.
#[derive(Clone, Debug)]
pub struct LogoutRequest {
    pub refresh_token: String,
}

/// A stored user: id, email and the PHC hash of the password.
#[derive(Clone, Debug)]
pub struct User {
    pub id: i64,
    pub email: String,
    pub password: String,
}

/// A user to create: the address must be a valid email, the password must
/// not be empty.
#[derive(Clone, Debug)]
pub struct CreateUserRequest {
    pub email: String,
    pub password: String,
}

/// A stored refresh token: its digest, its owner and when it expires.
#[derive(Clone, Debug)]
pub struct RefreshToken {
    pub id: i64,
    pub user_id: i64,
    pub token: String,
    pub expires_at: Timestamp,
}

/// Text of the message of a failed email rule on requests.
pub open spec fn invalid_email_text() -> Seq<char> {
    "Invalid email address"@
}

/// Text of the message of a blank registration password.
pub open spec fn blank_password_text() -> Seq<char> {
    "password must not be blank"@
}

impl Validate for RegisterUserRequest {
    open spec fn failures(&self) -> Seq<FieldErrorView> {
        email_failures("email"@, self.email@, Some(invalid_email_text()))
            + length_failures("password"@, self.password@, 1, Some(blank_password_text()))
    }

    fn validate(&self) -> (r: Result<(), ValidationErrors>) {
        let mut es = ValidationErrors::new();
        es.check_email("email", self.email.as_str(), Some("Invalid email address"));
        es.check_length("password", self.password.as_str(), 1, Some("password must not be blank"));
        if es.errors.len() == 0 {
            Ok(())
        } else {
            Err(es)
        }
    }
}

impl Validate for LoginUserRequest {
    open spec fn failures(&self) -> Seq<FieldErrorView> {
        email_failures("email"@, self.email@, Some(invalid_email_text()))
            + length_failures("password"@, self.password@, 1, None)
    }

    fn validate(&self) -> (r: Result<(), ValidationErrors>) {
        let mut es = ValidationErrors::new();
        es.check_email("email", self.email.as_str(), Some("Invalid email address"));
        es.check_length("password", self.password.as_str(), 1, None);
        if es.errors.len() == 0 {
            Ok(())
        } else {
            Err(es)
        }
    }
}

impl Validate for RefreshTokenRequest {
    open spec fn failures(&self) -> Seq<FieldErrorView> {
        length_failures("refresh_token"@, self.refresh_token@, 1, None)
    }

    fn validate(&self) -> (r: Result<(), ValidationErrors>) {
        let mut es = ValidationErrors::new();
        es.check_length("refresh_token", self.refresh_token.as_str(), 1, None);
        if es.errors.len() == 0 {
            Ok(())
        } else {
            Err(es)
        }
    }
}

impl Validate for LogoutRequest {
    open spec fn failures(&self) -> Seq<FieldErrorView> {
        length_failures("refresh_token"@, self.refresh_token@, 1, None)
    }

    fn validate(&self) -> (r: Result<(), ValidationErrors>) {
        let mut es = ValidationErrors::new();
        es.check_length("refresh_token", self.refresh_token.as_str(), 1, None);
        if es.errors.len() == 0 {
            Ok(())
        } else {
            Err(es)
        }
    }
}

impl Validate for CreateUserRequest {
    open spec fn failures(&self) -> Seq<FieldErrorView> {
        email_failures("email"@, self.email@, None) + length_failures("password"@, self.password@, 1, None)
    }

    fn validate(&self) -> (r: Result<(), ValidationErrors>) {
        let mut es = ValidationErrors::new();
        es.check_email("email", self.email.as_str(), None);
        es.check_length("password", self.password.as_str(), 1, None);
        if es.errors.len() == 0 {
            Ok(())
        } else {
            Err(es)
        }
    }
}

} // verus!
