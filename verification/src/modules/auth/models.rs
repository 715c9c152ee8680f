//! What clients send to register and to log in.

use crate::common::id::Id;
use crate::modules::user::models::User;
use vstd::prelude::*;

verus! {

/// An account as the login needs it: the row of the account alone, without
/// the department and the teams around it.
#[derive(Debug, Clone)]
pub struct AuthUser {
    pub id: Id,
    pub username: String,
    /// The bcrypt hash of the password.
    pub password: Option<String>,
    pub full_name: String,
    pub email: String,
    pub phone: Option<String>,
    pub is_active: bool,
    pub creator_id: Id,
    pub updater_id: Option<Id>,
    pub create_date_time: chrono::NaiveDateTime,
    pub update_date_time: Option<chrono::NaiveDateTime>,
}

/// What login, registration, refresh and session answer with.
#[derive(Debug)]
pub struct AuthResponse {
    pub user: User,
}

/// A refresh token as stored.
#[derive(Debug)]
pub struct RefreshToken {
    pub id: i64,
    pub user_id: i64,
    pub token: String,
    pub expires_at: chrono::NaiveDateTime,
    pub created_at: chrono::NaiveDateTime,
}

/// A request to open an account.
#[derive(Debug)]
pub struct RegisterRequest {
    pub username: String,
    pub password: String,
    pub full_name: String,
    pub email: String,
    pub phone: Option<String>,
}

/// A request to log in.
#[derive(Debug)]
pub struct LoginRequest {
    pub username: String,
    pub password: String,
}

} // verus!
