//! What clients send to manage user accounts.

use crate::common::id::Id;
use crate::modules::auth::models::AuthUser;
use vstd::prelude::*;

verus! {

/// An account with the department and the teams it belongs to.
#[derive(Debug, Clone)]
pub struct User {
    pub id: Id,
    pub username: String,
    /// The bcrypt hash of the password; never sent to clients.
    pub password: Option<String>,
    pub full_name: String,
    pub email: String,
    pub phone: Option<String>,
    pub is_active: bool,
    pub department_id: Option<Id>,
    pub department_name: Option<String>,
    pub team_ids: Vec<Id>,
    pub team_names: Vec<String>,
    pub creator_id: Id,
    pub updater_id: Option<Id>,
    pub create_date_time: chrono::NaiveDateTime,
    pub update_date_time: Option<chrono::NaiveDateTime>,
}

/// A new account, as an administrator creates it.
#[derive(Debug)]
pub struct CreateUserParams {
    pub username: String,
    pub password: String,
    pub full_name: String,
    pub email: String,
    pub phone: Option<String>,
    pub department_id: Option<Id>,
    pub team_ids: Option<Vec<Id>>,
    pub is_active: Option<bool>,
}

/// Changes to an account. An absent field is left as it is.
#[derive(Debug)]
pub struct UpdateUserParams {
    pub username: Option<String>,
    pub password: Option<String>,
    pub full_name: Option<String>,
    pub email: Option<String>,
    pub phone: Option<String>,
    pub is_active: Option<bool>,
    /// `None`: not sent, the department stays. `Some(None)`: sent as null,
    /// the department is cleared. `Some(Some(id))`: the department is set.
    pub department_id: Option<Option<Id>>,
    /// `None`: not sent, the teams stay. Otherwise the full new list.
    pub team_ids: Option<Vec<Id>>,
}

impl User {
    /// Whether the user is the account seen from outside: the same account,
    /// in no department and no team.
    pub open spec fn is_bare(self, account: AuthUser) -> bool {
        &&& self.id == account.id
        &&& self.username == account.username
        &&& self.password == account.password
        &&& self.full_name == account.full_name
        &&& self.email == account.email
        &&& self.phone == account.phone
        &&& self.is_active == account.is_active
        &&& self.department_id is None
        &&& self.department_name is None
        &&& self.team_ids@.len() == 0
        &&& self.team_names@.len() == 0
        &&& self.creator_id == account.creator_id
        &&& self.updater_id == account.updater_id
        &&& self.create_date_time == account.create_date_time
        &&& self.update_date_time == account.update_date_time
    }

    /// The account as a user in no department and no team.
    pub fn from_account(account: AuthUser) -> (user: Self)
        ensures
            user.is_bare(account),
    {
        User {
            id: account.id,
            username: account.username,
            password: account.password,
            full_name: account.full_name,
            email: account.email,
            phone: account.phone,
            is_active: account.is_active,
            department_id: None,
            department_name: None,
            team_ids: Vec::new(),
            team_names: Vec::new(),
            creator_id: account.creator_id,
            updater_id: account.updater_id,
            create_date_time: account.create_date_time,
            update_date_time: account.update_date_time,
        }
    }
}

impl CreateUserParams {
    /// Whether the new account starts out active: yes, unless the request
    /// says otherwise.
    pub fn starts_active(&self) -> (active: bool)
        ensures
            active == match self.is_active {
                Some(active) => active,
                None => true,
            },
    {
        match self.is_active {
            Some(active) => active,
            None => true,
        }
    }
}

/// Filters and page of a listing of accounts.
#[derive(Debug)]
pub struct UserQueryParams {
    pub page: Option<i64>,
    pub page_size: Option<i64>,
    /// Matches the user name or the full name.
    pub keyword: Option<String>,
    pub username: Option<String>,
    pub full_name: Option<String>,
    pub email: Option<String>,
    pub phone: Option<String>,
    pub is_active: Option<bool>,
    pub department_id: Option<i64>,
    pub team_id: Option<i64>,
}

/// The accounts to delete in one request.
#[derive(Debug)]
pub struct BatchDeleteUsersParams {
    pub ids: Vec<Id>,
}

/// Whether an account is to be active.
#[derive(Debug)]
pub struct ToggleUserStatusParams {
    pub is_active: bool,
}

/// The password handed out after a reset.
#[derive(Debug)]
pub struct ResetPasswordResponse {
    pub temporary_password: String,
}

/// Changes a user makes to the own profile.
#[derive(Debug)]
pub struct UpdateProfileParams {
    pub full_name: Option<String>,
    pub email: Option<String>,
    pub phone: Option<String>,
}

} // verus!
