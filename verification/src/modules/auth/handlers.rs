//! The rules of registration, login, refresh and logout: what is asked of a
//! request, when a caller is let in, and which cookies carry the session.

use crate::common::cookies::{
    cookie_entries, find_cookie, lookup, parse_cookie_header, set_cookie_header, set_cookie_text,
    CookieEntry, CookieLookup, CookiePolicy, Lookup, SameSitePolicy,
};
use crate::common::error::{explains, AppError, AppResult};
use crate::common::password::{password_matches, verify_password};
use crate::config::JwtConfig;
use crate::modules::auth::models::{AuthUser, LoginRequest, RefreshToken, RegisterRequest};
use crate::modules::user::models::User;
use vstd::prelude::*;
use vstd::utf8::encode_utf8;

verus! {

/// The cookie that carries the refresh token.
pub const REFRESH_COOKIE_NAME: &'static str = "refresh_token";

/// The cookie that carries the access token.
pub const ACCESS_COOKIE_NAME: &'static str = "access_token";

/// The part of the site the session cookies are sent to.
pub const COOKIE_PATH: &'static str = "/api";

/// The fewest bytes a password chosen at registration may have.
pub const MIN_REGISTRATION_PASSWORD_BYTES: usize = 6;

/// The length of a text in bytes of UTF-8, as `str::len` counts it.
pub open spec fn byte_length(text: Seq<char>) -> usize {
    encode_utf8(text).len() as usize
}

/// The value of the `Set-Cookie` header of a session cookie: out of reach of
/// scripts, sent over plain connections too, sent along with top-level
/// navigation from other sites, and limited to [`COOKIE_PATH`].
pub open spec fn auth_cookie_text(name: Seq<char>, value: Seq<char>, max_age_seconds: i64) -> Seq<
    char,
> {
    set_cookie_text(
        name,
        value,
        true,
        false,
        SameSitePolicy::Lax,
        COOKIE_PATH@,
        max_age_seconds,
    )
}

/// The `Set-Cookie` header that sets a session cookie.
pub fn build_auth_cookie(name: &str, value: String, max_age_seconds: i64) -> (header: String)
    ensures
        header@ == auth_cookie_text(name@, value@, max_age_seconds),
{
    let policy = CookiePolicy {
        http_only: true,
        secure: false,
        same_site: SameSitePolicy::Lax,
        path: COOKIE_PATH.to_owned(),
    };
    set_cookie_header(name, value, &policy, max_age_seconds)
}

/// The `Set-Cookie` header that makes the browser drop a session cookie: an
/// empty value that lasts no time.
pub fn clear_auth_cookie(name: &str) -> (header: String)
    ensures
        header@ == auth_cookie_text(name@, Seq::<char>::empty(), 0),
{
    build_auth_cookie(name, String::new(), 0)
}

/// The `Set-Cookie` header that hands out a refresh token.
pub fn build_refresh_cookie(token: String, max_age_seconds: i64) -> (header: String)
    ensures
        header@ == auth_cookie_text(REFRESH_COOKIE_NAME@, token@, max_age_seconds),
{
    build_auth_cookie(REFRESH_COOKIE_NAME, token, max_age_seconds)
}

/// The `Set-Cookie` header that takes the refresh token back.
pub fn clear_refresh_cookie() -> (header: String)
    ensures
        header@ == auth_cookie_text(REFRESH_COOKIE_NAME@, Seq::<char>::empty(), 0),
{
    clear_auth_cookie(REFRESH_COOKIE_NAME)
}

/// The `Set-Cookie` header that hands out an access token.
pub fn build_access_cookie(token: String, max_age_seconds: i64) -> (header: String)
    ensures
        header@ == auth_cookie_text(ACCESS_COOKIE_NAME@, token@, max_age_seconds),
{
    build_auth_cookie(ACCESS_COOKIE_NAME, token, max_age_seconds)
}

/// The `Set-Cookie` header that takes the access token back.
pub fn clear_access_cookie() -> (header: String)
    ensures
        header@ == auth_cookie_text(ACCESS_COOKIE_NAME@, Seq::<char>::empty(), 0),
{
    clear_auth_cookie(ACCESS_COOKIE_NAME)
}

/// The two `Set-Cookie` headers of a fresh session, the refresh token first,
/// each cookie lasting as long as its token.
pub fn auth_set_cookie_headers(config: &JwtConfig, access_token: String, refresh_token: String) -> (headers:
    Vec<String>)
    ensures
        headers@.len() == 2,
        headers@[0]@ == auth_cookie_text(
            REFRESH_COOKIE_NAME@,
            refresh_token@,
            config.refresh_token_expires_in,
        ),
        headers@[1]@ == auth_cookie_text(
            ACCESS_COOKIE_NAME@,
            access_token@,
            config.access_token_expires_in,
        ),
{
    let mut headers: Vec<String> = Vec::new();
    headers.push(build_refresh_cookie(refresh_token, config.refresh_token_expires_in));
    headers.push(build_access_cookie(access_token, config.access_token_expires_in));
    headers
}

/// The two `Set-Cookie` headers that end a session, the refresh token first.
pub fn logout_set_cookie_headers() -> (headers: Vec<String>)
    ensures
        headers@.len() == 2,
        headers@[0]@ == auth_cookie_text(REFRESH_COOKIE_NAME@, Seq::<char>::empty(), 0),
        headers@[1]@ == auth_cookie_text(ACCESS_COOKIE_NAME@, Seq::<char>::empty(), 0),
{
    let mut headers: Vec<String> = Vec::new();
    headers.push(clear_refresh_cookie());
    headers.push(clear_access_cookie());
    headers
}

/// Whether the failure is `Unauthorized` with the given message.
pub open spec fn unauthorized(outcome: AppResult<String>, message: Seq<char>) -> bool {
    outcome matches Err(AppError::Unauthorized(text)) && text@ == message
}

/// The refresh token among the entries of a `Cookie` header.
pub fn refresh_token_from_entries(entries: &Vec<CookieEntry>) -> (token: AppResult<String>)
    ensures
        match lookup(entries.deep_view(), REFRESH_COOKIE_NAME@) {
            Lookup::Found(value) => token matches Ok(text) && text@ == value,
            Lookup::Malformed => unauthorized(token, "Invalid Cookie"@),
            Lookup::Missing => unauthorized(token, "Missing refresh token"@),
        },
{
    match find_cookie(entries, REFRESH_COOKIE_NAME) {
        CookieLookup::Found(token) => Ok(token),
        CookieLookup::Malformed => Err(AppError::Unauthorized("Invalid Cookie".to_owned())),
        CookieLookup::Missing => Err(AppError::Unauthorized("Missing refresh token".to_owned())),
    }
}

/// The refresh token that a request carries in its `Cookie` header. A
/// request without such a header, or with one that is no text, has none.
pub fn extract_refresh_token_from_cookie(cookie_header: Option<&str>) -> (token: AppResult<String>)
    ensures
        match cookie_header {
            None => unauthorized(token, "Missing refresh token"@),
            Some(header) => match lookup(cookie_entries(header@), REFRESH_COOKIE_NAME@) {
                Lookup::Found(value) => token matches Ok(text) && text@ == value,
                Lookup::Malformed => unauthorized(token, "Invalid Cookie"@),
                Lookup::Missing => unauthorized(token, "Missing refresh token"@),
            },
        },
{
    match cookie_header {
        Some(header) => {
            let entries = parse_cookie_header(header);
            refresh_token_from_entries(&entries)
        },
        None => Err(AppError::Unauthorized("Missing refresh token".to_owned())),
    }
}

/// Whether the failure is `BadRequest` with the given message.
pub open spec fn bad_request(outcome: AppResult<()>, message: Seq<char>) -> bool {
    outcome matches Err(AppError::BadRequest(text)) && text@ == message
}

/// What is asked of a registration before anything is looked up: a user
/// name, and a password of six bytes or more.
pub fn validate_registration(request: &RegisterRequest) -> (checked: AppResult<()>)
    ensures
        if request.username@.len() == 0 || request.password@.len() == 0 {
            bad_request(checked, "Username and password cannot be empty"@)
        } else if byte_length(request.password@) < MIN_REGISTRATION_PASSWORD_BYTES {
            bad_request(checked, "Password must be at least 6 characters"@)
        } else {
            checked is Ok
        },
{
    if request.username.as_str().is_empty() || request.password.as_str().is_empty() {
        return Err(AppError::BadRequest("Username and password cannot be empty".to_owned()));
    }
    if request.password.as_str().len() < MIN_REGISTRATION_PASSWORD_BYTES {
        return Err(AppError::BadRequest("Password must be at least 6 characters".to_owned()));
    }
    Ok(())
}

/// Refuses a registration under a user name that is taken.
pub fn reject_taken_username(taken: bool) -> (checked: AppResult<()>)
    ensures
        if taken {
            bad_request(checked, "Username already exists"@)
        } else {
            checked is Ok
        },
{
    if taken {
        Err(AppError::BadRequest("Username already exists".to_owned()))
    } else {
        Ok(())
    }
}

/// Refuses a registration under an e-mail address that is taken.
pub fn reject_taken_email(taken: bool) -> (checked: AppResult<()>)
    ensures
        if taken {
            bad_request(checked, "Email is already registered"@)
        } else {
            checked is Ok
        },
{
    if taken {
        Err(AppError::BadRequest("Email is already registered".to_owned()))
    } else {
        Ok(())
    }
}

/// What is asked of a login before anything is looked up: a user name and a
/// password.
pub fn validate_login(request: &LoginRequest) -> (checked: AppResult<()>)
    ensures
        if request.username@.len() == 0 || request.password@.len() == 0 {
            bad_request(checked, "Username and password cannot be empty"@)
        } else {
            checked is Ok
        },
{
    if request.username.as_str().is_empty() || request.password.as_str().is_empty() {
        return Err(AppError::BadRequest("Username and password cannot be empty".to_owned()));
    }
    Ok(())
}

/// What a login comes to, given the account found under the user name and
/// what the check of the password against the stored hash gave.
pub open spec fn login_verdict(found: Option<AuthUser>, password: Seq<char>) -> Verdict {
    match found {
        None => Verdict::WrongCredentials,
        Some(user) => if !user.is_active {
            Verdict::Disabled
        } else {
            match user.password {
                None => Verdict::NoPassword,
                Some(hash) => match password_matches(password, hash@) {
                    None => Verdict::Unreadable,
                    Some(false) => Verdict::WrongCredentials,
                    Some(true) => Verdict::Admitted,
                },
            }
        },
    }
}

/// The ways a login can end.
pub enum Verdict {
    /// The caller is let in.
    Admitted,
    /// No such account, or the password is not the account's.
    WrongCredentials,
    /// The account is switched off.
    Disabled,
    /// The account has no password stored.
    NoPassword,
    /// What is stored as the account's password is no bcrypt hash.
    Unreadable,
}

/// Lets the caller in as `found` if the account exists and is active and
/// `password` is its password. An unknown user name and a wrong password are
/// answered alike.
pub fn authenticate(found: Option<AuthUser>, password: &str) -> (admitted: AppResult<AuthUser>)
    ensures
        match login_verdict(found, password@) {
            Verdict::Admitted => admitted matches Ok(user) && Some(user) == found,
            Verdict::WrongCredentials => admitted matches Err(AppError::Unauthorized(message))
                && message@ == "Incorrect username or password"@,
            Verdict::Disabled => admitted matches Err(AppError::Unauthorized(message)) && message@
                == "User has been disabled"@,
            Verdict::NoPassword => admitted matches Err(AppError::InternalError(message))
                && message@ == "User password data error"@,
            Verdict::Unreadable => admitted matches Err(AppError::InternalError(message))
                && explains(message@, "Password verification failed"@),
        },
{
    let user = match found {
        Some(user) => user,
        None => {
            return Err(AppError::Unauthorized("Incorrect username or password".to_owned()));
        },
    };
    if !user.is_active {
        return Err(AppError::Unauthorized("User has been disabled".to_owned()));
    }
    let checked = match &user.password {
        Some(hash) => verify_password(password, hash.as_str()),
        None => {
            return Err(AppError::InternalError("User password data error".to_owned()));
        },
    };
    match checked {
        Ok(true) => Ok(user),
        Ok(false) => Err(AppError::Unauthorized("Incorrect username or password".to_owned())),
        Err(error) => Err(error),
    }
}

/// The stored refresh token that a presented one was found as, or the
/// refusal of a token that is unknown or has run out.
pub fn require_stored_refresh_token(found: Option<RefreshToken>) -> (stored: AppResult<RefreshToken>)
    ensures
        match found {
            Some(token) => stored == Ok::<RefreshToken, AppError>(token),
            None => stored matches Err(AppError::Unauthorized(message)) && message@
                == "Invalid or expired refresh token"@,
        },
{
    match found {
        Some(token) => Ok(token),
        None => Err(AppError::Unauthorized("Invalid or expired refresh token".to_owned())),
    }
}

/// The account a session belongs to, if it is still there and active.
pub fn require_active_user(found: Option<User>) -> (active: AppResult<User>)
    ensures
        match found {
            None => active matches Err(AppError::NotFound(message)) && message@
                == "User does not exist"@,
            Some(user) => if user.is_active {
                active == Ok::<User, AppError>(user)
            } else {
                active matches Err(AppError::Unauthorized(message)) && message@
                    == "User has been disabled"@
            },
        },
{
    match found {
        None => Err(AppError::NotFound("User does not exist".to_owned())),
        Some(user) => {
            if !user.is_active {
                Err(AppError::Unauthorized("User has been disabled".to_owned()))
            } else {
                Ok(user)
            }
        },
    }
}

} // verus!
