//! Who is calling: where a request carries its access token, and what a
//! caller has to be to pass.

use crate::common::cookies::{
    cookie_entries, find_cookie, lookup, parse_cookie_header, CookieEntry, CookieLookup, Lookup,
};
use crate::common::error::{AppError, AppResult};
use crate::common::jwt::Claims;
use crate::common::text::{chars_of, starts_with, text_from};
use vstd::prelude::*;

verus! {

/// The cookie that carries the access token.
pub const ACCESS_COOKIE_NAME: &'static str = "access_token";

/// The user name of the administrator.
pub const ADMIN_USERNAME: &'static str = "admin";

/// What stands before the token in an `Authorization` header.
pub const BEARER_PREFIX: &'static str = "Bearer ";

/// The access token among the entries of a `Cookie` header: the value of the
/// first cookie named `access_token` that is not empty, unless an entry that
/// is no cookie stands before it.
pub open spec fn access_token_among(entries: Seq<Option<(Seq<char>, Seq<char>)>>) -> Option<
    Seq<char>,
> {
    match lookup(entries, ACCESS_COOKIE_NAME@) {
        Lookup::Found(token) => Some(token),
        Lookup::Malformed => None,
        Lookup::Missing => None,
    }
}

/// The token of an `Authorization` header: what follows `Bearer `.
pub open spec fn bearer_token_of(authorization: Seq<char>) -> Option<Seq<char>> {
    if BEARER_PREFIX@.is_prefix_of(authorization) {
        Some(authorization.skip(BEARER_PREFIX@.len() as int))
    } else {
        None
    }
}

/// The view of an optional text.
pub open spec fn text_view(text: Option<String>) -> Option<Seq<char>> {
    match text {
        Some(text) => Some(text@),
        None => None,
    }
}

/// The access token among the entries of a `Cookie` header.
pub fn access_token_from_entries(entries: &Vec<CookieEntry>) -> (token: Option<String>)
    ensures
        text_view(token) == access_token_among(entries.deep_view()),
{
    match find_cookie(entries, ACCESS_COOKIE_NAME) {
        CookieLookup::Found(token) => Some(token),
        CookieLookup::Malformed => None,
        CookieLookup::Missing => None,
    }
}

/// The access token that a request carries in its `Cookie` header, if the
/// request has such a header and the header is text.
pub fn extract_access_token_from_cookie(cookie_header: Option<&str>) -> (token: Option<String>)
    ensures
        text_view(token) == match cookie_header {
            Some(header) => access_token_among(cookie_entries(header@)),
            None => None,
        },
{
    match cookie_header {
        Some(header) => {
            let entries = parse_cookie_header(header);
            access_token_from_entries(&entries)
        },
        None => None,
    }
}

/// The token that a request carries in its `Authorization` header.
pub fn bearer_token(authorization: Option<&str>) -> (token: AppResult<String>)
    ensures
        match authorization {
            None => token matches Err(AppError::Unauthorized(message)) && message@
                == "Missing authentication token"@,
            Some(header) => match bearer_token_of(header@) {
                Some(bearer) => token matches Ok(text) && text@ == bearer,
                None => token matches Err(AppError::Unauthorized(message)) && message@
                    == "Invalid authentication token format"@,
            },
        },
{
    let header = match authorization {
        Some(header) => header,
        None => {
            return Err(AppError::Unauthorized("Missing authentication token".to_owned()));
        },
    };
    let chars = chars_of(header);
    let prefix = chars_of(BEARER_PREFIX);
    if !starts_with(&chars, &prefix) {
        return Err(AppError::Unauthorized("Invalid authentication token format".to_owned()));
    }
    Ok(text_from(&chars, prefix.len()))
}

/// The access token of a request: the one in its cookies, or else the one
/// in its `Authorization` header.
pub fn request_token(cookie_header: Option<&str>, authorization: Option<&str>) -> (token: AppResult<
    String,
>)
    ensures
        match (match cookie_header {
            Some(header) => access_token_among(cookie_entries(header@)),
            None => None,
        }) {
            Some(from_cookie) => token matches Ok(text) && text@ == from_cookie,
            None => match authorization {
                None => token matches Err(AppError::Unauthorized(message)) && message@
                    == "Missing authentication token"@,
                Some(header) => match bearer_token_of(header@) {
                    Some(bearer) => token matches Ok(text) && text@ == bearer,
                    None => token matches Err(AppError::Unauthorized(message)) && message@
                        == "Invalid authentication token format"@,
                },
            },
        },
{
    match extract_access_token_from_cookie(cookie_header) {
        Some(token) => Ok(token),
        None => bearer_token(authorization),
    }
}

/// The claims that the request was authenticated with, or `Not
/// authenticated` where it carries none.
pub fn get_current_user(claims: Option<Claims>) -> (user: AppResult<Claims>)
    ensures
        match claims {
            Some(claims) => user == Ok::<Claims, AppError>(claims),
            None => user matches Err(AppError::Unauthorized(message)) && message@
                == "Not authenticated"@,
        },
{
    match claims {
        Some(claims) => Ok(claims),
        None => Err(AppError::Unauthorized("Not authenticated".to_owned())),
    }
}

/// Lets the administrator pass and nobody else.
pub fn require_admin(claims: Option<Claims>) -> (admin: AppResult<Claims>)
    ensures
        match claims {
            Some(claims) => if claims.username@ == ADMIN_USERNAME@ {
                admin == Ok::<Claims, AppError>(claims)
            } else {
                admin matches Err(AppError::Forbidden(message)) && message@
                    == "Admin access required"@
            },
            None => admin matches Err(AppError::Unauthorized(message)) && message@
                == "Not authenticated"@,
        },
{
    match get_current_user(claims) {
        Ok(claims) => {
            if claims.username != ADMIN_USERNAME.to_owned() {
                Err(AppError::Forbidden("Admin access required".to_owned()))
            } else {
                Ok(claims)
            }
        },
        Err(error) => Err(error),
    }
}

} // verus!
