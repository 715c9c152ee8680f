//! The claims of a session token: who it is for, when it was issued, when it
//! ends, and whether it grants access or only a refresh.
//!
//! Reading the clock, signing and parsing of tokens happen outside this
//! module; it decides what a token says and which tokens are accepted.

use crate::common::error::{AppError, AppResult};
use crate::config::JwtConfig;
use vstd::prelude::*;

verus! {

/// What a token says.
#[derive(Debug, Clone)]
pub struct Claims {
    /// The user the token is for.
    pub sub: i64,
    pub username: String,
    /// When the token ends, in Unix seconds.
    pub exp: u64,
    /// When the token was issued, in Unix seconds.
    pub iat: u64,
    /// `access` or `refresh`.
    pub token_type: String,
}

/// Issues and checks claims.
pub struct JwtUtil;

/// A clock reading or a lifetime as the unsigned number that the claims
/// hold.
pub open spec fn unsigned(seconds: i64) -> u64 {
    seconds as u64
}

/// Whether claims issued at `now` for `lifetime` seconds have an end that a
/// 64-bit number can hold.
pub open spec fn end_fits(now: i64, lifetime: i64) -> bool {
    unsigned(now) + unsigned(lifetime) <= u64::MAX
}

impl Claims {
    /// Whether the claims are those issued to the given user at `now` for
    /// `lifetime` seconds.
    pub open spec fn issued_as(
        self,
        user_id: i64,
        username: Seq<char>,
        token_type: Seq<char>,
        now: i64,
        lifetime: i64,
    ) -> bool {
        &&& self.sub == user_id
        &&& self.username@ == username
        &&& self.token_type@ == token_type
        &&& self.iat == unsigned(now)
        &&& self.exp == unsigned(now) + unsigned(lifetime)
    }

    /// The claims issued to a user at `now` for `lifetime` seconds, or `None`
    /// where the end of the token does not fit a 64-bit number.
    pub fn issue(user_id: i64, username: &str, token_type: &str, now: i64, lifetime: i64) -> (claims:
        Option<Claims>)
        ensures
            end_fits(now, lifetime) ==> (claims matches Some(issued) && issued.issued_as(
                user_id,
                username@,
                token_type@,
                now,
                lifetime,
            )),
            !end_fits(now, lifetime) ==> claims is None,
    {
        let issued_at: u64 = #[verifier::truncate] (now as u64);
        let lasts: u64 = #[verifier::truncate] (lifetime as u64);
        match issued_at.checked_add(lasts) {
            Some(ends_at) => Some(
                Claims {
                    sub: user_id,
                    username: username.to_owned(),
                    exp: ends_at,
                    iat: issued_at,
                    token_type: token_type.to_owned(),
                },
            ),
            None => None,
        }
    }
}

impl JwtUtil {
    /// The claims of an access token issued at `now`, the time in whole
    /// seconds since the Unix epoch, with the configured lifetime. `None`
    /// where the end of the token does not fit a 64-bit number.
    pub fn access_claims(user_id: i64, username: &str, config: &JwtConfig, now: i64) -> (claims:
        Option<Claims>)
        ensures
            end_fits(now, config.access_token_expires_in) ==> (claims matches Some(issued)
                && issued.issued_as(
                user_id,
                username@,
                "access"@,
                now,
                config.access_token_expires_in,
            )),
            !end_fits(now, config.access_token_expires_in) ==> claims is None,
    {
        Claims::issue(user_id, username, "access", now, config.access_token_expires_in)
    }

    /// The claims of a refresh token issued at `now`, the time in whole
    /// seconds since the Unix epoch, with the configured lifetime. `None`
    /// where the end of the token does not fit a 64-bit number.
    pub fn refresh_claims(user_id: i64, username: &str, config: &JwtConfig, now: i64) -> (claims:
        Option<Claims>)
        ensures
            end_fits(now, config.refresh_token_expires_in) ==> (claims matches Some(issued)
                && issued.issued_as(
                user_id,
                username@,
                "refresh"@,
                now,
                config.refresh_token_expires_in,
            )),
            !end_fits(now, config.refresh_token_expires_in) ==> claims is None,
    {
        Claims::issue(user_id, username, "refresh", now, config.refresh_token_expires_in)
    }

    /// What becomes of a token once its signature and its end were checked:
    /// `decoded` holds its claims, or `None` where the check failed. A failed
    /// check is answered with `Invalid token` and nothing else.
    pub fn verify_token(decoded: Option<Claims>) -> (verified: AppResult<Claims>)
        ensures
            decoded matches Some(claims) ==> verified == Ok::<Claims, AppError>(claims),
            decoded is None ==> (verified matches Err(AppError::Unauthorized(message)) && message@
                == "Invalid token"@),
    {
        match decoded {
            Some(claims) => Ok(claims),
            None => Err(AppError::Unauthorized("Invalid token".to_owned())),
        }
    }

    /// Accepts checked claims of the kind `expected` and refuses those of
    /// any other kind with `Token type error`.
    pub fn verify_token_type(decoded: Option<Claims>, expected: &str) -> (verified: AppResult<
        Claims,
    >)
        ensures
            match decoded {
                Some(claims) => if claims.token_type@ == expected@ {
                    verified == Ok::<Claims, AppError>(claims)
                } else {
                    verified matches Err(AppError::Unauthorized(message)) && message@
                        == "Token type error"@
                },
                None => verified matches Err(AppError::Unauthorized(message)) && message@
                    == "Invalid token"@,
            },
    {
        match Self::verify_token(decoded) {
            Ok(claims) => {
                if claims.token_type != expected.to_owned() {
                    Err(AppError::Unauthorized("Token type error".to_owned()))
                } else {
                    Ok(claims)
                }
            },
            Err(error) => Err(error),
        }
    }

    /// Accepts the checked claims of an access token.
    pub fn verify_access_token(decoded: Option<Claims>) -> (verified: AppResult<Claims>)
        ensures
            match decoded {
                Some(claims) => if claims.token_type@ == "access"@ {
                    verified == Ok::<Claims, AppError>(claims)
                } else {
                    verified matches Err(AppError::Unauthorized(message)) && message@
                        == "Token type error"@
                },
                None => verified matches Err(AppError::Unauthorized(message)) && message@
                    == "Invalid token"@,
            },
    {
        Self::verify_token_type(decoded, "access")
    }

    /// Accepts the checked claims of a refresh token.
    pub fn verify_refresh_token(decoded: Option<Claims>) -> (verified: AppResult<Claims>)
        ensures
            match decoded {
                Some(claims) => if claims.token_type@ == "refresh"@ {
                    verified == Ok::<Claims, AppError>(claims)
                } else {
                    verified matches Err(AppError::Unauthorized(message)) && message@
                        == "Token type error"@
                },
                None => verified matches Err(AppError::Unauthorized(message)) && message@
                    == "Invalid token"@,
            },
    {
        Self::verify_token_type(decoded, "refresh")
    }
}

} // verus!
