//! Accounts and refresh tokens as the database holds them for login and
//! session.

use vstd::prelude::*;

verus! {

/// Reading and writing of accounts and refresh tokens for login and session.
/// Every one of its operations is a fixed statement sent to the database;
/// nothing is computed before or after.
pub struct AuthRepository;

} // verus!
