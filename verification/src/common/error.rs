//! Failures of a request and the HTTP status each one answers with.

use crate::common::id::Id;
use crate::common::snowflake::SnowflakeError;
use crate::common::text::decimal_text;
use vstd::prelude::*;
use vstd::std_specs::convert::FromSpecImpl;
use vstd::string::StringExecFns;

verus! {

/// `sqlx::Error`: a failure of the database, carried along without looking
/// inside.
#[verifier::external_type_specification]
#[verifier::external_body]
pub struct ExSqlxError(sqlx::Error);

/// Why a request failed.
#[derive(Debug)]
pub enum AppError {
    NotFound(String),
    BadRequest(String),
    Unauthorized(String),
    Forbidden(String),
    InternalError(String),
    DatabaseError(sqlx::Error),
}

pub type AppResult<T> = Result<T, AppError>;

/// What clients are told when no identifier could be issued: never the
/// cause.
pub open spec fn id_failure_message() -> Seq<char> {
    "Internal server error"@
}

/// Whether `part` stands somewhere in `text`.
pub open spec fn holds_text(text: Seq<char>, part: Seq<char>) -> bool {
    exists|at: int| 0 <= at <= text.len() && part.is_prefix_of(#[trigger] text.skip(at))
}

/// What clients are told when no identifier could be issued holds none of
/// the generator's messages.
pub proof fn lemma_id_failure_tells_nothing(error: SnowflakeError)
    ensures
        !holds_text(id_failure_message(), error.message()),
{
    reveal_strlit("Internal server error");
    reveal_strlit("Clock moved backwards");
    reveal_strlit("Invalid machine ID");
    reveal_strlit("Invalid datacenter ID");
    let told = id_failure_message();
    let cause = error.message();
    assert(told.len() == 21);
    assert forall|at: int| 0 <= at <= told.len() implies !cause.is_prefix_of(
        #[trigger] told.skip(at),
    ) by {
        if cause.is_prefix_of(told.skip(at)) {
            let rest = told.skip(at);
            assert(cause.len() >= 18);
            assert(rest.len() == 21 - at);
            assert(at <= 3);
            assert(cause =~= rest.subrange(0, cause.len() as int));
            assert(rest.subrange(0, cause.len() as int)[0] == told[at]);
            assert(rest.subrange(0, cause.len() as int)[2] == told[at + 2]);
            assert(cause[0] == told[at] && cause[2] == told[at + 2]);
        }
    }
}

/// A failure to issue an identifier, told twice over: to the client, who
/// learns nothing of the generator, and to the log.
#[derive(Debug)]
pub struct IdFailure {
    /// What the client is answered.
    pub answer: AppError,
    /// What the log keeps: what was being made, and the generator's own
    /// message.
    pub log: String,
}

/// What clients are told when the database failed: never the cause.
pub open spec fn database_failure_message() -> Seq<char> {
    "Database operation failed"@
}

/// Whether `message` begins with `context`, a colon and a blank; what
/// follows is whatever the cause had to say.
pub open spec fn explains(message: Seq<char>, context: Seq<char>) -> bool {
    (context + ": "@).is_prefix_of(message)
}

impl AppError {
    /// The HTTP status of the answer.
    pub open spec fn status(self) -> u16 {
        match self {
            AppError::NotFound(_) => 404,
            AppError::BadRequest(_) => 400,
            AppError::Unauthorized(_) => 401,
            AppError::Forbidden(_) => 403,
            AppError::InternalError(_) => 500,
            AppError::DatabaseError(_) => 500,
        }
    }

    /// The message of the answer.
    pub open spec fn message(self) -> Seq<char> {
        match self {
            AppError::NotFound(message) => message@,
            AppError::BadRequest(message) => message@,
            AppError::Unauthorized(message) => message@,
            AppError::Forbidden(message) => message@,
            AppError::InternalError(message) => message@,
            AppError::DatabaseError(_) => database_failure_message(),
        }
    }

    /// The HTTP status and the message that answer this failure.
    pub fn status_and_message(self) -> (answer: (u16, String))
        ensures
            answer.0 == self.status(),
            answer.1@ == self.message(),
    {
        match self {
            AppError::NotFound(message) => (404, message),
            AppError::BadRequest(message) => (400, message),
            AppError::Unauthorized(message) => (401, message),
            AppError::Forbidden(message) => (403, message),
            AppError::InternalError(message) => (500, message),
            AppError::DatabaseError(_) => (500, "Database operation failed".to_owned()),
        }
    }

    /// What a failure to issue an identifier comes to. The client is
    /// answered with an internal error of one fixed text, whatever was being
    /// made and whatever the generator's reason: a fault of the service, not
    /// of the request, and none of the client's business. The log keeps
    /// `context`, a colon and a blank, and the generator's own message.
    pub fn from_id_failure(context: &str, error: SnowflakeError) -> (failure: IdFailure)
        ensures
            failure.answer matches AppError::InternalError(message) && message@
                == id_failure_message(),
            failure.answer.status() == 500,
            failure.answer.message() == id_failure_message(),
            failure.log@ == context@ + ": "@ + error.message(),
    {
        let detail = error.to_string();
        IdFailure {
            answer: AppError::InternalError("Internal server error".to_owned()),
            log: String::from_str(context).concat(": ").concat(detail.as_str()),
        }
    }

    /// The failure to find what `key` names: `label`, a colon and a blank,
    /// and the key.
    pub fn not_found(label: &str, key: &str) -> (failure: AppError)
        ensures
            failure matches AppError::NotFound(message) && message@ == label@ + ": "@ + key@,
    {
        AppError::NotFound(String::from_str(label).concat(": ").concat(key))
    }

    /// The internal error that reports what went wrong in `context`: the
    /// context, a colon and a blank, and the cause in words.
    pub fn internal(context: &str, detail: &str) -> (failure: AppError)
        ensures
            failure matches AppError::InternalError(message) && message@ == context@ + ": "@
                + detail@ && explains(message@, context@),
    {
        let message = String::from_str(context).concat(": ").concat(detail);
        assert((context@ + ": "@) =~= message@.subrange(0, (context@ + ": "@).len() as int));
        AppError::InternalError(message)
    }
}

/// What was looked up is there, or the answer is `NotFound` with `label`, a
/// colon and a blank, and the key it was looked up under.
pub fn require_found<T>(found: Option<T>, label: &str, key: &str) -> (present: AppResult<T>)
    ensures
        match found {
            Some(it) => present == Ok::<T, AppError>(it),
            None => present matches Err(AppError::NotFound(message)) && message@ == label@ + ": "@
                + key@,
        },
{
    match found {
        Some(it) => Ok(it),
        None => Err(AppError::not_found(label, key)),
    }
}

/// What was looked up under an identifier is there, or the answer is
/// `NotFound` with `label`, a colon and a blank, and the identifier.
pub fn require_found_by_id<T>(found: Option<T>, label: &str, id: Id) -> (present: AppResult<T>)
    ensures
        match found {
            Some(it) => present == Ok::<T, AppError>(it),
            None => present matches Err(AppError::NotFound(message)) && message@ == label@ + ": "@
                + decimal_text(id.0 as int),
        },
{
    let key = id.to_string();
    require_found(found, label, key.as_str())
}

/// Something was deleted under the identifier, or the answer is `NotFound`
/// with `label`, a colon and a blank, and the identifier.
pub fn require_deleted(deleted: bool, label: &str, id: Id) -> (done: AppResult<()>)
    ensures
        if deleted {
            done is Ok
        } else {
            done matches Err(AppError::NotFound(message)) && message@ == label@ + ": "@
                + decimal_text(id.0 as int)
        },
{
    if deleted {
        Ok(())
    } else {
        let key = id.to_string();
        Err(AppError::not_found(label, key.as_str()))
    }
}

impl From<sqlx::Error> for AppError {
    fn from(error: sqlx::Error) -> (failure: Self) {
        AppError::DatabaseError(error)
    }
}

impl FromSpecImpl<sqlx::Error> for AppError {
    open spec fn obeys_from_spec() -> bool {
        true
    }

    open spec fn from_spec(error: sqlx::Error) -> Self {
        AppError::DatabaseError(error)
    }
}

} // verus!
