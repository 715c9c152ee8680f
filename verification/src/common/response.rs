//! The envelope around every answer of the service.

use vstd::prelude::*;

verus! {

/// The status code of a successful answer.
pub const SUCCESS_CODE: u16 = 200;

/// An answer: a status code, a message for people, and the payload.
#[derive(Debug)]
pub struct ApiResponse<T> {
    pub code: u16,
    pub message: String,
    pub data: T,
}

impl<T> ApiResponse<T> {
    /// The answer that carries `data` with code 200 and the message
    /// `success`.
    pub fn success(data: T) -> (response: Self)
        ensures
            response.code == SUCCESS_CODE,
            response.message@ == "success"@,
            response.data == data,
    {
        Self { code: SUCCESS_CODE, message: "success".to_owned(), data }
    }

    /// The answer that reports a failure: the given code and message, and
    /// the payload type's default value in place of a payload.
    pub fn error(code: u16, message: String) -> (response: Self) where T: Default
        ensures
            response.code == code,
            response.message == message,
            call_ensures(T::default, (), response.data),
    {
        Self { code, message, data: T::default() }
    }
}

/// One page of a listing, with the number of entries in the whole listing.
#[derive(Debug)]
pub struct PageResponse<T> {
    pub list: Vec<T>,
    pub total: i64,
}

} // verus!
