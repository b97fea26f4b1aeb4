//! The body of a successful response.

use vstd::prelude::*;

verus! {

/// What a successful request answers: a code, and a message or data where there is any.
pub struct SuccessResponse<T> {
    pub success: bool,
    pub code: u16,
    pub message: Option<&'static str>,
    pub data: Option<T>,
}

impl<T> SuccessResponse<T> {
    /// A response with everything given.
    pub fn new(code: u16, message: Option<&'static str>, data: Option<T>) -> (r: Self)
        ensures
            r.success,
            r.code == code,
            r.message == message,
            r.data == data,
    {
        SuccessResponse { success: true, code, message, data }
    }

    /// A response that carries only its code.
    pub fn with_code(code: u16) -> (r: Self)
        ensures
            r.success,
            r.code == code,
            r.message is None,
            r.data is None,
    {
        Self { success: true, code, message: None, data: None }
    }

    /// A response with a message.
    pub fn with_message(code: u16, message: &'static str) -> (r: Self)
        ensures
            r.success,
            r.code == code,
            r.message == Some(message),
            r.data is None,
    {
        Self { success: true, code, message: Some(message), data: None }
    }

    /// A response with data.
    pub fn with_data(code: u16, data: T) -> (r: Self)
        ensures
            r.success,
            r.code == code,
            r.message is None,
            r.data == Some(data),
    {
        Self { success: true, code, message: None, data: Some(data) }
    }

    /// The HTTP status of the response: its code where that is a status (100 to 999),
    /// else 500.
    pub open spec fn status_of(code: u16) -> u16 {
        if 100 <= code < 1000 {
            code
        } else {
            500
        }
    }

    /// Computes the HTTP status of the response.
    pub fn status(&self) -> (status: u16)
        ensures
            status == Self::status_of(self.code),
    {
        if self.code >= 100 && self.code < 1000 {
            self.code
        } else {
            500
        }
    }
}

} // verus!
