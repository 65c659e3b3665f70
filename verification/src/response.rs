use vstd::prelude::*;

use crate::error::{Error, ErrorCode};

verus! {

/// The envelope the issuer answers with: either the expected data, or a
/// failure with a documented code and a message.
#[derive(Debug)]
pub enum Response<T> {
    Success { data: T },
    Error { code: ErrorCode, message: String },
}

impl<T> Response<T> {
    /// Unwraps a success envelope; maps a failure envelope to the error
    /// variant its code stands for, carrying the message through.
    pub fn get(self) -> (r: Result<T, Error>)
        ensures
            (match self {
                Response::Success { data } => r matches Ok(d) && d == data,
                Response::Error { code, message } => r matches Err(e) && e
                    == Error::spec_from_parts(code, message),
            }),
    {
        match self {
            Response::Success { data } => Ok(data),
            Response::Error { code, message } => Err(Error::from_parts(code, message)),
        }
    }

    /// Same contract as `get`, under the name the issuer-facing callers use.
    pub fn extract(self) -> (r: Result<T, Error>)
        ensures
            (match self {
                Response::Success { data } => r matches Ok(d) && d == data,
                Response::Error { code, message } => r matches Err(e) && e
                    == Error::spec_from_parts(code, message),
            }),
    {
        self.get()
    }
}

} // verus!
