//! The error type of the library.
//!
//! Absence of a paste is a normal outcome, never an error; `AppError` carries
//! only backend failures (storage unavailability), which handlers surface as
//! a generic internal-error response.

use vstd::prelude::*;

use crate::status::Status;
use vstd::string::StringExecFns;

verus! {

/// A backend failure, carrying a terse description.
pub struct AppError {
    pub message: String,
}

impl AppError {
    /// Wrap a failure description.
    pub fn new(message: String) -> (e: AppError)
        ensures
            e.message == message,
    {
        AppError { message }
    }

    /// Convert the error into the generic internal-error response: status 500
    /// and a fixed prefix followed by the failure description.
    pub fn into_response(self) -> (r: (Status, String))
        ensures
            r.0 == Status::InternalServerError,
            r.1@ == "Something went wrong: "@ + self.message@,
    {
        let mut body = "Something went wrong: ".to_owned();
        body.append(self.message.as_str());
        (Status::InternalServerError, body)
    }
}

} // verus!
