//! The envelope every server function answers with.

use vstd::prelude::*;

verus! {

/// Either the requested data or an error message.
#[derive(Clone, Debug)]
pub struct ApiResponse<T> {
    pub data: Option<T>,
    pub error: Option<String>,
}

impl<T> ApiResponse<T> {
    /// A successful answer carrying `data`.
    pub fn data(data: T) -> (response: Self)
        ensures
            response.data == Some(data),
            response.error is None,
    {
        ApiResponse { data: Some(data), error: None }
    }

    /// A failed answer carrying the message `error`.
    pub fn error(error: String) -> (response: Self)
        ensures
            response.data is None,
            response.error == Some(error),
    {
        ApiResponse { data: None, error: Some(error) }
    }
}

} // verus!
