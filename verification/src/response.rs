//! The uniform response envelope.
//!
//! Every operation answers with exactly one of two shapes: a success that
//! carries the operation's output, or a failure that carries a single
//! human-readable message.

use vstd::prelude::*;

verus! {

/// Tagged success/failure envelope: exactly one of `data` and `error` is
/// populated, and `success` says which.
pub struct ApiResponse<T> {
    pub success: bool,
    pub data: Option<T>,
    pub error: Option<String>,
}

/// The envelope is a success carrying some data value.
pub open spec fn resp_success<T>(r: ApiResponse<T>) -> bool {
    &&& r.success
    &&& r.data is Some
    &&& r.error is None
}

/// The envelope is a failure carrying exactly the message `msg`.
pub open spec fn resp_failed<T>(r: ApiResponse<T>, msg: Seq<char>) -> bool {
    &&& !r.success
    &&& r.data is None
    &&& r.error matches Some(e) && e@ == msg
}

impl<T> ApiResponse<T> {
    /// Wrap an output value in a success envelope.
    pub fn success(data: T) -> (r: Self)
        ensures
            resp_success(r),
            r.data == Some(data),
    {
        ApiResponse { success: true, data: Some(data), error: None }
    }

    /// Wrap an error message in a failure envelope.
    pub fn error(msg: &str) -> (r: Self)
        ensures
            resp_failed(r, msg@),
    {
        ApiResponse { success: false, data: None, error: Some(msg.to_owned()) }
    }
}

} // verus!
