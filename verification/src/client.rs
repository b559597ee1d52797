//! Conversion from response envelopes to caller-facing values.

use crate::api::base::Response;
use vstd::prelude::*;

verus! {

/// Anything that can be read out of a response envelope carrying `T`.
pub trait FromTastyResponse<T>: Sized {
    /// Reads this value out of the envelope.
    fn from_tasty(resp: Response<T>) -> Self;
}

impl<T> FromTastyResponse<T> for T {
    /// A bare value is the envelope's data.
    fn from_tasty(resp: Response<T>) -> (r: T)
        ensures
            r == resp.data,
    {
        resp.data
    }
}

} // verus!
