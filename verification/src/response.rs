//! The replies of the API: the data asked for, or an error body.
use vstd::prelude::*;

use crate::text::owned;

verus! {

/// The error body that every endpoint sends on failure.
pub struct ResError {
    pub msg: String,
    pub detail: String,
}

/// What an endpoint answers: its data, or an error.
#[allow(non_camel_case_types)]
pub enum Response<T> {
    data(T),
    error(ResError),
}

impl ResError {
    /// An error made of two literal texts.
    pub fn of(msg: &str, detail: &str) -> (r: ResError)
        ensures
            r.msg@ == msg@,
            r.detail@ == detail@,
    {
        ResError { msg: owned(msg), detail: owned(detail) }
    }
}

} // verus!
