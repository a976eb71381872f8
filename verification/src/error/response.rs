use vstd::prelude::*;

verus! {

/// The uniform wrapper of a reply: a numeric code, a message for humans, and
/// an optional payload.
#[derive(Debug, Clone, PartialEq, Eq)]
pub struct Response<T> {
    pub code: u16,
    pub message: String,
    pub data: Option<T>,
}

impl<T> Response<T> {
    /// Builds an envelope from its three parts, unchanged.
    pub fn new(code: u16, message: String, data: Option<T>) -> (r: Self)
        ensures
            r.code == code,
            r.message == message,
            r.data == data,
    {
        Self { code, message, data }
    }
}

} // verus!
