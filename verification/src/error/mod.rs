//! Errors of the service and the envelope that carries them to a client.

use vstd::prelude::*;

pub mod api_error;
pub mod response;

verus! {

/// What a handler comes to: a value for the client, or an error.
pub type OhMyResult<T> = Result<T, api_error::ApiError>;

} // verus!
