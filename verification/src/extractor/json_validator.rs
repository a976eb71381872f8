//! What a body passes before its handler sees it: it has to be decodable as
//! JSON and to keep the field rules of its type.

use vstd::prelude::*;

use crate::error::api_error::{ApiError, ApiErrorView, Violation, ViolationView};
use crate::error::OhMyResult;

verus! {

/// A request body with field rules.
pub trait Validate {
    /// Whether the value keeps every rule.
    spec fn valid(&self) -> bool;

    /// Whether `violation` describes the first rule that the value breaks.
    spec fn reports(&self, violation: ViolationView) -> bool;

    /// Holds the value to its rules, field by field in their order, and
    /// reports the first breach.
    fn validate(&self) -> (r: Result<(), Violation>)
        ensures
            match r {
                Ok(_) => self.valid(),
                Err(violation) => !self.valid() && self.reports(violation@),
            },
    ;
}

/// A request body that was decoded and keeps the rules of its type.
#[derive(Debug, Clone, Copy, Default)]
pub struct ValidatedJson<T>(pub T);

impl<T: Validate> ValidatedJson<T> {
    /// Admits a body to its handler. `decoded` is the body as it was decoded
    /// from JSON, `None` where it could not be decoded: that is a malformed
    /// body. A decoded body that breaks a rule is a validation error that
    /// carries the first breach; one that keeps all rules goes on unchanged.
    pub fn from_request(decoded: Option<T>) -> (r: OhMyResult<ValidatedJson<T>>)
        ensures
            match decoded {
                Some(value) => if value.valid() {
                    r matches Ok(admitted) && admitted.0 == value
                } else {
                    r matches Err(ApiError::Validation(violation)) && value.reports(violation@)
                },
                None => r matches Err(err) && err@ == ApiErrorView::InvalidJSONBody,
            },
    {
        match decoded {
            Some(value) => match value.validate() {
                Ok(_) => Ok(ValidatedJson(value)),
                Err(violation) => Err(ApiError::Validation(violation)),
            },
            None => Err(ApiError::InvalidJSONBody),
        }
    }
}

} // verus!
