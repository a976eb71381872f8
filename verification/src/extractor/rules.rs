//! The field rules that requests are held to. The checks themselves are the
//! `validator` crate's; what is done with their verdicts is decided here.

use validator::{ValidateEmail, ValidateLength, ValidationError};
use vstd::prelude::*;
use vstd::string::*;

use crate::error::api_error::{Violation, ViolationView};

verus! {

/// Whether `validator` takes `address` for an email address.
pub uninterp spec fn email_accepted(address: Seq<char>) -> bool;

/// The sentence with which `validator` describes `address` as a broken email
/// rule that has no message of its own.
pub uninterp spec fn unlabelled_email_text(address: Seq<char>) -> Seq<char>;

/// Calls `validator::ValidateLength::validate_length` on a string, with both
/// bounds and no exact length. The crate counts the string's characters and
/// accepts a count from `min` to `max`, both included.
#[verifier::external_body]
pub(crate) fn length_within(value: &str, min: u64, max: u64) -> (ok: bool)
    ensures
        ok == (min <= value@.len() <= max),
{
    value.validate_length(Some(min), Some(max), None)
}

/// Calls `validator::ValidateEmail::validate_email` on a string. The verdict
/// depends on the string alone; `email_accepted` is its name.
#[verifier::external_body]
pub(crate) fn is_email(address: &str) -> (ok: bool)
    ensures
        ok == email_accepted(address@),
{
    address.validate_email()
}

/// Renders, through `validator::ValidationError`'s `Display`, a broken email
/// rule without a message: the code `email` and the offending value as the
/// one parameter. The text depends on the value alone;
/// `unlabelled_email_text` is its name.
#[verifier::external_body]
pub(crate) fn describe_unlabelled_email(address: &str) -> (text: String)
    ensures
        text@ == unlabelled_email_text(address@),
{
    let mut err = ValidationError::new("email");
    err.add_param(std::borrow::Cow::from("value"), &address);
    err.to_string()
}

/// Renders, through `validator::ValidationError`'s `Display`, a broken length
/// rule without a message: the code `length` with the bounds and the
/// offending value as parameters. The crate lists the parameters in the order
/// of a hash map, so nothing is said of the text.
#[verifier::external_body]
pub(crate) fn describe_unlabelled_length(value: &str, min: u64, max: u64) -> (text: String)
{
    let mut err = ValidationError::new("length");
    err.add_param(std::borrow::Cow::from("min"), &min);
    err.add_param(std::borrow::Cow::from("max"), &max);
    err.add_param(std::borrow::Cow::from("value"), &value);
    err.to_string()
}

/// The code under which a broken length rule is reported.
pub open spec fn length_code() -> Seq<char> {
    "length"@
}

/// The code under which a broken email rule is reported.
pub open spec fn email_code() -> Seq<char> {
    "email"@
}

/// A breach of a length rule, described by `message`.
pub fn length_violation(message: String) -> (violation: Violation)
    ensures
        violation@ == (ViolationView { code: length_code(), message: message@ }),
{
    Violation { code: String::from_str("length"), message }
}

/// A breach of the email rule, described by `message`.
pub fn email_violation(message: String) -> (violation: Violation)
    ensures
        violation@ == (ViolationView { code: email_code(), message: message@ }),
{
    Violation { code: String::from_str("email"), message }
}

} // verus!
