//! What stands between a raw request and a handler: decoding, field rules.

pub mod json_validator;
pub mod rules;
