//! Helpers that the handlers share.

pub mod jwt;
