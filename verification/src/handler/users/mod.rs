//! Registration and login.

pub mod create;
pub mod login;
