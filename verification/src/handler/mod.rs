//! The decisions of the route handlers. Storage is not reached from here:
//! a handler says what it needs of storage and is told what came back.

pub mod not_found;
pub mod users;
