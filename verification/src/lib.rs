//! User registration and login rules for a small HTTP backend: the error
//! taxonomy and its response mapping, request validation, token issuance and
//! verification, and the decisions that the route handlers take.

pub mod config;
pub mod db;
pub mod error;
pub mod extractor;
pub mod handler;
pub mod routes;
pub mod utils;
