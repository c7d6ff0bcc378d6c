//! Kitchen guide core: credential and token codecs, the access-control guard,
//! form validation and the upload storage rules of a catalog web application.
//!
//! Every function here is verified against its contract. Calls into other
//! crates are confined to small trusted wrappers, each documented where it is
//! declared.

pub mod auth;
pub mod handlers;
pub mod ids;
pub mod middleware;
pub mod models;
pub mod steps;
pub mod text;
pub mod utils;
