//! The services behind the interceptors.

pub mod user;
