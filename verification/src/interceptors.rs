//! The interceptors that requests pass on their way to a handler.

pub mod authn;
