//! Request authentication for an RPC backend: bearer tokens issued by an
//! identity provider are checked against the provider's published signing
//! keys, resolved to an internal user, and the request is admitted or
//! rejected before it reaches a handler.

pub mod api;
pub mod async_interceptor;
pub mod clock;
pub mod codec;
pub mod config;
pub mod error;
pub mod firebase;
pub mod interceptors;
pub mod keys;
pub mod request;
pub mod seed;
pub mod services;
pub mod signature;
pub mod stores;
pub mod text;
pub mod token;
