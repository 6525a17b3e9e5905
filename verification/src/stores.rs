//! What the service keeps in its relational store, and how it asks for it.

pub mod user;
