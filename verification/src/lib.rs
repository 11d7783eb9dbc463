//! Access control and identifier integrity for the Jonline backend.
//!
//! Every request that reads or changes something sensitive passes through this
//! crate: public identifiers are turned back into storage keys, the fields a
//! user typed are checked, and the permissions of the acting user and of their
//! group membership decide whether the request may go on.

pub mod errors;
pub mod marshaling;
pub mod models;
pub mod permissions;
pub mod rpcs;
pub mod text;
pub mod web;
