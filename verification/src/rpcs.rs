//! What the request handlers share.

pub mod validations;
