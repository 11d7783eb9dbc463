//! What the web pages of the server need decided.

pub mod secure_redirect;
