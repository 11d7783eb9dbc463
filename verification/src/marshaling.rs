//! Storage values as clients see them, and back.

pub mod id_marshaling;
