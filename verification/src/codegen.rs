//! The generators of bridge code.

pub mod generate_swift;
