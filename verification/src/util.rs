//! Small pure helpers shared by the operators.

pub mod domain;
pub mod hex;
pub mod priority;
pub mod search;
pub mod text;
