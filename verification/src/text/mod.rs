//! Text primitives: the string operations the backend relies on, each stated over the characters
//! of its arguments.

pub mod chars;
pub mod decimal;
pub mod order;
pub mod search;
pub mod split;
