//! What this library takes for granted of the code it calls.
//!
//! Nothing in these files is proved. Each item states, of one function of
//! the `ropey` crate or of `std`, what the rest of the library relies on.

pub mod rope;
pub mod string;
