//! A greeter: the one line of text that the program writes to standard output.
//!
//! Writing is left to the caller; this library fixes what is written.
pub mod helpers;

pub use helpers::greet;
