//! The combinators: sequences, alternatives, branches, optional parsers and
//! repetitions.
pub mod alt;
pub mod basics;
pub mod branch;
pub mod iter;
pub mod sequential;
