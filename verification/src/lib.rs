//! A small parser combinator library.
//!
//! A parser takes an input and either fails with an error or returns an
//! output together with the input that it did not consume. Parsers are
//! combined by higher-order combinators: sequences (tuples), ordered
//! alternatives, optional parsers and repetitions.
mod parser;
mod combinators;
mod err;

pub use parser::{
    Parser,
    Mapped,
    AndThen,
    MapErr,
    yields_on_clone,
    fails_on_clone,
    accepts_clones,
    deterministic,
    functional,
    clones_are_equal,
    map_ok,
    and_then_ok,
    and_then_err,
    lemma_function_is_parser,
    lemma_yields_on_clone_is_yields,
    lemma_clones_are_transparent,
    lemma_reference_clones_are_equal,
    lemma_map_deterministic,
    lemma_map_err_deterministic,
    lemma_and_then_deterministic,
    lemma_map_identity,
    lemma_map_composition,
    lemma_and_then_ok_is_map,
};
pub use combinators::{alt, branch, sequential, iter, basics};
pub use err::AltErr;
