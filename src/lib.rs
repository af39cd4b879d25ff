//! Composable parsers over token slices.
//!
//! A parser consumes a prefix of its input and reports one of three outcomes:
//! a value, a definite failure, or a request for more input. Small parsers are
//! combined into larger ones by mapping their results, pairing them, or choosing
//! the next parser from an earlier result.
pub mod combinators;
pub mod parser;
pub mod result;

pub use crate::parser::{Parser, ParserFn, ParserFnMut, ParserFnOnce};
pub use crate::result::{Never, PResult, Parse};
