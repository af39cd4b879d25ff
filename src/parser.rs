//! Parsers: the capability traits, the source parsers and the combinators.
pub mod apply;
pub mod mapping;
mod parser;
pub mod parser_fn;
pub mod sequence;
pub mod sources;

pub use self::parser::Parser;
pub use self::parser_fn::{ParserFn, ParserFnMut, ParserFnOnce};
