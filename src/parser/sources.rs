//! The source parsers: the only parsers that look at the input tokens.
pub mod always;
pub mod eof;
pub mod next;
pub mod one_of;
pub mod sat;
pub mod tag;

pub use self::always::Always;
pub use self::eof::Eof;
pub use self::next::{Next, NextN};
pub use self::one_of::{NoneOf, OneOf};
pub use self::sat::{Sat, Sat1};
pub use self::tag::Tag;
