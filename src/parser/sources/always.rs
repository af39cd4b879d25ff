//! The parser that always succeeds with a fixed value.
use crate::parser::parser_fn::{ParserFn, ParserFnMut, ParserFnOnce};
use crate::result::Parse;
use vstd::pervasive::cloned;
use vstd::prelude::*;

verus! {

/// A parser that outputs a clone of its value and consumes nothing.
#[derive(PartialEq, Eq, Clone, Copy, Default, Debug)]
pub struct Always<T> {
    /// The value to produce.
    pub value: T,
}

impl<T> Always<T> {
    /// A parser that always outputs `value`.
    pub fn new(value: T) -> (r: Self)
        ensures
            r.value == value,
    {
        Always { value }
    }

    /// The value this parser outputs.
    pub fn into_inner(self) -> (r: T)
        ensures
            r == self.value,
    {
        self.value
    }
}

impl<T: Clone, I> ParserFnOnce<I> for Always<T> {
    type Value = T;

    open spec fn wf(&self) -> bool {
        true
    }

    open spec fn produces(&self, input: I, out: Parse<T, I>) -> bool {
        &&& cloned(self.value, out.value)
        &&& out.unused == input
    }

    fn parse_once(self, input: I) -> (out: Parse<T, I>) {
        Parse::new(self.value, input)
    }
}

impl<T: Clone, I> ParserFnMut<I> for Always<T> {
    fn parse_mut(&mut self, input: I) -> (out: Parse<T, I>) {
        Parse::new(self.value.clone(), input)
    }
}

impl<T: Clone, I> ParserFn<I> for Always<T> {
    fn parse(&self, input: I) -> (out: Parse<T, I>) {
        Parse::new(self.value.clone(), input)
    }
}

} // verus!
