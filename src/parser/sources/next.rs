//! Parsers that take a given number of tokens.
use crate::parser::parser_fn::{consumes_prefix_only, keeps_input, ParserFn, ParserFnMut, ParserFnOnce};
use crate::result::{Never, PResult, Parse};
use vstd::prelude::*;

verus! {

/// The outcome of taking `count` tokens from `input`: the first `count`
/// tokens, or a request for the missing ones.
pub open spec fn spec_take<'a, T>(count: usize, input: &'a [T], out: Parse<PResult<&'a [T], Never>, &'a [T]>) -> bool {
    if count > input@.len() {
        &&& out.value == PResult::<&'a [T], Never>::Pending((count - input@.len()) as usize)
        &&& out.unused == input
    } else {
        &&& out.value matches PResult::Output(w) && w@ == input@.take(count as int)
        &&& out.unused@ == input@.skip(count as int)
    }
}

fn take<'a, T>(count: usize, input: &'a [T]) -> (out: Parse<PResult<&'a [T], Never>, &'a [T]>)
    ensures
        spec_take(count, input, out),
{
    if count > input.len() {
        Parse::new(PResult::Pending(count - input.len()), input)
    } else {
        let (value, unused) = input.split_at(count);
        Parse::new(PResult::Output(value), unused)
    }
}

proof fn lemma_take_keeps_input<'a, T: 'a>(count: usize)
    ensures
        forall|input: &'a [T], out: Parse<PResult<&'a [T], Never>, &'a [T]>|
            #[trigger] spec_take(count, input, out) ==> consumes_prefix_only(input@, out)
                && (out.value matches PResult::Output(w) ==> input@ == w@ + out.unused@),
{
    assert forall|input: &'a [T], out: Parse<PResult<&'a [T], Never>, &'a [T]>|
        #[trigger] spec_take(count, input, out) implies consumes_prefix_only(input@, out)
            && (out.value matches PResult::Output(w) ==> input@ == w@ + out.unused@) by {
        if count <= input@.len() {
            assert(input@ == input@.take(count as int) + input@.skip(count as int));
            assert(out.unused@ == input@.subrange(
                input@.len() - out.unused@.len(),
                input@.len() as int,
            ));
        }
    }
}

/// A parser that takes the next `count` tokens.
///
/// With fewer than `count` tokens it asks for exactly the missing number.
/// It never fails.
#[derive(PartialEq, Eq, Clone, Copy, Default, Debug)]
pub struct Next {
    /// The number of tokens to take.
    pub count: usize,
}

impl Next {
    /// A parser that takes the next `count` tokens.
    pub fn new(count: usize) -> (r: Self)
        ensures
            r.count == count,
    {
        Next { count }
    }
}

impl<'a, T> ParserFnOnce<&'a [T]> for Next {
    type Value = PResult<&'a [T], Never>;

    open spec fn wf(&self) -> bool {
        true
    }

    open spec fn produces(&self, input: &'a [T], out: Parse<Self::Value, &'a [T]>) -> bool {
        spec_take(self.count, input, out)
    }

    fn parse_once(self, input: &'a [T]) -> (out: Parse<Self::Value, &'a [T]>) {
        take(self.count, input)
    }
}

impl<'a, T> ParserFnMut<&'a [T]> for Next {
    fn parse_mut(&mut self, input: &'a [T]) -> (out: Parse<Self::Value, &'a [T]>) {
        take(self.count, input)
    }
}

impl<'a, T> ParserFn<&'a [T]> for Next {
    fn parse(&self, input: &'a [T]) -> (out: Parse<Self::Value, &'a [T]>) {
        take(self.count, input)
    }
}

/// `Next` consumes nothing unless it succeeds, and then exactly the tokens it outputs.
pub proof fn lemma_next_keeps_input<'a, T: 'a>(p: Next)
    ensures
        keeps_input::<'a, T, &'a [T], Never, Next>(p),
        forall|input: &'a [T], out: Parse<PResult<&'a [T], Never>, &'a [T]>|
            #[trigger] p.produces(input, out) ==> (out.value matches PResult::Output(w)
                ==> input@ == w@ + out.unused@),
{
    lemma_take_keeps_input::<'a, T>(p.count);
}

/// A parser that takes the next `N` tokens, a count fixed by its type.
#[derive(PartialEq, Eq, Clone, Copy, Default, Debug)]
pub struct NextN<const N: usize>;

impl<const N: usize> NextN<N> {
    /// The `Next` parser with the same count.
    pub fn to_next(self) -> (r: Next)
        ensures
            r.count == N,
    {
        Next::new(N)
    }
}

impl<'a, T, const N: usize> ParserFnOnce<&'a [T]> for NextN<N> {
    type Value = PResult<&'a [T], Never>;

    open spec fn wf(&self) -> bool {
        true
    }

    open spec fn produces(&self, input: &'a [T], out: Parse<Self::Value, &'a [T]>) -> bool {
        spec_take(N, input, out)
    }

    fn parse_once(self, input: &'a [T]) -> (out: Parse<Self::Value, &'a [T]>) {
        take(N, input)
    }
}

impl<'a, T, const N: usize> ParserFnMut<&'a [T]> for NextN<N> {
    fn parse_mut(&mut self, input: &'a [T]) -> (out: Parse<Self::Value, &'a [T]>) {
        take(N, input)
    }
}

impl<'a, T, const N: usize> ParserFn<&'a [T]> for NextN<N> {
    fn parse(&self, input: &'a [T]) -> (out: Parse<Self::Value, &'a [T]>) {
        take(N, input)
    }
}

/// `NextN` consumes nothing unless it succeeds, and then exactly the `N` tokens it outputs.
pub proof fn lemma_nextn_keeps_input<'a, T: 'a, const N: usize>(p: NextN<N>)
    ensures
        keeps_input::<'a, T, &'a [T], Never, NextN<N>>(p),
        forall|input: &'a [T], out: Parse<PResult<&'a [T], Never>, &'a [T]>|
            #[trigger] p.produces(input, out) ==> (out.value matches PResult::Output(w)
                ==> input@ == w@ + out.unused@ && w@.len() == N),
{
    lemma_take_keeps_input::<'a, T>(N);
}

} // verus!
