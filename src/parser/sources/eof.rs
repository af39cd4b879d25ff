//! The end-of-input parser.
use crate::parser::parser_fn::{consumes_prefix_only, keeps_input, ParserFn, ParserFnMut, ParserFnOnce};
use crate::result::{PResult, Parse};
use vstd::prelude::*;

verus! {

/// A parser that expects the input to be empty.
///
/// On empty input it succeeds with an empty witness; otherwise it fails with
/// the whole input as the witness. It never asks for more input.
#[derive(PartialEq, Eq, Clone, Copy, Default, Debug)]
pub struct Eof;

impl Eof {
    /// The outcome of `Eof` on `input`.
    pub open spec fn spec_eof<'a, T>(input: &'a [T], out: Parse<PResult<&'a [T], &'a [T]>, &'a [T]>) -> bool {
        &&& out.unused == input
        &&& input@.len() == 0 ==> (out.value matches PResult::Output(w) && w@.len() == 0)
        &&& input@.len() > 0 ==> out.value == PResult::<&'a [T], &'a [T]>::Failed(input)
    }

    fn run<'a, T>(input: &'a [T]) -> (out: Parse<PResult<&'a [T], &'a [T]>, &'a [T]>)
        ensures
            Self::spec_eof(input, out),
    {
        if input.len() == 0 {
            let (empty, _) = input.split_at(0);
            Parse::new(PResult::Output(empty), input)
        } else {
            Parse::new(PResult::Failed(input), input)
        }
    }
}

impl<'a, T> ParserFnOnce<&'a [T]> for Eof {
    type Value = PResult<&'a [T], &'a [T]>;

    open spec fn wf(&self) -> bool {
        true
    }

    open spec fn produces(&self, input: &'a [T], out: Parse<Self::Value, &'a [T]>) -> bool {
        Self::spec_eof(input, out)
    }

    fn parse_once(self, input: &'a [T]) -> (out: Parse<Self::Value, &'a [T]>) {
        Self::run(input)
    }
}

impl<'a, T> ParserFnMut<&'a [T]> for Eof {
    fn parse_mut(&mut self, input: &'a [T]) -> (out: Parse<Self::Value, &'a [T]>) {
        Self::run(input)
    }
}

impl<'a, T> ParserFn<&'a [T]> for Eof {
    fn parse(&self, input: &'a [T]) -> (out: Parse<Self::Value, &'a [T]>) {
        Self::run(input)
    }
}

/// `Eof` consumes nothing unless it succeeds, and then only a prefix.
pub proof fn lemma_eof_keeps_input<'a, T: 'a>()
    ensures
        keeps_input::<'a, T, &'a [T], &'a [T], Eof>(Eof),
{
    assert forall|input: &'a [T], out: Parse<PResult<&'a [T], &'a [T]>, &'a [T]>|
        #[trigger] Eof.produces(input, out) implies consumes_prefix_only(input@, out) by {
        assert(input@.subrange(0, input@.len() as int) == input@);
    }
}

} // verus!
