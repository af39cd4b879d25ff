//! The three capability tiers of a parser.
//!
//! A parser may be run once by value ([`ParserFnOnce`]), any number of times
//! through an exclusive reference ([`ParserFnMut`]), or any number of times
//! through a shared reference ([`ParserFn`]). Each tier extends the one before,
//! so a shared parser can stand wherever a single-use one is asked for.
use crate::result::{PResult, Parse};
use vstd::prelude::*;

verus! {

/// A parser that may be run once.
///
/// Running it on some input gives a value and the part of the input it did
/// not consume.
pub trait ParserFnOnce<Input>: Sized {
    /// The value the parser produces.
    type Value;

    /// The parser is ready to run: every function it holds accepts each
    /// argument it may be handed.
    spec fn wf(&self) -> bool;

    /// `out` is a result the parser may give when run on `input`.
    spec fn produces(&self, input: Input, out: Parse<Self::Value, Input>) -> bool;

    /// Runs the parser, consuming it.
    fn parse_once(self, input: Input) -> (out: Parse<Self::Value, Input>)
        requires
            self.wf(),
        ensures
            self.produces(input, out),
    ;
}

/// A parser that may be run any number of times, possibly changing its own state.
pub trait ParserFnMut<Input>: ParserFnOnce<Input> {
    /// Runs the parser; it stays ready for another run.
    fn parse_mut(&mut self, input: Input) -> (out: Parse<Self::Value, Input>)
        requires
            old(self).wf(),
        ensures
            old(self).produces(input, out),
            (*final(self)).wf(),
    ;
}

/// A parser that may be run any number of times through a shared reference.
pub trait ParserFn<Input>: ParserFnMut<Input> {
    /// Runs the parser.
    fn parse(&self, input: Input) -> (out: Parse<Self::Value, Input>)
        requires
            self.wf(),
        ensures
            self.produces(input, out),
    ;
}

/// A shared reference to a shared parser is a parser of every tier.
impl<'r, Input, P: ParserFn<Input>> ParserFnOnce<Input> for &'r P {
    type Value = P::Value;

    open spec fn wf(&self) -> bool {
        (**self).wf()
    }

    open spec fn produces(&self, input: Input, out: Parse<P::Value, Input>) -> bool {
        (**self).produces(input, out)
    }

    fn parse_once(self, input: Input) -> (out: Parse<P::Value, Input>) {
        (*self).parse(input)
    }
}

impl<'r, Input, P: ParserFn<Input>> ParserFnMut<Input> for &'r P {
    fn parse_mut(&mut self, input: Input) -> (out: Parse<P::Value, Input>) {
        (**self).parse(input)
    }
}

impl<'r, Input, P: ParserFn<Input>> ParserFn<Input> for &'r P {
    fn parse(&self, input: Input) -> (out: Parse<P::Value, Input>) {
        (**self).parse(input)
    }
}

/// `rest` is a suffix of `input`.
pub open spec fn is_suffix_of<T>(rest: Seq<T>, input: Seq<T>) -> bool {
    &&& rest.len() <= input.len()
    &&& rest == input.subrange(input.len() - rest.len(), input.len() as int)
}

/// An outcome that consumed nothing unless it succeeded, and on success
/// left a suffix of `input` unused.
pub open spec fn consumes_prefix_only<T, V, E>(input: Seq<T>, out: Parse<PResult<V, E>, &[T]>) -> bool {
    match out.value {
        PResult::Output(_) => is_suffix_of(out.unused@, input),
        _ => out.unused@ == input,
    }
}

/// Every result that `p` may give consumes input only on success, and then
/// only a prefix of it.
pub open spec fn keeps_input<'a, T: 'a, V, E, P: ParserFnOnce<&'a [T], Value = PResult<V, E>>>(
    p: P,
) -> bool {
    forall|input: &'a [T], out: Parse<PResult<V, E>, &'a [T]>|
        #[trigger] p.produces(input, out) ==> consumes_prefix_only(input@, out)
}

/// `p` gives at most one result on each input.
pub open spec fn is_deterministic<Input, P: ParserFnOnce<Input>>(p: P) -> bool {
    forall|input: Input, a: Parse<P::Value, Input>, b: Parse<P::Value, Input>|
        #![trigger p.produces(input, a), p.produces(input, b)]
        p.produces(input, a) && p.produces(input, b) ==> a == b
}

/// A shared reference consumes input exactly as the parser behind it.
pub proof fn lemma_ref_keeps_input<'a, 'r, T: 'a, P, V, E>(p: &'r P)
    where
        P: ParserFn<&'a [T], Value = PResult<V, E>>,
    requires
        keeps_input::<'a, T, V, E, P>(*p),
    ensures
        keeps_input::<'a, T, V, E, &'r P>(p),
{
}

/// Being a suffix is transitive.
pub broadcast proof fn lemma_suffix_trans<T>(a: Seq<T>, b: Seq<T>, c: Seq<T>)
    requires
        is_suffix_of(a, b),
        is_suffix_of(b, c),
    ensures
        #![trigger is_suffix_of(a, b), is_suffix_of(b, c)]
        is_suffix_of(a, c),
{
    assert(a == c.subrange(c.len() - a.len(), c.len() as int));
}

/// A sequence is a suffix of itself.
pub proof fn lemma_suffix_refl<T>(a: Seq<T>)
    ensures
        is_suffix_of(a, a),
{
    assert(a == a.subrange(0, a.len() as int));
}

} // verus!
