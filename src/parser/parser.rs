//! A wrapper that gives any parser chainable constructors and combinators.
use crate::combinators::{And, AndOk, Or};
use crate::parser::apply::{Apply, TryApply, TryApplyErr};
use crate::parser::mapping::{MapErr, MapOk, Mapped};
use crate::parser::parser_fn::{keeps_input, ParserFn, ParserFnMut, ParserFnOnce};
use crate::parser::sequence::{Pipe, SeqErr, SeqOk, Sequenced};
use crate::parser::sources::{Always, Eof, Next, NextN, NoneOf, OneOf, Sat, Sat1, Tag};
use crate::result::{PResult, Parse};
use vstd::pervasive::cloned;
use vstd::prelude::*;

verus! {

/// A parser wrapper with methods for building and chaining parsers.
///
/// It runs exactly as the parser it holds.
#[derive(PartialEq, Eq, Clone, Copy, Default, Debug)]
pub struct Parser<P>(pub P);

impl<P> Parser<P> {
    /// Wraps `parser`.
    pub fn new(parser: P) -> (r: Self)
        ensures
            r.0 == parser,
    {
        Parser(parser)
    }

    /// The wrapped parser.
    pub fn into_inner(self) -> (r: P)
        ensures
            r == self.0,
    {
        self.0
    }

    /// Wraps what `map` makes of the wrapped parser.
    pub fn map_inner<Q, F: FnOnce(P) -> Q>(self, map: F) -> (r: Parser<Q>)
        requires
            map.requires((self.0,)),
        ensures
            map.ensures((self.0,), r.0),
    {
        Parser(map(self.0))
    }

    /// Wraps a shared reference to the wrapped parser.
    pub fn as_ref(&self) -> (r: Parser<&P>)
        ensures
            *r.0 == self.0,
    {
        Parser(&self.0)
    }

    /// Wraps an exclusive reference to the wrapped parser.
    pub fn as_mut(&mut self) -> (r: Parser<&mut P>)
        ensures
            *r.0 == old(self).0,
            final(self).0 == *final(r.0),
    {
        Parser(&mut self.0)
    }
}

impl<'r, P> Parser<&'r P> {
    /// Wraps a clone of the referenced parser.
    pub fn cloned(&self) -> (r: Parser<P>)
        where
            P: Clone,
        ensures
            cloned(*self.0, r.0),
    {
        Parser(self.0.clone())
    }

    /// Wraps a copy of the referenced parser.
    pub fn copied(&self) -> (r: Parser<P>)
        where
            P: Copy,
        ensures
            r.0 == *self.0,
    {
        Parser(*self.0)
    }
}

impl<'r, P> Parser<&'r mut P> {
    /// Wraps a clone of the referenced parser.
    pub fn cloned(&self) -> (r: Parser<P>)
        where
            P: Clone,
        ensures
            cloned(*old(self.0), r.0),
    {
        Parser(self.0.clone())
    }

    /// Wraps a copy of the referenced parser.
    pub fn copied(&self) -> (r: Parser<P>)
        where
            P: Copy,
        ensures
            r.0 == *old(self.0),
    {
        Parser(*self.0)
    }
}

impl Parser<Eof> {
    /// The parser that expects the end of the input.
    pub fn eof() -> (r: Self)
        ensures
            r.0 == Eof,
    {
        Parser(Eof)
    }
}

impl<T> Parser<Always<T>> {
    /// A parser that always outputs `value` and consumes nothing.
    pub fn always(value: T) -> (r: Self)
        ensures
            r.0 == (Always { value }),
    {
        Parser(Always::new(value))
    }
}

impl Parser<Next> {
    /// A parser that takes the next `count` tokens.
    pub fn next(count: usize) -> (r: Self)
        ensures
            r.0 == (Next { count }),
    {
        Parser(Next::new(count))
    }
}

impl<const N: usize> Parser<NextN<N>> {
    /// A parser that takes the next `N` tokens.
    pub fn nextn() -> (r: Self)
        ensures
            r.0 == NextN::<N>,
    {
        Parser(NextN)
    }
}

impl<S> Parser<Tag<S>> {
    /// A parser that matches the tokens of `tag`.
    pub fn tag(tag: S) -> (r: Self)
        ensures
            r.0 == (Tag { tag }),
    {
        Parser(Tag::new(tag))
    }
}

impl<S> Parser<OneOf<S>> {
    /// A parser that takes one token of `one_of`.
    pub fn one_of(one_of: S) -> (r: Self)
        ensures
            r.0 == (OneOf { one_of }),
    {
        Parser(OneOf::new(one_of))
    }
}

impl<S> Parser<NoneOf<S>> {
    /// A parser that takes one token not in `none_of`.
    pub fn none_of(none_of: S) -> (r: Self)
        ensures
            r.0 == (NoneOf { none_of }),
    {
        Parser(NoneOf::new(none_of))
    }
}

impl<F> Parser<Sat<F>> {
    /// A parser that takes tokens while `pred` holds.
    pub fn sat(pred: F) -> (r: Self)
        ensures
            r.0 == (Sat { pred }),
    {
        Parser(Sat::new(pred))
    }
}

impl<F> Parser<Sat1<F>> {
    /// A parser that takes at least one token, and then tokens while `pred` holds.
    pub fn sat1(pred: F) -> (r: Self)
        ensures
            r.0 == (Sat1 { pred }),
    {
        Parser(Sat1::new(pred))
    }
}

impl<P> Parser<P> {
    /// Applies `map` to the value of the wrapped parser.
    pub fn map<F>(self, map: F) -> (r: Parser<Mapped<F, P>>)
        ensures
            r.0 == (Mapped { map, parser: self.0 }),
    {
        Parser(Mapped::new(map, self.0))
    }

    /// Applies `map` to the successes of the wrapped parser.
    pub fn map_ok<F>(self, map: F) -> (r: Parser<MapOk<F, P>>)
        ensures
            r.0 == (MapOk { map, parser: self.0 }),
    {
        Parser(MapOk::new(map, self.0))
    }

    /// Applies `map` to the failures of the wrapped parser.
    pub fn map_err<F>(self, map: F) -> (r: Parser<MapErr<F, P>>)
        ensures
            r.0 == (MapErr { map, parser: self.0 }),
    {
        Parser(MapErr::new(map, self.0))
    }

    /// Applies the function the wrapped parser outputs to the output of `value`.
    pub fn apply<T>(self, value: T) -> (r: Parser<Apply<P, T>>)
        ensures
            r.0 == (Apply { func: self.0, value }),
    {
        Parser(Apply::new(self.0, value))
    }

    /// Applies a successful function of the wrapped parser to a success of `value`.
    pub fn apply_ok<T>(self, value: T) -> (r: Parser<TryApply<P, T>>)
        ensures
            r.0 == (TryApply { func: self.0, value }),
    {
        Parser(TryApply::new(self.0, value))
    }

    /// Applies a failed function of the wrapped parser to a failure of `value`.
    pub fn apply_err<T>(self, value: T) -> (r: Parser<TryApplyErr<P, T>>)
        ensures
            r.0 == (TryApplyErr { func: self.0, value }),
    {
        Parser(TryApplyErr::new(self.0, value))
    }

    /// Passes the whole parse of the wrapped parser through `map`.
    pub fn pipe<F>(self, map: F) -> (r: Parser<Pipe<F, P>>)
        ensures
            r.0 == (Pipe { map, parser: self.0 }),
    {
        Parser(Pipe::new(map, self.0))
    }

    /// Continues with the parser that `map` chooses from the value of the wrapped parser.
    pub fn seq<F>(self, map: F) -> (r: Parser<Sequenced<F, P>>)
        ensures
            r.0 == (Sequenced { map, parser: self.0 }),
    {
        Parser(Sequenced::new(map, self.0))
    }

    /// Continues a success with the parser that `map` chooses from it.
    pub fn seq_ok<F>(self, map: F) -> (r: Parser<SeqOk<F, P>>)
        ensures
            r.0 == (SeqOk { map, parser: self.0 }),
    {
        Parser(SeqOk::new(map, self.0))
    }

    /// Continues a failure with the parser that `map` chooses from it.
    pub fn seq_err<F>(self, map: F) -> (r: Parser<SeqErr<F, P>>)
        ensures
            r.0 == (SeqErr { map, parser: self.0 }),
    {
        Parser(SeqErr::new(map, self.0))
    }

    /// Runs `parser` after the wrapped parser and pairs their values.
    pub fn and<Q>(self, parser: Q) -> (r: Parser<And<P, Q>>)
        ensures
            r.0 == (And { first: self.0, second: parser }),
    {
        Parser(And::new(self.0, parser))
    }

    /// Runs `parser` after a success of the wrapped parser and pairs their successes.
    pub fn and_ok<Q>(self, parser: Q) -> (r: Parser<AndOk<P, Q>>)
        ensures
            r.0 == (AndOk { first: self.0, second: parser }),
    {
        Parser(AndOk::new(self.0, parser))
    }

    /// Tries `parser` on the same input when the wrapped parser fails.
    pub fn or<Q>(self, parser: Q) -> (r: Parser<Or<P, Q>>)
        ensures
            r.0 == (Or { first: self.0, second: parser }),
    {
        Parser(Or::new(self.0, parser))
    }
}

impl<P: ParserFnOnce<I>, I> ParserFnOnce<I> for Parser<P> {
    type Value = P::Value;

    open spec fn wf(&self) -> bool {
        self.0.wf()
    }

    open spec fn produces(&self, input: I, out: Parse<P::Value, I>) -> bool {
        self.0.produces(input, out)
    }

    fn parse_once(self, input: I) -> (out: Parse<P::Value, I>) {
        self.0.parse_once(input)
    }
}

impl<P: ParserFnMut<I>, I> ParserFnMut<I> for Parser<P> {
    fn parse_mut(&mut self, input: I) -> (out: Parse<P::Value, I>) {
        self.0.parse_mut(input)
    }
}

impl<P: ParserFn<I>, I> ParserFn<I> for Parser<P> {
    fn parse(&self, input: I) -> (out: Parse<P::Value, I>) {
        self.0.parse(input)
    }
}

/// The wrapper consumes input exactly as the parser it holds.
pub proof fn lemma_parser_keeps_input<'a, T: 'a, P, V, E>(p: Parser<P>)
    where
        P: ParserFnOnce<&'a [T], Value = PResult<V, E>>,
    requires
        keeps_input::<'a, T, V, E, P>(p.0),
    ensures
        keeps_input::<'a, T, V, E, Parser<P>>(p),
{
}

} // verus!
