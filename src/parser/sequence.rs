//! Parsers whose later steps depend on what an earlier parser produced.
use crate::parser::parser_fn::{
    consumes_prefix_only, keeps_input, lemma_suffix_refl, lemma_suffix_trans, ParserFn, ParserFnMut,
    ParserFnOnce,
};
use crate::parser::apply::{TryApply, TryApplyErr};
use crate::result::{PResult, Parse};
use vstd::prelude::*;

verus! {

/// A parser that applies a successful function to a successful argument.
pub type ApplyOk<F, P> = TryApply<F, P>;

/// A parser that applies a failure function to a failed argument.
pub type ApplyErr<F, P> = TryApplyErr<F, P>;

/// A parser that runs `parser` and hands its whole parse, value and unused
/// input, to `map`.
#[derive(Clone, Copy, Default, Debug)]
pub struct Pipe<F, P> {
    /// The mapping of the parse.
    pub map: F,
    /// The parser run first.
    pub parser: P,
}

impl<F, P> Pipe<F, P> {
    /// A parser that passes the parse of `parser` through `map`.
    pub fn new(map: F, parser: P) -> (r: Self)
        ensures
            r.map == map,
            r.parser == parser,
    {
        Pipe { map, parser }
    }
}

impl<F, P, V, T, I> ParserFnOnce<I> for Pipe<F, P>
where
    P: ParserFnOnce<I, Value = V>,
    F: FnOnce(Parse<V, I>) -> Parse<T, I>,
{
    type Value = T;

    open spec fn wf(&self) -> bool {
        &&& self.parser.wf()
        &&& forall|p: Parse<V, I>| #[trigger] self.map.requires((p,))
    }

    open spec fn produces(&self, input: I, out: Parse<T, I>) -> bool {
        exists|p: Parse<V, I>| #[trigger] self.parser.produces(input, p) && self.map.ensures((p,), out)
    }

    fn parse_once(self, input: I) -> (out: Parse<T, I>) {
        let p = self.parser.parse_once(input);
        proof {
            assert(self.parser.produces(input, p));
        }
        (self.map)(p)
    }
}

impl<F, P, V, T, I> ParserFnMut<I> for Pipe<F, P>
where
    P: ParserFnMut<I, Value = V>,
    F: FnMut(Parse<V, I>) -> Parse<T, I>,
{
    fn parse_mut(&mut self, input: I) -> (out: Parse<T, I>) {
        let p = self.parser.parse_mut(input);
        proof {
            assert(old(self).parser.produces(input, p));
        }
        (self.map)(p)
    }
}

impl<F, P, V, T, I> ParserFn<I> for Pipe<F, P>
where
    P: ParserFn<I, Value = V>,
    F: Fn(Parse<V, I>) -> Parse<T, I>,
{
    fn parse(&self, input: I) -> (out: Parse<T, I>) {
        let p = self.parser.parse(input);
        proof {
            assert(self.parser.produces(input, p));
        }
        (self.map)(p)
    }
}

/// A parser that runs `parser`, chooses the next parser from its value with
/// `map`, and runs that parser on what `parser` left unused.
#[derive(Clone, Copy, Default, Debug)]
pub struct Sequenced<F, P> {
    /// The choice of the next parser.
    pub map: F,
    /// The parser run first.
    pub parser: P,
}

impl<F, P> Sequenced<F, P> {
    /// A parser that continues `parser` with the parser `map` chooses.
    pub fn new(map: F, parser: P) -> (r: Self)
        ensures
            r.map == map,
            r.parser == parser,
    {
        Sequenced { map, parser }
    }
}

impl<F, P, Q, A, T, I> ParserFnOnce<I> for Sequenced<F, P>
where
    P: ParserFnOnce<I, Value = A>,
    F: FnOnce(A) -> Q,
    Q: ParserFnOnce<I, Value = T>,
{
    type Value = T;

    open spec fn wf(&self) -> bool {
        &&& self.parser.wf()
        &&& forall|a: A| #[trigger] self.map.requires((a,))
        &&& forall|a: A, q: Q| #[trigger] self.map.ensures((a,), q) ==> q.wf()
    }

    open spec fn produces(&self, input: I, out: Parse<T, I>) -> bool {
        exists|p: Parse<A, I>, q: Q|
            #![trigger self.parser.produces(input, p), self.map.ensures((p.value,), q)]
            self.parser.produces(input, p) && self.map.ensures((p.value,), q) && q.produces(
                p.unused,
                out,
            )
    }

    fn parse_once(self, input: I) -> (out: Parse<T, I>) {
        let p = self.parser.parse_once(input);
        let ghost pg: Parse<A, I> = p;
        let Parse { value, unused } = p;
        let q = (self.map)(value);
        proof {
            assert(self.parser.produces(input, pg));
            assert(self.map.ensures((pg.value,), q));
        }
        q.parse_once(unused)
    }
}

impl<F, P, Q, A, T, I> ParserFnMut<I> for Sequenced<F, P>
where
    P: ParserFnMut<I, Value = A>,
    F: FnMut(A) -> Q,
    Q: ParserFnOnce<I, Value = T>,
{
    fn parse_mut(&mut self, input: I) -> (out: Parse<T, I>) {
        let p = self.parser.parse_mut(input);
        let ghost pg: Parse<A, I> = p;
        let Parse { value, unused } = p;
        let q = (self.map)(value);
        proof {
            assert(old(self).parser.produces(input, pg));
            assert(old(self).map.ensures((pg.value,), q));
        }
        q.parse_once(unused)
    }
}

impl<F, P, Q, A, T, I> ParserFn<I> for Sequenced<F, P>
where
    P: ParserFn<I, Value = A>,
    F: Fn(A) -> Q,
    Q: ParserFnOnce<I, Value = T>,
{
    fn parse(&self, input: I) -> (out: Parse<T, I>) {
        let p = self.parser.parse(input);
        let ghost pg: Parse<A, I> = p;
        let Parse { value, unused } = p;
        let q = (self.map)(value);
        proof {
            assert(self.parser.produces(input, pg));
            assert(self.map.ensures((pg.value,), q));
        }
        q.parse_once(unused)
    }
}

/// A parser that runs `parser`, and on success chooses the next parser from
/// the value with `map` and runs it on what `parser` left unused.
///
/// A pending or failed outcome of either step is returned with the starting
/// input as unused input.
#[derive(Clone, Copy, Default, Debug)]
pub struct SeqOk<F, P> {
    /// The choice of the next parser on success.
    pub map: F,
    /// The parser run first.
    pub parser: P,
}

impl<F, P> SeqOk<F, P> {
    /// A parser that continues the successes of `parser` with the parser `map` chooses.
    pub fn new(map: F, parser: P) -> (r: Self)
        ensures
            r.map == map,
            r.parser == parser,
    {
        SeqOk { map, parser }
    }
}

impl<F, P, Q, A, B, E, I: Copy> ParserFnOnce<I> for SeqOk<F, P>
where
    P: ParserFnOnce<I, Value = PResult<A, E>>,
    F: FnOnce(A) -> Q,
    Q: ParserFnOnce<I, Value = PResult<B, E>>,
{
    type Value = PResult<B, E>;

    open spec fn wf(&self) -> bool {
        &&& self.parser.wf()
        &&& forall|a: A| #[trigger] self.map.requires((a,))
        &&& forall|a: A, q: Q| #[trigger] self.map.ensures((a,), q) ==> q.wf()
    }

    open spec fn produces(&self, input: I, out: Parse<PResult<B, E>, I>) -> bool {
        exists|p: Parse<PResult<A, E>, I>|
            #[trigger] self.parser.produces(input, p) && match p.value {
                PResult::Output(a) => exists|q: Q, r: Parse<PResult<B, E>, I>|
                    #![trigger self.map.ensures((a,), q), q.produces(p.unused, r)]
                    self.map.ensures((a,), q) && q.produces(p.unused, r) && match r.value {
                        PResult::Output(_) => out == r,
                        PResult::Pending(n) => out == Parse {
                            value: PResult::<B, E>::Pending(n),
                            unused: input,
                        },
                        PResult::Failed(e) => out == Parse {
                            value: PResult::<B, E>::Failed(e),
                            unused: input,
                        },
                    },
                PResult::Pending(n) => out == Parse {
                    value: PResult::<B, E>::Pending(n),
                    unused: input,
                },
                PResult::Failed(e) => out == Parse { value: PResult::<B, E>::Failed(e), unused: input },
            }
    }

    fn parse_once(self, input: I) -> (out: Parse<PResult<B, E>, I>) {
        let p = self.parser.parse_once(input);
        let ghost pg: Parse<PResult<A, E>, I> = p;
        proof {
            assert(self.parser.produces(input, pg));
        }
        let Parse { value, unused } = p;
        match value {
            PResult::Output(a) => {
                let ghost av = a;
                let q = (self.map)(a);
                let r = q.parse_once(unused);
                proof {
                    assert(self.map.ensures((av,), q));
                    assert(q.produces(pg.unused, r));
                }
                match r.value {
                    PResult::Output(b) => Parse::new(PResult::Output(b), r.unused),
                    PResult::Pending(n) => Parse::new(PResult::Pending(n), input),
                    PResult::Failed(e) => Parse::new(PResult::Failed(e), input),
                }
            },
            PResult::Pending(n) => Parse::new(PResult::Pending(n), input),
            PResult::Failed(e) => Parse::new(PResult::Failed(e), input),
        }
    }
}

impl<F, P, Q, A, B, E, I: Copy> ParserFnMut<I> for SeqOk<F, P>
where
    P: ParserFnMut<I, Value = PResult<A, E>>,
    F: FnMut(A) -> Q,
    Q: ParserFnOnce<I, Value = PResult<B, E>>,
{
    fn parse_mut(&mut self, input: I) -> (out: Parse<PResult<B, E>, I>) {
        let p = self.parser.parse_mut(input);
        let ghost pg: Parse<PResult<A, E>, I> = p;
        proof {
            assert(old(self).parser.produces(input, pg));
        }
        let Parse { value, unused } = p;
        match value {
            PResult::Output(a) => {
                let ghost av = a;
                let q = (self.map)(a);
                let r = q.parse_once(unused);
                proof {
                    assert(old(self).map.ensures((av,), q));
                    assert(q.produces(pg.unused, r));
                }
                match r.value {
                    PResult::Output(b) => Parse::new(PResult::Output(b), r.unused),
                    PResult::Pending(n) => Parse::new(PResult::Pending(n), input),
                    PResult::Failed(e) => Parse::new(PResult::Failed(e), input),
                }
            },
            PResult::Pending(n) => Parse::new(PResult::Pending(n), input),
            PResult::Failed(e) => Parse::new(PResult::Failed(e), input),
        }
    }
}

impl<F, P, Q, A, B, E, I: Copy> ParserFn<I> for SeqOk<F, P>
where
    P: ParserFn<I, Value = PResult<A, E>>,
    F: Fn(A) -> Q,
    Q: ParserFnOnce<I, Value = PResult<B, E>>,
{
    fn parse(&self, input: I) -> (out: Parse<PResult<B, E>, I>) {
        let p = self.parser.parse(input);
        let ghost pg: Parse<PResult<A, E>, I> = p;
        proof {
            assert(self.parser.produces(input, pg));
        }
        let Parse { value, unused } = p;
        match value {
            PResult::Output(a) => {
                let ghost av = a;
                let q = (self.map)(a);
                let r = q.parse_once(unused);
                proof {
                    assert(self.map.ensures((av,), q));
                    assert(q.produces(pg.unused, r));
                }
                match r.value {
                    PResult::Output(b) => Parse::new(PResult::Output(b), r.unused),
                    PResult::Pending(n) => Parse::new(PResult::Pending(n), input),
                    PResult::Failed(e) => Parse::new(PResult::Failed(e), input),
                }
            },
            PResult::Pending(n) => Parse::new(PResult::Pending(n), input),
            PResult::Failed(e) => Parse::new(PResult::Failed(e), input),
        }
    }
}

/// A parser that runs `parser`, and on failure chooses the next parser from
/// the failure with `map` and runs it on what `parser` left unused.
///
/// A success of either step is returned as it is; pending and failed
/// outcomes carry the starting input as unused input.
#[derive(Clone, Copy, Default, Debug)]
pub struct SeqErr<F, P> {
    /// The choice of the next parser on failure.
    pub map: F,
    /// The parser run first.
    pub parser: P,
}

impl<F, P> SeqErr<F, P> {
    /// A parser that continues the failures of `parser` with the parser `map` chooses.
    pub fn new(map: F, parser: P) -> (r: Self)
        ensures
            r.map == map,
            r.parser == parser,
    {
        SeqErr { map, parser }
    }
}

impl<F, P, Q, A, E, U, I: Copy> ParserFnOnce<I> for SeqErr<F, P>
where
    P: ParserFnOnce<I, Value = PResult<A, E>>,
    F: FnOnce(E) -> Q,
    Q: ParserFnOnce<I, Value = PResult<A, U>>,
{
    type Value = PResult<A, U>;

    open spec fn wf(&self) -> bool {
        &&& self.parser.wf()
        &&& forall|e: E| #[trigger] self.map.requires((e,))
        &&& forall|e: E, q: Q| #[trigger] self.map.ensures((e,), q) ==> q.wf()
    }

    open spec fn produces(&self, input: I, out: Parse<PResult<A, U>, I>) -> bool {
        exists|p: Parse<PResult<A, E>, I>|
            #[trigger] self.parser.produces(input, p) && match p.value {
                PResult::Output(a) => out == Parse {
                    value: PResult::<A, U>::Output(a),
                    unused: p.unused,
                },
                PResult::Pending(n) => out == Parse {
                    value: PResult::<A, U>::Pending(n),
                    unused: input,
                },
                PResult::Failed(e) => exists|q: Q, r: Parse<PResult<A, U>, I>|
                    #![trigger self.map.ensures((e,), q), q.produces(p.unused, r)]
                    self.map.ensures((e,), q) && q.produces(p.unused, r) && match r.value {
                        PResult::Output(_) => out == r,
                        PResult::Pending(n) => out == Parse {
                            value: PResult::<A, U>::Pending(n),
                            unused: input,
                        },
                        PResult::Failed(u) => out == Parse {
                            value: PResult::<A, U>::Failed(u),
                            unused: input,
                        },
                    },
            }
    }

    fn parse_once(self, input: I) -> (out: Parse<PResult<A, U>, I>) {
        let p = self.parser.parse_once(input);
        let ghost pg: Parse<PResult<A, E>, I> = p;
        proof {
            assert(self.parser.produces(input, pg));
        }
        let Parse { value, unused } = p;
        match value {
            PResult::Output(a) => Parse::new(PResult::Output(a), unused),
            PResult::Pending(n) => Parse::new(PResult::Pending(n), input),
            PResult::Failed(e) => {
                let ghost ev = e;
                let q = (self.map)(e);
                let r = q.parse_once(unused);
                proof {
                    assert(self.map.ensures((ev,), q));
                    assert(q.produces(pg.unused, r));
                }
                match r.value {
                    PResult::Output(a) => Parse::new(PResult::Output(a), r.unused),
                    PResult::Pending(n) => Parse::new(PResult::Pending(n), input),
                    PResult::Failed(u) => Parse::new(PResult::Failed(u), input),
                }
            },
        }
    }
}

impl<F, P, Q, A, E, U, I: Copy> ParserFnMut<I> for SeqErr<F, P>
where
    P: ParserFnMut<I, Value = PResult<A, E>>,
    F: FnMut(E) -> Q,
    Q: ParserFnOnce<I, Value = PResult<A, U>>,
{
    fn parse_mut(&mut self, input: I) -> (out: Parse<PResult<A, U>, I>) {
        let p = self.parser.parse_mut(input);
        let ghost pg: Parse<PResult<A, E>, I> = p;
        proof {
            assert(old(self).parser.produces(input, pg));
        }
        let Parse { value, unused } = p;
        match value {
            PResult::Output(a) => Parse::new(PResult::Output(a), unused),
            PResult::Pending(n) => Parse::new(PResult::Pending(n), input),
            PResult::Failed(e) => {
                let ghost ev = e;
                let q = (self.map)(e);
                let r = q.parse_once(unused);
                proof {
                    assert(old(self).map.ensures((ev,), q));
                    assert(q.produces(pg.unused, r));
                }
                match r.value {
                    PResult::Output(a) => Parse::new(PResult::Output(a), r.unused),
                    PResult::Pending(n) => Parse::new(PResult::Pending(n), input),
                    PResult::Failed(u) => Parse::new(PResult::Failed(u), input),
                }
            },
        }
    }
}

impl<F, P, Q, A, E, U, I: Copy> ParserFn<I> for SeqErr<F, P>
where
    P: ParserFn<I, Value = PResult<A, E>>,
    F: Fn(E) -> Q,
    Q: ParserFnOnce<I, Value = PResult<A, U>>,
{
    fn parse(&self, input: I) -> (out: Parse<PResult<A, U>, I>) {
        let p = self.parser.parse(input);
        let ghost pg: Parse<PResult<A, E>, I> = p;
        proof {
            assert(self.parser.produces(input, pg));
        }
        let Parse { value, unused } = p;
        match value {
            PResult::Output(a) => Parse::new(PResult::Output(a), unused),
            PResult::Pending(n) => Parse::new(PResult::Pending(n), input),
            PResult::Failed(e) => {
                let ghost ev = e;
                let q = (self.map)(e);
                let r = q.parse_once(unused);
                proof {
                    assert(self.map.ensures((ev,), q));
                    assert(q.produces(pg.unused, r));
                }
                match r.value {
                    PResult::Output(a) => Parse::new(PResult::Output(a), r.unused),
                    PResult::Pending(n) => Parse::new(PResult::Pending(n), input),
                    PResult::Failed(u) => Parse::new(PResult::Failed(u), input),
                }
            },
        }
    }
}

/// Continuing successes consumes input only on success, and then only a
/// prefix, when the first parser and every parser `map` may choose do.
pub proof fn lemma_seq_ok_keeps_input<'a, T: 'a, F, P, Q, A, B, E>(m: SeqOk<F, P>)
    where
        P: ParserFnOnce<&'a [T], Value = PResult<A, E>>,
        F: FnOnce(A) -> Q,
        Q: ParserFnOnce<&'a [T], Value = PResult<B, E>>,
    requires
        keeps_input::<'a, T, A, E, P>(m.parser),
        forall|a: A, q: Q| #[trigger] m.map.ensures((a,), q) ==> keeps_input::<'a, T, B, E, Q>(q),
    ensures
        keeps_input::<'a, T, B, E, SeqOk<F, P>>(m),
{
    broadcast use lemma_suffix_trans;

    assert forall|input: &'a [T], out: Parse<PResult<B, E>, &'a [T]>|
        #[trigger] m.produces(input, out) implies consumes_prefix_only(input@, out) by {
        lemma_suffix_refl(input@);
    }
}

/// Continuing failures consumes input only on success, and then only a
/// prefix, when the first parser and every parser `map` may choose do.
pub proof fn lemma_seq_err_keeps_input<'a, T: 'a, F, P, Q, A, E, U>(m: SeqErr<F, P>)
    where
        P: ParserFnOnce<&'a [T], Value = PResult<A, E>>,
        F: FnOnce(E) -> Q,
        Q: ParserFnOnce<&'a [T], Value = PResult<A, U>>,
    requires
        keeps_input::<'a, T, A, E, P>(m.parser),
        forall|e: E, q: Q| #[trigger] m.map.ensures((e,), q) ==> keeps_input::<'a, T, A, U, Q>(q),
    ensures
        keeps_input::<'a, T, A, U, SeqErr<F, P>>(m),
{
    broadcast use lemma_suffix_trans;

    assert forall|input: &'a [T], out: Parse<PResult<A, U>, &'a [T]>|
        #[trigger] m.produces(input, out) implies consumes_prefix_only(input@, out) by {
        lemma_suffix_refl(input@);
    }
}

} // verus!
