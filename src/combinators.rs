//! Combinations of two parsers that pair or choose between their results.
use crate::parser::parser_fn::{
    consumes_prefix_only, keeps_input, lemma_suffix_refl, lemma_suffix_trans, ParserFn, ParserFnMut,
    ParserFnOnce,
};
use crate::result::{PResult, Parse};
use vstd::prelude::*;

verus! {

/// A parser that runs `first`, then `second` on what `first` left unused,
/// and pairs their values.
#[derive(Clone, Copy, Default, Debug)]
pub struct And<P, Q> {
    /// The parser run first.
    pub first: P,
    /// The parser run second.
    pub second: Q,
}

impl<P, Q> And<P, Q> {
    /// A parser that pairs the values of `first` and `second`.
    pub fn new(first: P, second: Q) -> (r: Self)
        ensures
            r.first == first,
            r.second == second,
    {
        And { first, second }
    }
}

impl<P, Q, A, B, I> ParserFnOnce<I> for And<P, Q>
where
    P: ParserFnOnce<I, Value = A>,
    Q: ParserFnOnce<I, Value = B>,
{
    type Value = (A, B);

    open spec fn wf(&self) -> bool {
        self.first.wf() && self.second.wf()
    }

    open spec fn produces(&self, input: I, out: Parse<(A, B), I>) -> bool {
        exists|p: Parse<A, I>, q: Parse<B, I>|
            #![trigger self.first.produces(input, p), self.second.produces(p.unused, q)]
            self.first.produces(input, p) && self.second.produces(p.unused, q) && out == Parse {
                value: (p.value, q.value),
                unused: q.unused,
            }
    }

    fn parse_once(self, input: I) -> (out: Parse<(A, B), I>) {
        let p = self.first.parse_once(input);
        let q = self.second.parse_once(p.unused);
        proof {
            assert(self.first.produces(input, p));
            assert(self.second.produces(p.unused, q));
        }
        Parse::new((p.value, q.value), q.unused)
    }
}

impl<P, Q, A, B, I> ParserFnMut<I> for And<P, Q>
where
    P: ParserFnMut<I, Value = A>,
    Q: ParserFnMut<I, Value = B>,
{
    fn parse_mut(&mut self, input: I) -> (out: Parse<(A, B), I>) {
        let p = self.first.parse_mut(input);
        let q = self.second.parse_mut(p.unused);
        proof {
            assert(old(self).first.produces(input, p));
            assert(old(self).second.produces(p.unused, q));
        }
        Parse::new((p.value, q.value), q.unused)
    }
}

impl<P, Q, A, B, I> ParserFn<I> for And<P, Q>
where
    P: ParserFn<I, Value = A>,
    Q: ParserFn<I, Value = B>,
{
    fn parse(&self, input: I) -> (out: Parse<(A, B), I>) {
        let p = self.first.parse(input);
        let q = self.second.parse(p.unused);
        proof {
            assert(self.first.produces(input, p));
            assert(self.second.produces(p.unused, q));
        }
        Parse::new((p.value, q.value), q.unused)
    }
}

/// A parser that runs `first`, then on success `second` on what `first` left
/// unused, and pairs their successes.
///
/// The first outcome that is not a success is returned, with the starting
/// input as unused input.
#[derive(Clone, Copy, Default, Debug)]
pub struct AndOk<P, Q> {
    /// The parser run first.
    pub first: P,
    /// The parser run second.
    pub second: Q,
}

impl<P, Q> AndOk<P, Q> {
    /// A parser that pairs the successes of `first` and `second`.
    pub fn new(first: P, second: Q) -> (r: Self)
        ensures
            r.first == first,
            r.second == second,
    {
        AndOk { first, second }
    }
}

impl<P, Q, A, B, E, I: Copy> ParserFnOnce<I> for AndOk<P, Q>
where
    P: ParserFnOnce<I, Value = PResult<A, E>>,
    Q: ParserFnOnce<I, Value = PResult<B, E>>,
{
    type Value = PResult<(A, B), E>;

    open spec fn wf(&self) -> bool {
        self.first.wf() && self.second.wf()
    }

    open spec fn produces(&self, input: I, out: Parse<PResult<(A, B), E>, I>) -> bool {
        exists|p: Parse<PResult<A, E>, I>|
            #[trigger] self.first.produces(input, p) && match p.value {
                PResult::Output(a) => exists|q: Parse<PResult<B, E>, I>|
                    #[trigger] self.second.produces(p.unused, q) && match q.value {
                        PResult::Output(b) => out == Parse {
                            value: PResult::<(A, B), E>::Output((a, b)),
                            unused: q.unused,
                        },
                        PResult::Pending(n) => out == Parse {
                            value: PResult::<(A, B), E>::Pending(n),
                            unused: input,
                        },
                        PResult::Failed(e) => out == Parse {
                            value: PResult::<(A, B), E>::Failed(e),
                            unused: input,
                        },
                    },
                PResult::Pending(n) => out == Parse {
                    value: PResult::<(A, B), E>::Pending(n),
                    unused: input,
                },
                PResult::Failed(e) => out == Parse {
                    value: PResult::<(A, B), E>::Failed(e),
                    unused: input,
                },
            }
    }

    fn parse_once(self, input: I) -> (out: Parse<PResult<(A, B), E>, I>) {
        let p = self.first.parse_once(input);
        proof {
            assert(self.first.produces(input, p));
        }
        match p.value {
            PResult::Output(a) => {
                let q = self.second.parse_once(p.unused);
                proof {
                    assert(self.second.produces(p.unused, q));
                }
                match q.value {
                    PResult::Output(b) => Parse::new(PResult::Output((a, b)), q.unused),
                    PResult::Pending(n) => Parse::new(PResult::Pending(n), input),
                    PResult::Failed(e) => Parse::new(PResult::Failed(e), input),
                }
            },
            PResult::Pending(n) => Parse::new(PResult::Pending(n), input),
            PResult::Failed(e) => Parse::new(PResult::Failed(e), input),
        }
    }
}

impl<P, Q, A, B, E, I: Copy> ParserFnMut<I> for AndOk<P, Q>
where
    P: ParserFnMut<I, Value = PResult<A, E>>,
    Q: ParserFnMut<I, Value = PResult<B, E>>,
{
    fn parse_mut(&mut self, input: I) -> (out: Parse<PResult<(A, B), E>, I>) {
        let p = self.first.parse_mut(input);
        proof {
            assert(old(self).first.produces(input, p));
        }
        match p.value {
            PResult::Output(a) => {
                let q = self.second.parse_mut(p.unused);
                proof {
                    assert(old(self).second.produces(p.unused, q));
                }
                match q.value {
                    PResult::Output(b) => Parse::new(PResult::Output((a, b)), q.unused),
                    PResult::Pending(n) => Parse::new(PResult::Pending(n), input),
                    PResult::Failed(e) => Parse::new(PResult::Failed(e), input),
                }
            },
            PResult::Pending(n) => Parse::new(PResult::Pending(n), input),
            PResult::Failed(e) => Parse::new(PResult::Failed(e), input),
        }
    }
}

impl<P, Q, A, B, E, I: Copy> ParserFn<I> for AndOk<P, Q>
where
    P: ParserFn<I, Value = PResult<A, E>>,
    Q: ParserFn<I, Value = PResult<B, E>>,
{
    fn parse(&self, input: I) -> (out: Parse<PResult<(A, B), E>, I>) {
        let p = self.first.parse(input);
        proof {
            assert(self.first.produces(input, p));
        }
        match p.value {
            PResult::Output(a) => {
                let q = self.second.parse(p.unused);
                proof {
                    assert(self.second.produces(p.unused, q));
                }
                match q.value {
                    PResult::Output(b) => Parse::new(PResult::Output((a, b)), q.unused),
                    PResult::Pending(n) => Parse::new(PResult::Pending(n), input),
                    PResult::Failed(e) => Parse::new(PResult::Failed(e), input),
                }
            },
            PResult::Pending(n) => Parse::new(PResult::Pending(n), input),
            PResult::Failed(e) => Parse::new(PResult::Failed(e), input),
        }
    }
}

/// A parser that runs `first`, and on its failure runs `second` on the
/// starting input.
///
/// A success of either is returned as it is. A pending `first` is returned
/// at once without running `second`. When both fail, the failure pairs both
/// witnesses. Pending and failed outcomes carry the starting input.
#[derive(Clone, Copy, Default, Debug)]
pub struct Or<P, Q> {
    /// The parser run first.
    pub first: P,
    /// The parser run second.
    pub second: Q,
}

impl<P, Q> Or<P, Q> {
    /// A parser that tries `first`, then `second`.
    pub fn new(first: P, second: Q) -> (r: Self)
        ensures
            r.first == first,
            r.second == second,
    {
        Or { first, second }
    }
}

impl<P, Q, T, E, U, I: Copy> ParserFnOnce<I> for Or<P, Q>
where
    P: ParserFnOnce<I, Value = PResult<T, E>>,
    Q: ParserFnOnce<I, Value = PResult<T, U>>,
{
    type Value = PResult<T, (E, U)>;

    open spec fn wf(&self) -> bool {
        self.first.wf() && self.second.wf()
    }

    open spec fn produces(&self, input: I, out: Parse<PResult<T, (E, U)>, I>) -> bool {
        exists|p: Parse<PResult<T, E>, I>|
            #[trigger] self.first.produces(input, p) && match p.value {
                PResult::Output(t) => out == Parse {
                    value: PResult::<T, (E, U)>::Output(t),
                    unused: p.unused,
                },
                PResult::Pending(n) => out == Parse {
                    value: PResult::<T, (E, U)>::Pending(n),
                    unused: input,
                },
                PResult::Failed(e) => exists|q: Parse<PResult<T, U>, I>|
                    #[trigger] self.second.produces(input, q) && match q.value {
                        PResult::Output(t) => out == Parse {
                            value: PResult::<T, (E, U)>::Output(t),
                            unused: q.unused,
                        },
                        PResult::Pending(n) => out == Parse {
                            value: PResult::<T, (E, U)>::Pending(n),
                            unused: input,
                        },
                        PResult::Failed(u) => out == Parse {
                            value: PResult::<T, (E, U)>::Failed((e, u)),
                            unused: input,
                        },
                    },
            }
    }

    fn parse_once(self, input: I) -> (out: Parse<PResult<T, (E, U)>, I>) {
        let p = self.first.parse_once(input);
        proof {
            assert(self.first.produces(input, p));
        }
        match p.value {
            PResult::Output(t) => Parse::new(PResult::Output(t), p.unused),
            PResult::Pending(n) => Parse::new(PResult::Pending(n), input),
            PResult::Failed(e) => {
                let q = self.second.parse_once(input);
                proof {
                    assert(self.second.produces(input, q));
                }
                match q.value {
                    PResult::Output(t) => Parse::new(PResult::Output(t), q.unused),
                    PResult::Pending(n) => Parse::new(PResult::Pending(n), input),
                    PResult::Failed(u) => Parse::new(PResult::Failed((e, u)), input),
                }
            },
        }
    }
}

impl<P, Q, T, E, U, I: Copy> ParserFnMut<I> for Or<P, Q>
where
    P: ParserFnMut<I, Value = PResult<T, E>>,
    Q: ParserFnMut<I, Value = PResult<T, U>>,
{
    fn parse_mut(&mut self, input: I) -> (out: Parse<PResult<T, (E, U)>, I>) {
        let p = self.first.parse_mut(input);
        proof {
            assert(old(self).first.produces(input, p));
        }
        match p.value {
            PResult::Output(t) => Parse::new(PResult::Output(t), p.unused),
            PResult::Pending(n) => Parse::new(PResult::Pending(n), input),
            PResult::Failed(e) => {
                let q = self.second.parse_mut(input);
                proof {
                    assert(old(self).second.produces(input, q));
                }
                match q.value {
                    PResult::Output(t) => Parse::new(PResult::Output(t), q.unused),
                    PResult::Pending(n) => Parse::new(PResult::Pending(n), input),
                    PResult::Failed(u) => Parse::new(PResult::Failed((e, u)), input),
                }
            },
        }
    }
}

impl<P, Q, T, E, U, I: Copy> ParserFn<I> for Or<P, Q>
where
    P: ParserFn<I, Value = PResult<T, E>>,
    Q: ParserFn<I, Value = PResult<T, U>>,
{
    fn parse(&self, input: I) -> (out: Parse<PResult<T, (E, U)>, I>) {
        let p = self.first.parse(input);
        proof {
            assert(self.first.produces(input, p));
        }
        match p.value {
            PResult::Output(t) => Parse::new(PResult::Output(t), p.unused),
            PResult::Pending(n) => Parse::new(PResult::Pending(n), input),
            PResult::Failed(e) => {
                let q = self.second.parse(input);
                proof {
                    assert(self.second.produces(input, q));
                }
                match q.value {
                    PResult::Output(t) => Parse::new(PResult::Output(t), q.unused),
                    PResult::Pending(n) => Parse::new(PResult::Pending(n), input),
                    PResult::Failed(u) => Parse::new(PResult::Failed((e, u)), input),
                }
            },
        }
    }
}

/// Pairing successes consumes input only on success, and then only a prefix,
/// when both parsers do.
pub proof fn lemma_and_ok_keeps_input<'a, T: 'a, P, Q, A, B, E>(m: AndOk<P, Q>)
    where
        P: ParserFnOnce<&'a [T], Value = PResult<A, E>>,
        Q: ParserFnOnce<&'a [T], Value = PResult<B, E>>,
    requires
        keeps_input::<'a, T, A, E, P>(m.first),
        keeps_input::<'a, T, B, E, Q>(m.second),
    ensures
        keeps_input::<'a, T, (A, B), E, AndOk<P, Q>>(m),
{
    broadcast use lemma_suffix_trans;

    assert forall|input: &'a [T], out: Parse<PResult<(A, B), E>, &'a [T]>|
        #[trigger] m.produces(input, out) implies consumes_prefix_only(input@, out) by {
        lemma_suffix_refl(input@);
    }
}

/// A choice consumes input only on success, and then only a prefix, when
/// both alternatives do.
pub proof fn lemma_or_keeps_input<'a, T: 'a, P, Q, V, E, U>(m: Or<P, Q>)
    where
        P: ParserFnOnce<&'a [T], Value = PResult<V, E>>,
        Q: ParserFnOnce<&'a [T], Value = PResult<V, U>>,
    requires
        keeps_input::<'a, T, V, E, P>(m.first),
        keeps_input::<'a, T, V, U, Q>(m.second),
    ensures
        keeps_input::<'a, T, V, (E, U), Or<P, Q>>(m),
{
    assert forall|input: &'a [T], out: Parse<PResult<V, (E, U)>, &'a [T]>|
        #[trigger] m.produces(input, out) implies consumes_prefix_only(input@, out) by {
        lemma_suffix_refl(input@);
    }
}

/// When every run of the first alternative on `input` asks for `n` more
/// tokens, the choice asks for the same and leaves `input` unused; the
/// second alternative's outcome plays no part.
pub proof fn lemma_or_pending_short_circuits<I: Copy, P, Q, V, E, U>(
    m: Or<P, Q>,
    input: I,
    n: usize,
)
    where
        P: ParserFnOnce<I, Value = PResult<V, E>>,
        Q: ParserFnOnce<I, Value = PResult<V, U>>,
    requires
        forall|p: Parse<PResult<V, E>, I>| #[trigger]
            m.first.produces(input, p) ==> p.value == PResult::<V, E>::Pending(n),
    ensures
        forall|out: Parse<PResult<V, (E, U)>, I>| #[trigger]
            m.produces(input, out) ==> out == (Parse {
                value: PResult::<V, (E, U)>::Pending(n),
                unused: input,
            }),
{
}

} // verus!
