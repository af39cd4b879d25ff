//! Parsers that apply the value of one parser to the value of the next.
use crate::parser::parser_fn::{
    consumes_prefix_only, is_deterministic, keeps_input, lemma_suffix_refl, lemma_suffix_trans, ParserFn, ParserFnMut,
    ParserFnOnce,
};
use crate::combinators::And;
use crate::parser::mapping::Mapped;
use crate::result::{PResult, Parse};
use vstd::prelude::*;

verus! {

/// A parser that runs `func`, then `value` on what `func` left unused, and
/// applies the function `func` produced to the value `value` produced.
#[derive(Clone, Copy, Default, Debug)]
pub struct Apply<F, P> {
    /// The parser of the function.
    pub func: F,
    /// The parser of the argument.
    pub value: P,
}

impl<F, P> Apply<F, P> {
    /// A parser that applies the output of `func` to the output of `value`.
    pub fn new(func: F, value: P) -> (r: Self)
        ensures
            r.func == func,
            r.value == value,
    {
        Apply { func, value }
    }
}

impl<F, P, G, A, T, I> ParserFnOnce<I> for Apply<F, P>
where
    F: ParserFnOnce<I, Value = G>,
    P: ParserFnOnce<I, Value = A>,
    G: FnOnce(A) -> T,
{
    type Value = T;

    open spec fn wf(&self) -> bool {
        &&& self.func.wf()
        &&& self.value.wf()
        &&& forall|g: G, a: A| #[trigger] g.requires((a,))
    }

    open spec fn produces(&self, input: I, out: Parse<T, I>) -> bool {
        exists|f: Parse<G, I>, p: Parse<A, I>|
            #![trigger self.func.produces(input, f), self.value.produces(f.unused, p)]
            self.func.produces(input, f) && self.value.produces(f.unused, p) && f.value.ensures(
                (p.value,),
                out.value,
            ) && out.unused == p.unused
    }

    fn parse_once(self, input: I) -> (out: Parse<T, I>) {
        let f = self.func.parse_once(input);
        let ghost fg: Parse<G, I> = f;
        let Parse { value: g, unused } = f;
        let p = self.value.parse_once(unused);
        let ghost pg: Parse<A, I> = p;
        let Parse { value: a, unused: rest } = p;
        let t: T = g(a);
        proof {
            assert(self.func.produces(input, fg));
            assert(self.value.produces(fg.unused, pg));
        }
        Parse::new(t, rest)
    }
}

impl<F, P, G, A, T, I> ParserFnMut<I> for Apply<F, P>
where
    F: ParserFnMut<I, Value = G>,
    P: ParserFnMut<I, Value = A>,
    G: FnOnce(A) -> T,
{
    fn parse_mut(&mut self, input: I) -> (out: Parse<T, I>) {
        let f = self.func.parse_mut(input);
        let ghost fg: Parse<G, I> = f;
        let Parse { value: g, unused } = f;
        let p = self.value.parse_mut(unused);
        let ghost pg: Parse<A, I> = p;
        let Parse { value: a, unused: rest } = p;
        let t: T = g(a);
        proof {
            assert(old(self).func.produces(input, fg));
            assert(old(self).value.produces(fg.unused, pg));
        }
        Parse::new(t, rest)
    }
}

impl<F, P, G, A, T, I> ParserFn<I> for Apply<F, P>
where
    F: ParserFn<I, Value = G>,
    P: ParserFn<I, Value = A>,
    G: FnOnce(A) -> T,
{
    fn parse(&self, input: I) -> (out: Parse<T, I>) {
        let f = self.func.parse(input);
        let ghost fg: Parse<G, I> = f;
        let Parse { value: g, unused } = f;
        let p = self.value.parse(unused);
        let ghost pg: Parse<A, I> = p;
        let Parse { value: a, unused: rest } = p;
        let t: T = g(a);
        proof {
            assert(self.func.produces(input, fg));
            assert(self.value.produces(fg.unused, pg));
        }
        Parse::new(t, rest)
    }
}

/// A parser that runs `func`, then `value` on what `func` left unused, and
/// applies a successful function to a successful argument.
///
/// When `func` does not succeed, `value` is not run. Any outcome other than a
/// success carries the starting input as unused input.
#[derive(Clone, Copy, Default, Debug)]
pub struct TryApply<F, P> {
    /// The parser of the function.
    pub func: F,
    /// The parser of the argument.
    pub value: P,
}

impl<F, P> TryApply<F, P> {
    /// A parser that applies the success of `func` to the success of `value`.
    pub fn new(func: F, value: P) -> (r: Self)
        ensures
            r.func == func,
            r.value == value,
    {
        TryApply { func, value }
    }
}

impl<F, P, G, A, B, E, I: Copy> ParserFnOnce<I> for TryApply<F, P>
where
    F: ParserFnOnce<I, Value = PResult<G, E>>,
    P: ParserFnOnce<I, Value = PResult<A, E>>,
    G: FnOnce(A) -> B,
{
    type Value = PResult<B, E>;

    open spec fn wf(&self) -> bool {
        &&& self.func.wf()
        &&& self.value.wf()
        &&& forall|g: G, a: A| #[trigger] g.requires((a,))
    }

    open spec fn produces(&self, input: I, out: Parse<PResult<B, E>, I>) -> bool {
        exists|f: Parse<PResult<G, E>, I>|
            #[trigger] self.func.produces(input, f) && match f.value {
                PResult::Output(g) => exists|p: Parse<PResult<A, E>, I>|
                    #[trigger] self.value.produces(f.unused, p) && match p.value {
                        PResult::Output(a) => out.value matches PResult::Output(b) && g.ensures(
                            (a,),
                            b,
                        ) && out.unused == p.unused,
                        PResult::Pending(n) => out == Parse {
                            value: PResult::<B, E>::Pending(n),
                            unused: input,
                        },
                        PResult::Failed(e) => out == Parse {
                            value: PResult::<B, E>::Failed(e),
                            unused: input,
                        },
                    },
                PResult::Pending(n) => out == Parse {
                    value: PResult::<B, E>::Pending(n),
                    unused: input,
                },
                PResult::Failed(e) => out == Parse { value: PResult::<B, E>::Failed(e), unused: input },
            }
    }

    fn parse_once(self, input: I) -> (out: Parse<PResult<B, E>, I>) {
        let f = self.func.parse_once(input);
        let ghost fg: Parse<PResult<G, E>, I> = f;
        proof {
            assert(self.func.produces(input, fg));
        }
        let Parse { value: fv, unused } = f;
        match fv {
            PResult::Output(g) => {
                let p = self.value.parse_once(unused);
                let ghost pg: Parse<PResult<A, E>, I> = p;
                proof {
                    assert(self.value.produces(fg.unused, pg));
                }
                let Parse { value: pv, unused: rest } = p;
                match pv {
                    PResult::Output(a) => {
                        let b: B = g(a);
                        Parse::new(PResult::Output(b), rest)
                    },
                    PResult::Pending(n) => Parse::new(PResult::Pending(n), input),
                    PResult::Failed(e) => Parse::new(PResult::Failed(e), input),
                }
            },
            PResult::Pending(n) => Parse::new(PResult::Pending(n), input),
            PResult::Failed(e) => Parse::new(PResult::Failed(e), input),
        }
    }
}

impl<F, P, G, A, B, E, I: Copy> ParserFnMut<I> for TryApply<F, P>
where
    F: ParserFnMut<I, Value = PResult<G, E>>,
    P: ParserFnMut<I, Value = PResult<A, E>>,
    G: FnOnce(A) -> B,
{
    fn parse_mut(&mut self, input: I) -> (out: Parse<PResult<B, E>, I>) {
        let f = self.func.parse_mut(input);
        let ghost fg: Parse<PResult<G, E>, I> = f;
        proof {
            assert(old(self).func.produces(input, fg));
        }
        let Parse { value: fv, unused } = f;
        match fv {
            PResult::Output(g) => {
                let p = self.value.parse_mut(unused);
                let ghost pg: Parse<PResult<A, E>, I> = p;
                proof {
                    assert(old(self).value.produces(fg.unused, pg));
                }
                let Parse { value: pv, unused: rest } = p;
                match pv {
                    PResult::Output(a) => {
                        let b: B = g(a);
                        Parse::new(PResult::Output(b), rest)
                    },
                    PResult::Pending(n) => Parse::new(PResult::Pending(n), input),
                    PResult::Failed(e) => Parse::new(PResult::Failed(e), input),
                }
            },
            PResult::Pending(n) => Parse::new(PResult::Pending(n), input),
            PResult::Failed(e) => Parse::new(PResult::Failed(e), input),
        }
    }
}

impl<F, P, G, A, B, E, I: Copy> ParserFn<I> for TryApply<F, P>
where
    F: ParserFn<I, Value = PResult<G, E>>,
    P: ParserFn<I, Value = PResult<A, E>>,
    G: FnOnce(A) -> B,
{
    fn parse(&self, input: I) -> (out: Parse<PResult<B, E>, I>) {
        let f = self.func.parse(input);
        let ghost fg: Parse<PResult<G, E>, I> = f;
        proof {
            assert(self.func.produces(input, fg));
        }
        let Parse { value: fv, unused } = f;
        match fv {
            PResult::Output(g) => {
                let p = self.value.parse(unused);
                let ghost pg: Parse<PResult<A, E>, I> = p;
                proof {
                    assert(self.value.produces(fg.unused, pg));
                }
                let Parse { value: pv, unused: rest } = p;
                match pv {
                    PResult::Output(a) => {
                        let b: B = g(a);
                        Parse::new(PResult::Output(b), rest)
                    },
                    PResult::Pending(n) => Parse::new(PResult::Pending(n), input),
                    PResult::Failed(e) => Parse::new(PResult::Failed(e), input),
                }
            },
            PResult::Pending(n) => Parse::new(PResult::Pending(n), input),
            PResult::Failed(e) => Parse::new(PResult::Failed(e), input),
        }
    }
}

/// A parser that runs `func`, and on its failure runs `value` on what `func`
/// left unused, applying the failure function to the failure of `value`.
///
/// A success of either parser is returned as it is. Pending and failed
/// outcomes carry the starting input as unused input.
#[derive(Clone, Copy, Default, Debug)]
pub struct TryApplyErr<F, P> {
    /// The parser of the function.
    pub func: F,
    /// The parser of the argument.
    pub value: P,
}

impl<F, P> TryApplyErr<F, P> {
    /// A parser that applies the failure of `func` to the failure of `value`.
    pub fn new(func: F, value: P) -> (r: Self)
        ensures
            r.func == func,
            r.value == value,
    {
        TryApplyErr { func, value }
    }
}

impl<F, P, G, T, E, U, I: Copy> ParserFnOnce<I> for TryApplyErr<F, P>
where
    F: ParserFnOnce<I, Value = PResult<T, G>>,
    P: ParserFnOnce<I, Value = PResult<T, E>>,
    G: FnOnce(E) -> U,
{
    type Value = PResult<T, U>;

    open spec fn wf(&self) -> bool {
        &&& self.func.wf()
        &&& self.value.wf()
        &&& forall|g: G, e: E| #[trigger] g.requires((e,))
    }

    open spec fn produces(&self, input: I, out: Parse<PResult<T, U>, I>) -> bool {
        exists|f: Parse<PResult<T, G>, I>|
            #[trigger] self.func.produces(input, f) && match f.value {
                PResult::Output(t) => out == Parse {
                    value: PResult::<T, U>::Output(t),
                    unused: f.unused,
                },
                PResult::Pending(n) => out == Parse {
                    value: PResult::<T, U>::Pending(n),
                    unused: input,
                },
                PResult::Failed(g) => exists|p: Parse<PResult<T, E>, I>|
                    #[trigger] self.value.produces(f.unused, p) && match p.value {
                        PResult::Output(t) => out == Parse {
                            value: PResult::<T, U>::Output(t),
                            unused: p.unused,
                        },
                        PResult::Pending(n) => out == Parse {
                            value: PResult::<T, U>::Pending(n),
                            unused: input,
                        },
                        PResult::Failed(e) => out.value matches PResult::Failed(u) && g.ensures(
                            (e,),
                            u,
                        ) && out.unused == input,
                    },
            }
    }

    fn parse_once(self, input: I) -> (out: Parse<PResult<T, U>, I>) {
        let f = self.func.parse_once(input);
        let ghost fg: Parse<PResult<T, G>, I> = f;
        proof {
            assert(self.func.produces(input, fg));
        }
        let Parse { value: fv, unused } = f;
        match fv {
            PResult::Output(t) => Parse::new(PResult::Output(t), unused),
            PResult::Pending(n) => Parse::new(PResult::Pending(n), input),
            PResult::Failed(g) => {
                let p = self.value.parse_once(unused);
                let ghost pg: Parse<PResult<T, E>, I> = p;
                proof {
                    assert(self.value.produces(fg.unused, pg));
                }
                let Parse { value: pv, unused: rest } = p;
                match pv {
                    PResult::Output(t) => Parse::new(PResult::Output(t), rest),
                    PResult::Pending(n) => Parse::new(PResult::Pending(n), input),
                    PResult::Failed(e) => {
                        let u: U = g(e);
                        Parse::new(PResult::Failed(u), input)
                    },
                }
            },
        }
    }
}

impl<F, P, G, T, E, U, I: Copy> ParserFnMut<I> for TryApplyErr<F, P>
where
    F: ParserFnMut<I, Value = PResult<T, G>>,
    P: ParserFnMut<I, Value = PResult<T, E>>,
    G: FnOnce(E) -> U,
{
    fn parse_mut(&mut self, input: I) -> (out: Parse<PResult<T, U>, I>) {
        let f = self.func.parse_mut(input);
        let ghost fg: Parse<PResult<T, G>, I> = f;
        proof {
            assert(old(self).func.produces(input, fg));
        }
        let Parse { value: fv, unused } = f;
        match fv {
            PResult::Output(t) => Parse::new(PResult::Output(t), unused),
            PResult::Pending(n) => Parse::new(PResult::Pending(n), input),
            PResult::Failed(g) => {
                let p = self.value.parse_mut(unused);
                let ghost pg: Parse<PResult<T, E>, I> = p;
                proof {
                    assert(old(self).value.produces(fg.unused, pg));
                }
                let Parse { value: pv, unused: rest } = p;
                match pv {
                    PResult::Output(t) => Parse::new(PResult::Output(t), rest),
                    PResult::Pending(n) => Parse::new(PResult::Pending(n), input),
                    PResult::Failed(e) => {
                        let u: U = g(e);
                        Parse::new(PResult::Failed(u), input)
                    },
                }
            },
        }
    }
}

impl<F, P, G, T, E, U, I: Copy> ParserFn<I> for TryApplyErr<F, P>
where
    F: ParserFn<I, Value = PResult<T, G>>,
    P: ParserFn<I, Value = PResult<T, E>>,
    G: FnOnce(E) -> U,
{
    fn parse(&self, input: I) -> (out: Parse<PResult<T, U>, I>) {
        let f = self.func.parse(input);
        let ghost fg: Parse<PResult<T, G>, I> = f;
        proof {
            assert(self.func.produces(input, fg));
        }
        let Parse { value: fv, unused } = f;
        match fv {
            PResult::Output(t) => Parse::new(PResult::Output(t), unused),
            PResult::Pending(n) => Parse::new(PResult::Pending(n), input),
            PResult::Failed(g) => {
                let p = self.value.parse(unused);
                let ghost pg: Parse<PResult<T, E>, I> = p;
                proof {
                    assert(self.value.produces(fg.unused, pg));
                }
                let Parse { value: pv, unused: rest } = p;
                match pv {
                    PResult::Output(t) => Parse::new(PResult::Output(t), rest),
                    PResult::Pending(n) => Parse::new(PResult::Pending(n), input),
                    PResult::Failed(e) => {
                        let u: U = g(e);
                        Parse::new(PResult::Failed(u), input)
                    },
                }
            },
        }
    }
}

/// Applying successes consumes input only on success, and then only a prefix,
/// when both parsers do.
pub proof fn lemma_try_apply_keeps_input<'a, T: 'a, F, P, G, A, B, E>(m: TryApply<F, P>)
    where
        F: ParserFnOnce<&'a [T], Value = PResult<G, E>>,
        P: ParserFnOnce<&'a [T], Value = PResult<A, E>>,
        G: FnOnce(A) -> B,
    requires
        keeps_input::<'a, T, G, E, F>(m.func),
        keeps_input::<'a, T, A, E, P>(m.value),
    ensures
        keeps_input::<'a, T, B, E, TryApply<F, P>>(m),
{
    broadcast use lemma_suffix_trans;

    assert forall|input: &'a [T], out: Parse<PResult<B, E>, &'a [T]>|
        #[trigger] m.produces(input, out) implies consumes_prefix_only(input@, out) by {
        lemma_suffix_refl(input@);
    }
}

/// Applying failures consumes input only on success, and then only a prefix,
/// when both parsers do.
pub proof fn lemma_try_apply_err_keeps_input<'a, T: 'a, F, P, G, V, E, U>(m: TryApplyErr<F, P>)
    where
        F: ParserFnOnce<&'a [T], Value = PResult<V, G>>,
        P: ParserFnOnce<&'a [T], Value = PResult<V, E>>,
        G: FnOnce(E) -> U,
    requires
        keeps_input::<'a, T, V, G, F>(m.func),
        keeps_input::<'a, T, V, E, P>(m.value),
    ensures
        keeps_input::<'a, T, V, U, TryApplyErr<F, P>>(m),
{
    broadcast use lemma_suffix_trans;

    assert forall|input: &'a [T], out: Parse<PResult<V, U>, &'a [T]>|
        #[trigger] m.produces(input, out) implies consumes_prefix_only(input@, out) by {
        lemma_suffix_refl(input@);
    }
}

/// Running `f`, then `p` on what `f` left unused, then `q` on what `p` left
/// unused, may leave `rest` of `input` unused.
pub open spec fn runs_in_order<I, F, P, Q, FV, PV, QV>(f: F, p: P, q: Q, input: I, rest: I) -> bool
    where
        F: ParserFnOnce<I, Value = FV>,
        P: ParserFnOnce<I, Value = PV>,
        Q: ParserFnOnce<I, Value = QV>,
{
    exists|fo: Parse<FV, I>, po: Parse<PV, I>, qo: Parse<QV, I>|
        #![trigger f.produces(input, fo), p.produces(fo.unused, po), q.produces(po.unused, qo)]
        f.produces(input, fo) && p.produces(fo.unused, po) && q.produces(po.unused, qo) && qo.unused
            == rest
}

/// Nesting applications to the left or to the right reads the input in the
/// same order: every result of `Apply(Apply(f, p), q)`, and every result of
/// `Apply(Mapped(k, f), And(p, q))`, leaves unused what running `f`, `p` and
/// `q` one after the other leaves.
pub proof fn lemma_apply_nesting<I, F, P, Q, K, G, H, A, B, C, G2>(
    f: F,
    p: P,
    q: Q,
    k: K,
)
    where
        F: ParserFnOnce<I, Value = G>,
        P: ParserFnOnce<I, Value = A>,
        Q: ParserFnOnce<I, Value = B>,
        G: FnOnce(A) -> H,
        H: FnOnce(B) -> C,
        K: FnOnce(G) -> G2,
        G2: FnOnce((A, B)) -> C,
    ensures
        forall|input: I, out: Parse<C, I>|
            #[trigger] (Apply { func: Apply { func: f, value: p }, value: q }).produces(input, out)
                ==> runs_in_order(f, p, q, input, out.unused),
        forall|input: I, out: Parse<C, I>|
            #[trigger] (Apply { func: Mapped { map: k, parser: f }, value: And { first: p, second: q } }).produces(
                input,
                out,
            ) ==> runs_in_order(f, p, q, input, out.unused),
{
    let left = Apply { func: Apply { func: f, value: p }, value: q };
    let right = Apply { func: Mapped { map: k, parser: f }, value: And { first: p, second: q } };
    assert forall|input: I, out: Parse<C, I>| #[trigger] left.produces(input, out) implies runs_in_order(
        f,
        p,
        q,
        input,
        out.unused,
    ) by {
        let (ho, qo) = choose|ho: Parse<H, I>, qo: Parse<B, I>|
            #![trigger left.func.produces(input, ho), q.produces(ho.unused, qo)]
            left.func.produces(input, ho) && q.produces(ho.unused, qo) && ho.value.ensures(
                (qo.value,),
                out.value,
            ) && out.unused == qo.unused;
        let (fo, po) = choose|fo: Parse<G, I>, po: Parse<A, I>|
            #![trigger f.produces(input, fo), p.produces(fo.unused, po)]
            f.produces(input, fo) && p.produces(fo.unused, po) && fo.value.ensures(
                (po.value,),
                ho.value,
            ) && ho.unused == po.unused;
        assert(f.produces(input, fo) && p.produces(fo.unused, po) && q.produces(po.unused, qo));
    }
    assert forall|input: I, out: Parse<C, I>| #[trigger] right.produces(input, out) implies runs_in_order(
        f,
        p,
        q,
        input,
        out.unused,
    ) by {
        let (go, ro) = choose|go: Parse<G2, I>, ro: Parse<(A, B), I>|
            #![trigger right.func.produces(input, go), right.value.produces(go.unused, ro)]
            right.func.produces(input, go) && right.value.produces(go.unused, ro) && go.value.ensures(
                (ro.value,),
                out.value,
            ) && out.unused == ro.unused;
        let g = choose|g: G|
            #[trigger] f.produces(input, Parse { value: g, unused: go.unused }) && k.ensures(
                (g,),
                go.value,
            );
        let fo = Parse { value: g, unused: go.unused };
        let (po, qo) = choose|po: Parse<A, I>, qo: Parse<B, I>|
            #![trigger p.produces(go.unused, po), q.produces(po.unused, qo)]
            p.produces(go.unused, po) && q.produces(po.unused, qo) && ro == Parse {
                value: (po.value, qo.value),
                unused: qo.unused,
            };
        assert(f.produces(input, fo) && p.produces(fo.unused, po) && q.produces(po.unused, qo));
    }
}

/// When `f`, `p` and `q` each give at most one result per input, nesting
/// applications to the left, `Apply(Apply(f, p), q)`, or to the right,
/// `Apply(Mapped(k, f), And(p, q))`, leaves the same input unused.
pub proof fn lemma_apply_nesting_same_unused<I, F, P, Q, K, G, H, A, B, C, G2>(
    f: F,
    p: P,
    q: Q,
    k: K,
)
    where
        F: ParserFnOnce<I, Value = G>,
        P: ParserFnOnce<I, Value = A>,
        Q: ParserFnOnce<I, Value = B>,
        G: FnOnce(A) -> H,
        H: FnOnce(B) -> C,
        K: FnOnce(G) -> G2,
        G2: FnOnce((A, B)) -> C,
    requires
        is_deterministic(f),
        is_deterministic(p),
        is_deterministic(q),
    ensures
        forall|input: I, l: Parse<C, I>, r: Parse<C, I>|
            #![trigger (Apply { func: Apply { func: f, value: p }, value: q }).produces(input, l), (Apply { func: Mapped { map: k, parser: f }, value: And { first: p, second: q } }).produces(input, r)]
            (Apply { func: Apply { func: f, value: p }, value: q }).produces(input, l) && (Apply {
                func: Mapped { map: k, parser: f },
                value: And { first: p, second: q },
            }).produces(input, r) ==> l.unused == r.unused,
{
    lemma_apply_nesting(f, p, q, k);
    let left = Apply { func: Apply { func: f, value: p }, value: q };
    let right = Apply { func: Mapped { map: k, parser: f }, value: And { first: p, second: q } };
    assert forall|input: I, l: Parse<C, I>, r: Parse<C, I>|
        left.produces(input, l) && right.produces(input, r) implies l.unused == r.unused by {
        assert(runs_in_order(f, p, q, input, l.unused));
        assert(runs_in_order(f, p, q, input, r.unused));
        let (fo, po, qo) = choose|fo: Parse<G, I>, po: Parse<A, I>, qo: Parse<B, I>|
            #![trigger f.produces(input, fo), p.produces(fo.unused, po), q.produces(po.unused, qo)]
            f.produces(input, fo) && p.produces(fo.unused, po) && q.produces(po.unused, qo)
                && qo.unused == l.unused;
        let (fo2, po2, qo2) = choose|fo: Parse<G, I>, po: Parse<A, I>, qo: Parse<B, I>|
            #![trigger f.produces(input, fo), p.produces(fo.unused, po), q.produces(po.unused, qo)]
            f.produces(input, fo) && p.produces(fo.unused, po) && q.produces(po.unused, qo)
                && qo.unused == r.unused;
        assert(fo == fo2);
        assert(po == po2);
        assert(qo == qo2);
    }
}

} // verus!
