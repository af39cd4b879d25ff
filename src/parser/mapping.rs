//! Parsers that transform the value of another parser.
use crate::parser::parser_fn::{consumes_prefix_only, keeps_input, ParserFn, ParserFnMut, ParserFnOnce};
use crate::result::{PResult, Parse};
use vstd::prelude::*;

verus! {

/// A parser that runs `parser` and applies `map` to its value.
#[derive(Clone, Copy, Default, Debug)]
pub struct Mapped<F, P> {
    /// The mapping to apply.
    pub map: F,
    /// The parser to map.
    pub parser: P,
}

impl<F, P> Mapped<F, P> {
    /// A parser that applies `map` to the value of `parser`.
    pub fn new(map: F, parser: P) -> (r: Self)
        ensures
            r.map == map,
            r.parser == parser,
    {
        Mapped { map, parser }
    }
}

impl<F, P, T, I> ParserFnOnce<I> for Mapped<F, P>
where
    P: ParserFnOnce<I>,
    F: FnOnce(P::Value) -> T,
{
    type Value = T;

    open spec fn wf(&self) -> bool {
        &&& self.parser.wf()
        &&& forall|v: P::Value| #[trigger] self.map.requires((v,))
    }

    open spec fn produces(&self, input: I, out: Parse<T, I>) -> bool {
        exists|v: P::Value|
            #[trigger] self.parser.produces(input, Parse { value: v, unused: out.unused })
                && self.map.ensures((v,), out.value)
    }

    fn parse_once(self, input: I) -> (out: Parse<T, I>) {
        let Parse { value, unused } = self.parser.parse_once(input);
        let mapped = (self.map)(value);
        Parse::new(mapped, unused)
    }
}

impl<F, P, T, I> ParserFnMut<I> for Mapped<F, P>
where
    P: ParserFnMut<I>,
    F: FnMut(P::Value) -> T,
{
    fn parse_mut(&mut self, input: I) -> (out: Parse<T, I>) {
        let Parse { value, unused } = self.parser.parse_mut(input);
        let mapped = (self.map)(value);
        Parse::new(mapped, unused)
    }
}

impl<F, P, T, I> ParserFn<I> for Mapped<F, P>
where
    P: ParserFn<I>,
    F: Fn(P::Value) -> T,
{
    fn parse(&self, input: I) -> (out: Parse<T, I>) {
        let Parse { value, unused } = self.parser.parse(input);
        let mapped = (self.map)(value);
        Parse::new(mapped, unused)
    }
}


/// A parser that runs `parser` and applies `map` to a successful value;
/// pending and failed outcomes pass through unchanged.
#[derive(Clone, Copy, Default, Debug)]
pub struct MapOk<F, P> {
    /// The mapping to apply to a success.
    pub map: F,
    /// The parser to map.
    pub parser: P,
}

impl<F, P> MapOk<F, P> {
    /// A parser that applies `map` to the successes of `parser`.
    pub fn new(map: F, parser: P) -> (r: Self)
        ensures
            r.map == map,
            r.parser == parser,
    {
        MapOk { map, parser }
    }
}

impl<F, P, A, B, E, I> ParserFnOnce<I> for MapOk<F, P>
where
    P: ParserFnOnce<I, Value = PResult<A, E>>,
    F: FnOnce(A) -> B,
{
    type Value = PResult<B, E>;

    open spec fn wf(&self) -> bool {
        &&& self.parser.wf()
        &&& forall|a: A| #[trigger] self.map.requires((a,))
    }

    open spec fn produces(&self, input: I, out: Parse<PResult<B, E>, I>) -> bool {
        exists|p: Parse<PResult<A, E>, I>|
            #[trigger] self.parser.produces(input, p) && out.unused == p.unused && match p.value {
                PResult::Output(a) => out.value matches PResult::Output(b) && self.map.ensures(
                    (a,),
                    b,
                ),
                PResult::Pending(n) => out.value == PResult::<B, E>::Pending(n),
                PResult::Failed(e) => out.value == PResult::<B, E>::Failed(e),
            }
    }

    fn parse_once(self, input: I) -> (out: Parse<PResult<B, E>, I>) {
        let p = self.parser.parse_once(input);
        let ghost parsed = p;
        let Parse { value, unused } = p;
        let mapped: PResult<B, E> = match value {
            PResult::Output(a) => PResult::Output((self.map)(a)),
            PResult::Pending(n) => PResult::Pending(n),
            PResult::Failed(e) => PResult::Failed(e),
        };
        proof {
            assert(self.parser.produces(input, parsed));
        }
        Parse::new(mapped, unused)
    }
}

impl<F, P, A, B, E, I> ParserFnMut<I> for MapOk<F, P>
where
    P: ParserFnMut<I, Value = PResult<A, E>>,
    F: FnMut(A) -> B,
{
    fn parse_mut(&mut self, input: I) -> (out: Parse<PResult<B, E>, I>) {
        let p = self.parser.parse_mut(input);
        let ghost parsed = p;
        let Parse { value, unused } = p;
        let mapped: PResult<B, E> = match value {
            PResult::Output(a) => PResult::Output((self.map)(a)),
            PResult::Pending(n) => PResult::Pending(n),
            PResult::Failed(e) => PResult::Failed(e),
        };
        proof {
            assert(old(self).parser.produces(input, parsed));
        }
        Parse::new(mapped, unused)
    }
}

impl<F, P, A, B, E, I> ParserFn<I> for MapOk<F, P>
where
    P: ParserFn<I, Value = PResult<A, E>>,
    F: Fn(A) -> B,
{
    fn parse(&self, input: I) -> (out: Parse<PResult<B, E>, I>) {
        let p = self.parser.parse(input);
        let ghost parsed = p;
        let Parse { value, unused } = p;
        let mapped: PResult<B, E> = match value {
            PResult::Output(a) => PResult::Output((self.map)(a)),
            PResult::Pending(n) => PResult::Pending(n),
            PResult::Failed(e) => PResult::Failed(e),
        };
        proof {
            assert(self.parser.produces(input, parsed));
        }
        Parse::new(mapped, unused)
    }
}

/// A parser that runs `parser` and applies `map` to a failure value;
/// successful and pending outcomes pass through unchanged.
#[derive(Clone, Copy, Default, Debug)]
pub struct MapErr<F, P> {
    /// The mapping to apply to a failure.
    pub map: F,
    /// The parser to map.
    pub parser: P,
}

impl<F, P> MapErr<F, P> {
    /// A parser that applies `map` to the failures of `parser`.
    pub fn new(map: F, parser: P) -> (r: Self)
        ensures
            r.map == map,
            r.parser == parser,
    {
        MapErr { map, parser }
    }
}

impl<F, P, A, E, U, I> ParserFnOnce<I> for MapErr<F, P>
where
    P: ParserFnOnce<I, Value = PResult<A, E>>,
    F: FnOnce(E) -> U,
{
    type Value = PResult<A, U>;

    open spec fn wf(&self) -> bool {
        &&& self.parser.wf()
        &&& forall|e: E| #[trigger] self.map.requires((e,))
    }

    open spec fn produces(&self, input: I, out: Parse<PResult<A, U>, I>) -> bool {
        exists|p: Parse<PResult<A, E>, I>|
            #[trigger] self.parser.produces(input, p) && out.unused == p.unused && match p.value {
                PResult::Output(a) => out.value == PResult::<A, U>::Output(a),
                PResult::Pending(n) => out.value == PResult::<A, U>::Pending(n),
                PResult::Failed(e) => out.value matches PResult::Failed(u) && self.map.ensures(
                    (e,),
                    u,
                ),
            }
    }

    fn parse_once(self, input: I) -> (out: Parse<PResult<A, U>, I>) {
        let p = self.parser.parse_once(input);
        let ghost parsed = p;
        let Parse { value, unused } = p;
        let mapped: PResult<A, U> = match value {
            PResult::Output(a) => PResult::Output(a),
            PResult::Pending(n) => PResult::Pending(n),
            PResult::Failed(e) => PResult::Failed((self.map)(e)),
        };
        proof {
            assert(self.parser.produces(input, parsed));
        }
        Parse::new(mapped, unused)
    }
}

impl<F, P, A, E, U, I> ParserFnMut<I> for MapErr<F, P>
where
    P: ParserFnMut<I, Value = PResult<A, E>>,
    F: FnMut(E) -> U,
{
    fn parse_mut(&mut self, input: I) -> (out: Parse<PResult<A, U>, I>) {
        let p = self.parser.parse_mut(input);
        let ghost parsed = p;
        let Parse { value, unused } = p;
        let mapped: PResult<A, U> = match value {
            PResult::Output(a) => PResult::Output(a),
            PResult::Pending(n) => PResult::Pending(n),
            PResult::Failed(e) => PResult::Failed((self.map)(e)),
        };
        proof {
            assert(old(self).parser.produces(input, parsed));
        }
        Parse::new(mapped, unused)
    }
}

impl<F, P, A, E, U, I> ParserFn<I> for MapErr<F, P>
where
    P: ParserFn<I, Value = PResult<A, E>>,
    F: Fn(E) -> U,
{
    fn parse(&self, input: I) -> (out: Parse<PResult<A, U>, I>) {
        let p = self.parser.parse(input);
        let ghost parsed = p;
        let Parse { value, unused } = p;
        let mapped: PResult<A, U> = match value {
            PResult::Output(a) => PResult::Output(a),
            PResult::Pending(n) => PResult::Pending(n),
            PResult::Failed(e) => PResult::Failed((self.map)(e)),
        };
        proof {
            assert(self.parser.produces(input, parsed));
        }
        Parse::new(mapped, unused)
    }
}

/// A parser mapped on its successes consumes input exactly as the parser does.
pub proof fn lemma_map_ok_keeps_input<'a, T: 'a, F, P, A, B, E>(m: MapOk<F, P>)
    where
        P: ParserFnOnce<&'a [T], Value = PResult<A, E>>,
        F: FnOnce(A) -> B,
    requires
        keeps_input::<'a, T, A, E, P>(m.parser),
    ensures
        keeps_input::<'a, T, B, E, MapOk<F, P>>(m),
{
    assert forall|input: &'a [T], out: Parse<PResult<B, E>, &'a [T]>|
        #[trigger] m.produces(input, out) implies consumes_prefix_only(input@, out) by {
        let p = choose|p: Parse<PResult<A, E>, &'a [T]>|
            #[trigger] m.parser.produces(input, p) && out.unused == p.unused && match p.value {
                PResult::Output(a) => out.value matches PResult::Output(b) && m.map.ensures(
                    (a,),
                    b,
                ),
                PResult::Pending(n) => out.value == PResult::<B, E>::Pending(n),
                PResult::Failed(e) => out.value == PResult::<B, E>::Failed(e),
            };
        assert(consumes_prefix_only(input@, p));
    }
}

/// A parser mapped on its failures consumes input exactly as the parser does.
pub proof fn lemma_map_err_keeps_input<'a, T: 'a, F, P, A, E, U>(m: MapErr<F, P>)
    where
        P: ParserFnOnce<&'a [T], Value = PResult<A, E>>,
        F: FnOnce(E) -> U,
    requires
        keeps_input::<'a, T, A, E, P>(m.parser),
    ensures
        keeps_input::<'a, T, A, U, MapErr<F, P>>(m),
{
    assert forall|input: &'a [T], out: Parse<PResult<A, U>, &'a [T]>|
        #[trigger] m.produces(input, out) implies consumes_prefix_only(input@, out) by {
    }
}

/// Mapping with the identity changes nothing: when `map` accepts every value
/// and returns exactly its argument, `Mapped(map, p)` is ready exactly when
/// `p` is, and gives exactly the results `p` gives.
pub proof fn lemma_map_identity<I, F, P, V>(map: F, p: P)
    where
        P: ParserFnOnce<I, Value = V>,
        F: FnOnce(V) -> V,
    requires
        forall|v: V| #[trigger] map.requires((v,)),
        forall|v: V, w: V| #[trigger] map.ensures((v,), w) <==> w == v,
    ensures
        (Mapped { map, parser: p }).wf() == p.wf(),
        forall|input: I, out: Parse<V, I>|
            #[trigger] (Mapped { map, parser: p }).produces(input, out) <==> p.produces(input, out),
{
    let m = Mapped { map, parser: p };
    assert forall|input: I, out: Parse<V, I>| #[trigger] m.produces(input, out) <==> p.produces(
        input,
        out,
    ) by {
        if p.produces(input, out) {
            assert(out == Parse { value: out.value, unused: out.unused });
            assert(map.ensures((out.value,), out.value));
            assert(p.produces(input, Parse { value: out.value, unused: out.unused }));
            assert(exists|v: V|
                #[trigger] p.produces(input, Parse { value: v, unused: out.unused })
                    && map.ensures((v,), out.value));
            assert(m.produces(input, out) == (exists|v: V|
                #[trigger] m.parser.produces(input, Parse { value: v, unused: out.unused })
                    && m.map.ensures((v,), out.value)));
            assert(m.produces(input, out));
        }
        if m.produces(input, out) {
            let v = choose|v: V|
                #[trigger] p.produces(input, Parse { value: v, unused: out.unused })
                    && map.ensures((v,), out.value);
            assert(v == out.value);
            assert(out == Parse { value: v, unused: out.unused });
            assert(p.produces(input, out));
        }
    }
}

} // verus!
