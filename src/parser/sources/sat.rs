//! Parsers that take the longest prefix whose tokens satisfy a predicate.
use crate::parser::parser_fn::{consumes_prefix_only, keeps_input, ParserFn, ParserFnMut, ParserFnOnce};
use crate::result::{Never, PResult, Parse};
use vstd::prelude::*;

verus! {

/// The predicate accepts every index and token it may be asked about.
pub open spec fn pred_total<'a, T: 'a, F: FnOnce(usize, &'a T) -> bool>(pred: F) -> bool {
    forall|i: usize, t: &'a T| #[trigger] pred.requires((i, t))
}

/// The first `m` tokens of `input` satisfy `pred`, each asked with its index,
/// and the token after them, if any, does not.
pub open spec fn sat_prefix<'a, T: 'a, F: FnOnce(usize, &'a T) -> bool>(
    pred: F,
    input: &'a [T],
    m: int,
) -> bool {
    &&& 0 <= m <= input@.len()
    &&& forall|j: int| 0 <= j < m ==> #[trigger] pred.ensures((j as usize, &input@[j]), true)
    &&& m < input@.len() ==> pred.ensures((m as usize, &input@[m]), false)
}

/// The outcome of `Sat` once its predicate holds for exactly the first `m` tokens.
pub open spec fn sat_outcome<'a, T>(
    input: &'a [T],
    m: int,
    out: Parse<PResult<&'a [T], Never>, &'a [T]>,
) -> bool {
    if m == input@.len() {
        &&& out.value == PResult::<&'a [T], Never>::Pending(1)
        &&& out.unused == input
    } else {
        &&& out.value matches PResult::Output(w) && w@ == input@.take(m)
        &&& out.unused@ == input@.skip(m)
    }
}

/// The outcome of `Sat1` once its predicate holds for exactly the first `m` tokens.
pub open spec fn sat1_outcome<'a, T>(
    input: &'a [T],
    m: int,
    out: Parse<PResult<&'a [T], &'a T>, &'a [T]>,
) -> bool {
    if m == input@.len() {
        &&& out.value == PResult::<&'a [T], &'a T>::Pending(1)
        &&& out.unused == input
    } else if m == 0 {
        &&& out.value == PResult::<&'a [T], &'a T>::Failed(&input@[0])
        &&& out.unused == input
    } else {
        &&& out.value matches PResult::Output(w) && w@ == input@.take(m)
        &&& out.unused@ == input@.skip(m)
    }
}

/// Counts the leading tokens of `input` that satisfy `pred`.
fn count_sat_mut<'a, T: 'a, F: FnMut(usize, &'a T) -> bool>(pred: &mut F, input: &'a [T]) -> (m: usize)
    requires
        pred_total(*old(pred)),
    ensures
        *final(pred) == *old(pred),
        sat_prefix(*old(pred), input, m as int),
{
    let mut i: usize = 0;
    let mut more = true;
    while more && i < input.len()
        invariant
            0 <= i <= input@.len(),
            pred_total(*pred),
            *pred == *old(pred),
            forall|j: int| 0 <= j < i ==> #[trigger] (*pred).ensures((j as usize, &input@[j]), true),
            !more ==> i < input@.len() && (*pred).ensures((i, &input@[i as int]), false),
        decreases input@.len() - i + (if more { 1int } else { 0int }),
    {
        if pred(i, &input[i]) {
            i = i + 1;
        } else {
            more = false;
        }
    }
    i
}

/// Counts the leading tokens of `input` that satisfy `pred`.
fn count_sat<'a, T: 'a, F: Fn(usize, &'a T) -> bool>(pred: &F, input: &'a [T]) -> (m: usize)
    requires
        pred_total(*pred),
    ensures
        sat_prefix(*pred, input, m as int),
{
    let mut i: usize = 0;
    let mut more = true;
    while more && i < input.len()
        invariant
            0 <= i <= input@.len(),
            pred_total(*pred),
            forall|j: int| 0 <= j < i ==> #[trigger] (*pred).ensures((j as usize, &input@[j]), true),
            !more ==> i < input@.len() && (*pred).ensures((i, &input@[i as int]), false),
        decreases input@.len() - i + (if more { 1int } else { 0int }),
    {
        if pred(i, &input[i]) {
            i = i + 1;
        } else {
            more = false;
        }
    }
    i
}

fn sat_result<'a, T: 'a>(input: &'a [T], m: usize) -> (out: Parse<PResult<&'a [T], Never>, &'a [T]>)
    requires
        m <= input@.len(),
    ensures
        sat_outcome(input, m as int, out),
{
    if m < input.len() {
        let (value, unused) = input.split_at(m);
        Parse::new(PResult::Output(value), unused)
    } else {
        Parse::new(PResult::Pending(1), input)
    }
}

fn sat1_result<'a, T: 'a>(input: &'a [T], m: usize) -> (out: Parse<PResult<&'a [T], &'a T>, &'a [T]>)
    requires
        m <= input@.len(),
    ensures
        sat1_outcome(input, m as int, out),
{
    if m < input.len() {
        if m == 0 {
            Parse::new(PResult::Failed(&input[0]), input)
        } else {
            let (value, unused) = input.split_at(m);
            Parse::new(PResult::Output(value), unused)
        }
    } else {
        Parse::new(PResult::Pending(1), input)
    }
}

proof fn lemma_prefix_split<'a, T: 'a, V, E>(input: &'a [T], m: int, out: Parse<PResult<V, E>, &'a [T]>)
    requires
        0 <= m <= input@.len(),
        out.unused@ == input@.skip(m),
        out.value is Output,
    ensures
        input@ == input@.take(m) + out.unused@,
        consumes_prefix_only(input@, out),
{
    assert(input@ == input@.take(m) + input@.skip(m));
    assert(out.unused@ == input@.subrange(input@.len() - out.unused@.len(), input@.len() as int));
}

/// A parser that takes the longest prefix whose tokens satisfy a predicate.
///
/// The predicate gets each token with its index in the match. When every
/// token satisfies it the parser cannot yet know where the match ends, so it
/// asks for one more token. It never fails: no match at all is an empty output.
#[derive(PartialEq, Eq, Clone, Copy, Default, Debug)]
pub struct Sat<F> {
    /// The predicate on index and token.
    pub pred: F,
}

impl<F> Sat<F> {
    /// A parser that takes tokens while `pred` holds.
    pub fn new(pred: F) -> (r: Self)
        ensures
            r.pred == pred,
    {
        Sat { pred }
    }

    /// The predicate.
    pub fn into_inner(self) -> (r: F)
        ensures
            r == self.pred,
    {
        self.pred
    }
}

impl<'a, T: 'a, F: FnMut(usize, &'a T) -> bool> ParserFnOnce<&'a [T]> for Sat<F> {
    type Value = PResult<&'a [T], Never>;

    open spec fn wf(&self) -> bool {
        pred_total(self.pred)
    }

    open spec fn produces(&self, input: &'a [T], out: Parse<Self::Value, &'a [T]>) -> bool {
        exists|m: int| sat_prefix(self.pred, input, m) && sat_outcome(input, m, out)
    }

    fn parse_once(self, input: &'a [T]) -> (out: Parse<Self::Value, &'a [T]>) {
        let mut pred = self.pred;
        let m = count_sat_mut(&mut pred, input);
        sat_result(input, m)
    }
}

impl<'a, T: 'a, F: FnMut(usize, &'a T) -> bool> ParserFnMut<&'a [T]> for Sat<F> {
    fn parse_mut(&mut self, input: &'a [T]) -> (out: Parse<Self::Value, &'a [T]>) {
        let m = count_sat_mut(&mut self.pred, input);
        sat_result(input, m)
    }
}

impl<'a, T: 'a, F: Fn(usize, &'a T) -> bool> ParserFn<&'a [T]> for Sat<F> {
    fn parse(&self, input: &'a [T]) -> (out: Parse<Self::Value, &'a [T]>) {
        let m = count_sat(&self.pred, input);
        sat_result(input, m)
    }
}

/// `Sat` consumes nothing unless it succeeds, and then exactly the tokens it outputs.
pub proof fn lemma_sat_keeps_input<'a, T: 'a, F: FnMut(usize, &'a T) -> bool>(p: Sat<F>)
    ensures
        keeps_input::<'a, T, &'a [T], Never, Sat<F>>(p),
        forall|input: &'a [T], out: Parse<PResult<&'a [T], Never>, &'a [T]>|
            #[trigger] p.produces(input, out) ==> (out.value matches PResult::Output(w)
                ==> input@ == w@ + out.unused@),
{
    assert forall|input: &'a [T], out: Parse<PResult<&'a [T], Never>, &'a [T]>|
        #[trigger] p.produces(input, out) implies consumes_prefix_only(input@, out) && (
        out.value matches PResult::Output(w) ==> input@ == w@ + out.unused@) by {
        let m = choose|m: int| sat_prefix(p.pred, input, m) && sat_outcome(input, m, out);
        if m < input@.len() {
            lemma_prefix_split(input, m, out);
        }
    }
}

/// A parser that takes the longest prefix whose tokens satisfy a predicate,
/// and fails when not even the first token does.
///
/// The failure witness is that first token. As with [`Sat`], a match that
/// reaches the end of the input asks for one more token.
#[derive(PartialEq, Eq, Clone, Copy, Default, Debug)]
pub struct Sat1<F> {
    /// The predicate on index and token.
    pub pred: F,
}

impl<F> Sat1<F> {
    /// A parser that takes at least one token, and then tokens while `pred` holds.
    pub fn new(pred: F) -> (r: Self)
        ensures
            r.pred == pred,
    {
        Sat1 { pred }
    }

    /// The predicate.
    pub fn into_inner(self) -> (r: F)
        ensures
            r == self.pred,
    {
        self.pred
    }
}

impl<'a, T: 'a, F: FnMut(usize, &'a T) -> bool> ParserFnOnce<&'a [T]> for Sat1<F> {
    type Value = PResult<&'a [T], &'a T>;

    open spec fn wf(&self) -> bool {
        pred_total(self.pred)
    }

    open spec fn produces(&self, input: &'a [T], out: Parse<Self::Value, &'a [T]>) -> bool {
        exists|m: int| sat_prefix(self.pred, input, m) && sat1_outcome(input, m, out)
    }

    fn parse_once(self, input: &'a [T]) -> (out: Parse<Self::Value, &'a [T]>) {
        let mut pred = self.pred;
        let m = count_sat_mut(&mut pred, input);
        sat1_result(input, m)
    }
}

impl<'a, T: 'a, F: FnMut(usize, &'a T) -> bool> ParserFnMut<&'a [T]> for Sat1<F> {
    fn parse_mut(&mut self, input: &'a [T]) -> (out: Parse<Self::Value, &'a [T]>) {
        let m = count_sat_mut(&mut self.pred, input);
        sat1_result(input, m)
    }
}

impl<'a, T: 'a, F: Fn(usize, &'a T) -> bool> ParserFn<&'a [T]> for Sat1<F> {
    fn parse(&self, input: &'a [T]) -> (out: Parse<Self::Value, &'a [T]>) {
        let m = count_sat(&self.pred, input);
        sat1_result(input, m)
    }
}

/// `Sat1` consumes nothing unless it succeeds, and then exactly the tokens it outputs.
pub proof fn lemma_sat1_keeps_input<'a, T: 'a, F: FnMut(usize, &'a T) -> bool>(p: Sat1<F>)
    ensures
        keeps_input::<'a, T, &'a [T], &'a T, Sat1<F>>(p),
        forall|input: &'a [T], out: Parse<PResult<&'a [T], &'a T>, &'a [T]>|
            #[trigger] p.produces(input, out) ==> (out.value matches PResult::Output(w)
                ==> input@ == w@ + out.unused@),
{
    assert forall|input: &'a [T], out: Parse<PResult<&'a [T], &'a T>, &'a [T]>|
        #[trigger] p.produces(input, out) implies consumes_prefix_only(input@, out) && (
        out.value matches PResult::Output(w) ==> input@ == w@ + out.unused@) by {
        let m = choose|m: int| sat_prefix(p.pred, input, m) && sat1_outcome(input, m, out);
        if 0 < m < input@.len() {
            lemma_prefix_split(input, m, out);
        }
    }
}

} // verus!
