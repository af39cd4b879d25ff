//! Parsers that take one token by membership in a set.
use crate::parser::parser_fn::{consumes_prefix_only, keeps_input, ParserFn, ParserFnMut, ParserFnOnce};
use crate::result::{PResult, Parse};
use vstd::prelude::*;
use vstd::std_specs::cmp::PartialEqSpec;

verus! {

/// Some token of `set` equals `t`.
pub open spec fn set_contains<T: PartialEq>(set: Seq<T>, t: T) -> bool {
    exists|k: int| 0 <= k < set.len() && #[trigger] set[k].eq_spec(&t)
}

/// The outcome of taking one token of `input` that must be in `set` when
/// `member` holds, and must not be in it otherwise.
pub open spec fn spec_one_token<'a, T: PartialEq>(
    set: Seq<T>,
    member: bool,
    input: &'a [T],
    out: Parse<PResult<&'a T, &'a T>, &'a [T]>,
) -> bool {
    if input@.len() == 0 {
        &&& out.value == PResult::<&'a T, &'a T>::Pending(1)
        &&& out.unused == input
    } else if set_contains(set, input@[0]) == member {
        &&& out.value == PResult::<&'a T, &'a T>::Output(&input@[0])
        &&& out.unused@ == input@.skip(1)
    } else {
        &&& out.value == PResult::<&'a T, &'a T>::Failed(&input@[0])
        &&& out.unused == input
    }
}

fn contains<T: PartialEq>(set: &[T], t: &T) -> (r: bool)
    requires
        T::obeys_eq_spec(),
    ensures
        r == set_contains(set@, *t),
{
    let mut k: usize = 0;
    while k < set.len()
        invariant
            0 <= k <= set@.len(),
            T::obeys_eq_spec(),
            forall|j: int| 0 <= j < k ==> !(#[trigger] set@[j].eq_spec(t)),
        decreases set@.len() - k,
    {
        if set[k] == *t {
            return true;
        }
        k = k + 1;
    }
    false
}

fn one_token<'a, T: PartialEq>(set: &[T], member: bool, input: &'a [T]) -> (out: Parse<
    PResult<&'a T, &'a T>,
    &'a [T],
>)
    requires
        T::obeys_eq_spec(),
    ensures
        spec_one_token(set@, member, input, out),
{
    if input.len() == 0 {
        Parse::new(PResult::Pending(1), input)
    } else {
        let tok = &input[0];
        if contains(set, tok) == member {
            let (_, unused) = input.split_at(1);
            Parse::new(PResult::Output(tok), unused)
        } else {
            Parse::new(PResult::Failed(tok), input)
        }
    }
}

proof fn lemma_one_token_keeps_input<'a, T: PartialEq + 'a>(set: Seq<T>, member: bool)
    ensures
        forall|input: &'a [T], out: Parse<PResult<&'a T, &'a T>, &'a [T]>|
            #[trigger] spec_one_token(set, member, input, out) ==> consumes_prefix_only(
                input@,
                out,
            ) && (out.value is Output ==> input@ == seq![input@[0]] + out.unused@),
{
    assert forall|input: &'a [T], out: Parse<PResult<&'a T, &'a T>, &'a [T]>|
        #[trigger] spec_one_token(set, member, input, out) implies consumes_prefix_only(
        input@,
        out,
    ) && (out.value is Output ==> input@ == seq![input@[0]] + out.unused@) by {
        if input@.len() > 0 && set_contains(set, input@[0]) == member {
            assert(input@ == seq![input@[0]] + input@.skip(1));
            assert(out.unused@ == input@.subrange(
                input@.len() - out.unused@.len(),
                input@.len() as int,
            ));
        }
    }
}

/// A parser that takes one token if it is in a set of allowed tokens.
///
/// Empty input asks for one token; a token outside the set is the failure witness.
#[derive(PartialEq, Eq, Clone, Copy, Default, Debug)]
pub struct OneOf<S> {
    /// The allowed tokens.
    pub one_of: S,
}

impl<S> OneOf<S> {
    /// A parser that takes one token of `one_of`.
    pub fn new(one_of: S) -> (r: Self)
        ensures
            r.one_of == one_of,
    {
        OneOf { one_of }
    }

    /// The allowed tokens.
    pub fn into_inner(self) -> (r: S)
        ensures
            r == self.one_of,
    {
        self.one_of
    }
}

impl<'a, 's, T: PartialEq> ParserFnOnce<&'a [T]> for OneOf<&'s [T]> {
    type Value = PResult<&'a T, &'a T>;

    open spec fn wf(&self) -> bool {
        T::obeys_eq_spec()
    }

    open spec fn produces(&self, input: &'a [T], out: Parse<Self::Value, &'a [T]>) -> bool {
        spec_one_token(self.one_of@, true, input, out)
    }

    fn parse_once(self, input: &'a [T]) -> (out: Parse<Self::Value, &'a [T]>) {
        one_token(self.one_of, true, input)
    }
}

impl<'a, 's, T: PartialEq> ParserFnMut<&'a [T]> for OneOf<&'s [T]> {
    fn parse_mut(&mut self, input: &'a [T]) -> (out: Parse<Self::Value, &'a [T]>) {
        one_token(self.one_of, true, input)
    }
}

impl<'a, 's, T: PartialEq> ParserFn<&'a [T]> for OneOf<&'s [T]> {
    fn parse(&self, input: &'a [T]) -> (out: Parse<Self::Value, &'a [T]>) {
        one_token(self.one_of, true, input)
    }
}

/// `OneOf` consumes nothing unless it succeeds, and then exactly its one token.
pub proof fn lemma_one_of_keeps_input<'a, 's, T: PartialEq + 'a>(p: OneOf<&'s [T]>)
    ensures
        keeps_input::<'a, T, &'a T, &'a T, OneOf<&'s [T]>>(p),
        forall|input: &'a [T], out: Parse<PResult<&'a T, &'a T>, &'a [T]>|
            #[trigger] p.produces(input, out) ==> (out.value is Output ==> input@ == seq![
                input@[0],
            ] + out.unused@),
{
    lemma_one_token_keeps_input::<'a, T>(p.one_of@, true);
}

/// A parser that takes one token if it is not in a set of forbidden tokens.
///
/// Empty input asks for one token; a token inside the set is the failure witness.
#[derive(PartialEq, Eq, Clone, Copy, Default, Debug)]
pub struct NoneOf<S> {
    /// The forbidden tokens.
    pub none_of: S,
}

impl<S> NoneOf<S> {
    /// A parser that takes one token not in `none_of`.
    pub fn new(none_of: S) -> (r: Self)
        ensures
            r.none_of == none_of,
    {
        NoneOf { none_of }
    }

    /// The forbidden tokens.
    pub fn into_inner(self) -> (r: S)
        ensures
            r == self.none_of,
    {
        self.none_of
    }
}

impl<'a, 's, T: PartialEq> ParserFnOnce<&'a [T]> for NoneOf<&'s [T]> {
    type Value = PResult<&'a T, &'a T>;

    open spec fn wf(&self) -> bool {
        T::obeys_eq_spec()
    }

    open spec fn produces(&self, input: &'a [T], out: Parse<Self::Value, &'a [T]>) -> bool {
        spec_one_token(self.none_of@, false, input, out)
    }

    fn parse_once(self, input: &'a [T]) -> (out: Parse<Self::Value, &'a [T]>) {
        one_token(self.none_of, false, input)
    }
}

impl<'a, 's, T: PartialEq> ParserFnMut<&'a [T]> for NoneOf<&'s [T]> {
    fn parse_mut(&mut self, input: &'a [T]) -> (out: Parse<Self::Value, &'a [T]>) {
        one_token(self.none_of, false, input)
    }
}

impl<'a, 's, T: PartialEq> ParserFn<&'a [T]> for NoneOf<&'s [T]> {
    fn parse(&self, input: &'a [T]) -> (out: Parse<Self::Value, &'a [T]>) {
        one_token(self.none_of, false, input)
    }
}

/// `NoneOf` consumes nothing unless it succeeds, and then exactly its one token.
pub proof fn lemma_none_of_keeps_input<'a, 's, T: PartialEq + 'a>(p: NoneOf<&'s [T]>)
    ensures
        keeps_input::<'a, T, &'a T, &'a T, NoneOf<&'s [T]>>(p),
        forall|input: &'a [T], out: Parse<PResult<&'a T, &'a T>, &'a [T]>|
            #[trigger] p.produces(input, out) ==> (out.value is Output ==> input@ == seq![
                input@[0],
            ] + out.unused@),
{
    lemma_one_token_keeps_input::<'a, T>(p.none_of@, false);
}

} // verus!
