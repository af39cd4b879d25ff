//! The parser that matches a literal sequence of tokens.
use crate::parser::parser_fn::{consumes_prefix_only, keeps_input, ParserFn, ParserFnMut, ParserFnOnce};
use crate::result::{PResult, Parse};
use vstd::prelude::*;
use vstd::std_specs::cmp::PartialEqSpec;

verus! {

/// The length of the longest common prefix of `tag` and `input`, counting on from `i`.
pub open spec fn agree_from<T: PartialEq>(tag: Seq<T>, input: Seq<T>, i: int) -> int
    decreases tag.len() - i,
{
    if 0 <= i < tag.len() && i < input.len() && tag[i].eq_spec(&input[i]) {
        agree_from(tag, input, i + 1)
    } else {
        i
    }
}

/// The outcome of matching `tag` against the start of `input`.
///
/// With `m` the length of the longest common prefix: the whole tag matched
/// gives the matched tokens; input that ran out first asks for the rest of
/// the tag; a mismatch fails with the tokens matched before it.
pub open spec fn spec_tag<'a, T: PartialEq>(
    tag: Seq<T>,
    input: &'a [T],
    out: Parse<PResult<&'a [T], &'a [T]>, &'a [T]>,
) -> bool {
    let m = agree_from(tag, input@, 0);
    if m == tag.len() {
        &&& out.value matches PResult::Output(w) && w@ == input@.take(m)
        &&& out.unused@ == input@.skip(m)
    } else if m == input@.len() {
        &&& out.value == PResult::<&'a [T], &'a [T]>::Pending((tag.len() - m) as usize)
        &&& out.unused == input
    } else {
        &&& out.value matches PResult::Failed(w) && w@ == input@.take(m)
        &&& out.unused == input
    }
}

proof fn lemma_agree_from_bounds<T: PartialEq>(tag: Seq<T>, input: Seq<T>, i: int)
    requires
        0 <= i,
    ensures
        i <= agree_from(tag, input, i),
        i <= tag.len() && i <= input.len() ==> agree_from(tag, input, i) <= tag.len()
            && agree_from(tag, input, i) <= input.len(),
    decreases tag.len() - i,
{
    if 0 <= i < tag.len() && i < input.len() && tag[i].eq_spec(&input[i]) {
        lemma_agree_from_bounds(tag, input, i + 1);
    }
}

fn match_tag<'a, 's, T: PartialEq>(tag: &'s [T], input: &'a [T]) -> (out: Parse<
    PResult<&'a [T], &'a [T]>,
    &'a [T],
>)
    requires
        T::obeys_eq_spec(),
    ensures
        spec_tag(tag@, input, out),
{
    let mut i: usize = 0;
    proof {
        lemma_agree_from_bounds(tag@, input@, 0);
    }
    while i < tag.len() && i < input.len() && tag[i] == input[i]
        invariant
            0 <= i <= tag@.len(),
            i <= input@.len(),
            agree_from(tag@, input@, i as int) == agree_from(tag@, input@, 0),
            T::obeys_eq_spec(),
        decreases tag@.len() - i,
    {
        i = i + 1;
    }
    let ghost m = agree_from(tag@, input@, 0);
    assert(m == i);
    if i == tag.len() {
        let (value, unused) = input.split_at(i);
        Parse::new(PResult::Output(value), unused)
    } else if i == input.len() {
        Parse::new(PResult::Pending(tag.len() - i), input)
    } else {
        let (matched, _) = input.split_at(i);
        Parse::new(PResult::Failed(matched), input)
    }
}

/// A parser that matches a literal sequence of tokens at the start of its input.
#[derive(PartialEq, Eq, Clone, Copy, Default, Debug)]
pub struct Tag<S> {
    /// The expected tokens.
    pub tag: S,
}

impl<S> Tag<S> {
    /// A parser that matches `tag`.
    pub fn new(tag: S) -> (r: Self)
        ensures
            r.tag == tag,
    {
        Tag { tag }
    }

    /// The expected tokens.
    pub fn into_inner(self) -> (r: S)
        ensures
            r == self.tag,
    {
        self.tag
    }
}

impl<'a, 's, T: PartialEq> ParserFnOnce<&'a [T]> for Tag<&'s [T]> {
    type Value = PResult<&'a [T], &'a [T]>;

    open spec fn wf(&self) -> bool {
        T::obeys_eq_spec()
    }

    open spec fn produces(&self, input: &'a [T], out: Parse<Self::Value, &'a [T]>) -> bool {
        spec_tag(self.tag@, input, out)
    }

    fn parse_once(self, input: &'a [T]) -> (out: Parse<Self::Value, &'a [T]>) {
        match_tag(self.tag, input)
    }
}

impl<'a, 's, T: PartialEq> ParserFnMut<&'a [T]> for Tag<&'s [T]> {
    fn parse_mut(&mut self, input: &'a [T]) -> (out: Parse<Self::Value, &'a [T]>) {
        match_tag(self.tag, input)
    }
}

impl<'a, 's, T: PartialEq> ParserFn<&'a [T]> for Tag<&'s [T]> {
    fn parse(&self, input: &'a [T]) -> (out: Parse<Self::Value, &'a [T]>) {
        match_tag(self.tag, input)
    }
}

/// `Tag` consumes nothing unless it succeeds, and then exactly the tokens it outputs.
pub proof fn lemma_tag_keeps_input<'a, 's, T: PartialEq + 'a>(p: Tag<&'s [T]>)
    ensures
        keeps_input::<'a, T, &'a [T], &'a [T], Tag<&'s [T]>>(p),
        forall|input: &'a [T], out: Parse<PResult<&'a [T], &'a [T]>, &'a [T]>|
            #[trigger] p.produces(input, out) ==> (out.value matches PResult::Output(w)
                ==> input@ == w@ + out.unused@),
{
    assert forall|input: &'a [T], out: Parse<PResult<&'a [T], &'a [T]>, &'a [T]>|
        #[trigger] p.produces(input, out) implies consumes_prefix_only(input@, out) && (
        out.value matches PResult::Output(w) ==> input@ == w@ + out.unused@) by {
        lemma_agree_from_bounds(p.tag@, input@, 0);
        let m = agree_from(p.tag@, input@, 0);
        if m == p.tag@.len() {
            assert(input@ == input@.take(m) + input@.skip(m));
            assert(out.unused@ == input@.subrange(
                input@.len() - out.unused@.len(),
                input@.len() as int,
            ));
        }
    }
}

} // verus!
