use parser::combinators::{And, AndOk, Or};
use parser::parser::apply::{Apply, TryApply, TryApplyErr};
use parser::parser::mapping::{MapErr, MapOk, Mapped};
use parser::parser::sequence::{Pipe, SeqErr, SeqOk, Sequenced};
use parser::parser::sources::{Always, Eof, Next, OneOf, Sat, Tag};
use parser::{Never, PResult, Parse, Parser, ParserFn, ParserFnMut, ParserFnOnce};
use std::cell::Cell;

fn identity<V>(v: V) -> V {
    v
}

fn add_rest_len<'a>(p: Parse<u32, &'a [u8]>) -> Parse<u32, &'a [u8]> {
    Parse::new(p.value + p.unused.len() as u32, p.unused)
}

fn double_value<'a>(p: Parse<i32, &'a [u8]>) -> Parse<i32, &'a [u8]> {
    p.map(|x| x * 2)
}

fn len_of(r: PResult<&[u8], Never>) -> u32 {
    match r {
        PResult::Output(w) => w.len() as u32,
        _ => 0,
    }
}

#[test]
fn map_applies_to_value() {
    let p = Mapped::new(|x: u32| x * 2, Always::new(21u32));
    assert_eq!(p.parse(&b"abc"[..]), Parse::new(42, &b"abc"[..]));
}

#[test]
fn map_with_identity_is_the_parser() {
    let tag = Tag::new(&b"abc"[..]);
    let id = Mapped::new(identity, Tag::new(&b"abc"[..]));
    for input in [&b"abcdef"[..], &b"abx"[..], &b"ab"[..], &b""[..]] {
        assert_eq!(id.parse(input), tag.parse(input));
    }
}

#[test]
fn map_ok_maps_only_success() {
    let p = MapOk::new(|w: &[u8]| w.len(), Tag::new(&b"ab"[..]));
    assert_eq!(p.parse(&b"abc"[..]), Parse::new(PResult::Output(2), &b"c"[..]));
    assert_eq!(p.parse(&b"a"[..]), Parse::new(PResult::Pending(1), &b"a"[..]));
    assert_eq!(p.parse(&b"x"[..]), Parse::new(PResult::Failed(&b""[..]), &b"x"[..]));
}

#[test]
fn map_err_maps_only_failure() {
    let p = MapErr::new(|w: &[u8]| w.len(), Tag::new(&b"ab"[..]));
    assert_eq!(p.parse(&b"axc"[..]), Parse::new(PResult::Failed(1), &b"axc"[..]));
    assert_eq!(p.parse(&b"abc"[..]), Parse::new(PResult::Output(&b"ab"[..]), &b"c"[..]));
    assert_eq!(p.parse(&b"a"[..]), Parse::new(PResult::Pending(1), &b"a"[..]));
}

#[test]
fn apply_runs_in_order_and_applies() {
    let f = Always::new(|x: u32| x * 10);
    let p = Apply::new(f, Mapped::new(len_of, Next::new(2)));
    assert_eq!(p.parse(&b"abc"[..]), Parse::new(20, &b"c"[..]));
}

#[test]
fn apply_nesting_reads_input_in_same_order() {
    let input: &[u8] = b"abcd";
    let left = Apply::new(
        Apply::new(
            Always::new(|x: u32| move |y: u32| x * 10 + y),
            Mapped::new(len_of, Next::new(1)),
        ),
        Mapped::new(len_of, Next::new(2)),
    );
    let right = Apply::new(
        Mapped::new(
            |g: fn(u32) -> u32| move |(x, y): (u32, u32)| g(x) * 10 + y,
            Always::new((|x: u32| x) as fn(u32) -> u32),
        ),
        And::new(Mapped::new(len_of, Next::new(1)), Mapped::new(len_of, Next::new(2))),
    );
    let l = left.parse(input);
    let r = right.parse(input);
    assert_eq!(l, Parse::new(12, &b"d"[..]));
    assert_eq!(r, Parse::new(12, &b"d"[..]));
    assert_eq!(l.unused, r.unused);
}

#[test]
fn try_apply_applies_successes() {
    let f = MapOk::new(|_: &[u8]| |w: &[u8]| w.len(), Tag::new(&b"+"[..]));
    let p = TryApply::new(f, Tag::new(&b"ab"[..]));
    assert_eq!(p.parse(&b"+abc"[..]), Parse::new(PResult::Output(2), &b"c"[..]));
}

#[test]
fn try_apply_short_circuits_on_function_failure() {
    let calls = Cell::new(0u32);
    let f = MapOk::new(|_: &[u8]| |w: &[u8]| w.len(), Tag::new(&b"+"[..]));
    let counted = Sat::new(|_: usize, _: &u8| {
        calls.set(calls.get() + 1);
        true
    });
    let p = TryApply::new(f, MapErr::new(|_: Never| &b""[..], counted));
    assert_eq!(p.parse(&b"-ab"[..]), Parse::new(PResult::Failed(&b""[..]), &b"-ab"[..]));
    assert_eq!(p.parse(&b""[..]), Parse::new(PResult::Pending(1), &b""[..]));
    assert_eq!(calls.get(), 0);
}

#[test]
fn try_apply_failure_of_argument_reverts_input() {
    let f = MapOk::new(|_: &[u8]| |w: &[u8]| w.len(), Tag::new(&b"+"[..]));
    let p = TryApply::new(f, Tag::new(&b"ab"[..]));
    assert_eq!(p.parse(&b"+ax"[..]), Parse::new(PResult::Failed(&b"a"[..]), &b"+ax"[..]));
    assert_eq!(p.parse(&b"+a"[..]), Parse::new(PResult::Pending(1), &b"+a"[..]));
}

#[test]
fn try_apply_err_applies_failures() {
    let f = MapErr::new(
        |a: &[u8]| {
            let n = a.len();
            move |b: &[u8]| n * 10 + b.len()
        },
        Tag::new(&b"ab"[..]),
    );
    let p = TryApplyErr::new(f, Tag::new(&b"ax"[..]));
    assert_eq!(p.parse(&b"ay"[..]), Parse::new(PResult::Failed(11), &b"ay"[..]));
    assert_eq!(p.parse(&b"ax!"[..]), Parse::new(PResult::Output(&b"ax"[..]), &b"!"[..]));
    assert_eq!(p.parse(&b"ab!"[..]), Parse::new(PResult::Output(&b"ab"[..]), &b"!"[..]));
}

#[test]
fn pipe_sees_whole_parse() {
    let p = Pipe::new(add_rest_len, Always::new(1u32));
    assert_eq!(p.parse(&b"abc"[..]), Parse::new(4, &b"abc"[..]));
}

#[test]
fn sequenced_chooses_next_parser_from_value() {
    let p = Sequenced::new(|r: PResult<&[u8], Never>| Next::new(len_of(r) as usize), Sat::new(|_: usize, t: &u8| *t == b'x'));
    assert_eq!(p.parse(&b"xxabcd"[..]), Parse::new(PResult::Output(&b"ab"[..]), &b"cd"[..]));
}

#[test]
fn seq_ok_reads_length_prefixed_field() {
    let p = SeqOk::new(
        |d: &u8| MapErr::new(|_: Never| 0u8, Next::new((*d - b'0') as usize)),
        MapErr::new(|_: &u8| 1u8, OneOf::new(&b"0123456789"[..])),
    );
    assert_eq!(p.parse(&b"3abcd"[..]), Parse::new(PResult::Output(&b"abc"[..]), &b"d"[..]));
    assert_eq!(p.parse(&b"3ab"[..]), Parse::new(PResult::Pending(1), &b"3ab"[..]));
    assert_eq!(p.parse(&b"xab"[..]), Parse::new(PResult::Failed(1), &b"xab"[..]));
}

#[test]
fn seq_err_recovers_from_failure() {
    let p = SeqErr::new(|w: &[u8]| Tag::new(if w.is_empty() { &b"no"[..] } else { &b"yes"[..] }), Tag::new(&b"abc"[..]));
    assert_eq!(p.parse(&b"no!"[..]), Parse::new(PResult::Output(&b"no"[..]), &b"!"[..]));
    assert_eq!(p.parse(&b"abx"[..]), Parse::new(PResult::Failed(&b""[..]), &b"abx"[..]));
    assert_eq!(p.parse(&b"abc"[..]), Parse::new(PResult::Output(&b"abc"[..]), &b""[..]));
}

#[test]
fn and_pairs_values() {
    let p = And::new(Always::new('a'), Always::new('b'));
    assert_eq!(p.parse(&b"abc"[..]), Parse::new(('a', 'b'), &b"abc"[..]));
}

#[test]
fn and_ok_pairs_successes() {
    let p = AndOk::new(Tag::new(&b"ab"[..]), Tag::new(&b"cd"[..]));
    assert_eq!(p.parse(&b"abcde"[..]), Parse::new(PResult::Output((&b"ab"[..], &b"cd"[..])), &b"e"[..]));
}

#[test]
fn and_ok_non_success_keeps_starting_input() {
    let p = AndOk::new(Tag::new(&b"ab"[..]), Tag::new(&b"cd"[..]));
    assert_eq!(p.parse(&b"abcx"[..]), Parse::new(PResult::Failed(&b"c"[..]), &b"abcx"[..]));
    assert_eq!(p.parse(&b"abc"[..]), Parse::new(PResult::Pending(1), &b"abc"[..]));
    assert_eq!(p.parse(&b"xbcd"[..]), Parse::new(PResult::Failed(&b""[..]), &b"xbcd"[..]));
}

#[test]
fn or_takes_first_success() {
    let p = Or::new(Tag::new(&b"ab"[..]), Tag::new(&b"xy"[..]));
    assert_eq!(p.parse(&b"abc"[..]), Parse::new(PResult::Output(&b"ab"[..]), &b"c"[..]));
    assert_eq!(p.parse(&b"xyz"[..]), Parse::new(PResult::Output(&b"xy"[..]), &b"z"[..]));
}

#[test]
fn or_pairs_both_failures() {
    let p = Or::new(Tag::new(&b"ab"[..]), Tag::new(&b"xy"[..]));
    assert_eq!(p.parse(&b"aq"[..]), Parse::new(PResult::Failed((&b"a"[..], &b""[..])), &b"aq"[..]));
}

#[test]
fn or_pending_short_circuits() {
    let calls = Cell::new(0u32);
    let counted = Sat::new(|_: usize, _: &u8| {
        calls.set(calls.get() + 1);
        true
    });
    let p = Or::new(Next::new(5), counted);
    assert_eq!(p.parse(&b"ab"[..]), Parse::new(PResult::Pending(3), &b"ab"[..]));
    assert_eq!(calls.get(), 0);
}

#[test]
fn or_runs_second_on_failure() {
    let calls = Cell::new(0u32);
    let counted = Sat::new(|_: usize, t: &u8| {
        calls.set(calls.get() + 1);
        *t != b'!'
    });
    let p = Or::new(Tag::new(&b"zz"[..]), counted);
    assert_eq!(p.parse(&b"ab!"[..]), Parse::new(PResult::Output(&b"ab"[..]), &b"!"[..]));
    assert_eq!(calls.get(), 3);
}

#[test]
fn or_second_pending_keeps_starting_input() {
    let p = Or::new(Tag::new(&b"zz"[..]), Tag::new(&b"abc"[..]));
    assert_eq!(p.parse(&b"ab"[..]), Parse::new(PResult::Pending(1), &b"ab"[..]));
}

#[test]
fn facade_chains_combinators() {
    let p = Parser::tag(&b"ab"[..]).map_ok(|w: &[u8]| w.len()).or(Parser::always(PResult::<usize, u8>::Output(9)));
    assert_eq!(p.parse(&b"abc"[..]), Parse::new(PResult::Output(2), &b"c"[..]));
    assert_eq!(p.parse(&b"xyz"[..]), Parse::new(PResult::Output(9), &b"xyz"[..]));
}

#[test]
fn facade_sources() {
    assert_eq!(Parser::eof().parse(&b""[..]).value.is_output(), true);
    assert_eq!(Parser::next(2).parse(&b"abc"[..]), Parse::new(PResult::Output(&b"ab"[..]), &b"c"[..]));
    assert_eq!(Parser::<parser::parser::sources::NextN<1>>::nextn().parse(&b"abc"[..]), Parse::new(PResult::Output(&b"a"[..]), &b"bc"[..]));
    assert_eq!(Parser::one_of(&b"ad"[..]).parse(&b"dbc"[..]), Parse::new(PResult::Output(&b'd'), &b"bc"[..]));
    assert_eq!(Parser::none_of(&b"ab"[..]).parse(&b"abc"[..]), Parse::new(PResult::Failed(&b'a'), &b"abc"[..]));
    let pred = |_: usize, t: &u8| *t != b'c';
    assert_eq!(Parser::sat(&pred).parse(&b"abc"[..]), Parse::new(PResult::Output(&b"ab"[..]), &b"c"[..]));
    assert_eq!(Parser::sat1(&pred).parse(&b"c"[..]), Parse::new(PResult::Failed(&b'c'), &b"c"[..]));
}

#[test]
fn facade_value_combinators() {
    let p = Parser::always(21).map(|x: i32| x * 2);
    assert_eq!(p.parse(&b"abc"[..]), Parse::new(42, &b"abc"[..]));
    let p = Parser::always(|x: i32| x * 2).apply(Parser::always(21));
    assert_eq!(p.parse(&b"abc"[..]), Parse::new(42, &b"abc"[..]));
    let p = Parser::always(21).seq(|x: i32| Parser::always(x * 2));
    assert_eq!(p.parse(&b"abc"[..]), Parse::new(42, &b"abc"[..]));
    let p = Parser::always(21).pipe(double_value);
    assert_eq!(p.parse(&b"abc"[..]), Parse::new(42, &b"abc"[..]));
    let p = Parser::always('a').and(Parser::always('b'));
    assert_eq!(p.parse(&b"abc"[..]), Parse::new(('a', 'b'), &b"abc"[..]));
}

#[test]
fn facade_channel_combinators() {
    let p = Parser::always(PResult::<i32, i32>::Failed(21)).map_err(|x: i32| x * 2);
    assert_eq!(p.parse(&b"abc"[..]), Parse::new(PResult::Failed(42), &b"abc"[..]));
    let p = Parser::always(PResult::<_, ()>::Output(|x: i32| x * 2)).apply_ok(Parser::always(PResult::<i32, ()>::Output(21)));
    assert_eq!(p.parse(&b"abc"[..]), Parse::new(PResult::Output(42), &b"abc"[..]));
    let p = Parser::always(PResult::<i32, _>::Failed(|x: i32| x * 2)).apply_err(Parser::always(PResult::<i32, i32>::Failed(21)));
    assert_eq!(p.parse(&b"abc"[..]), Parse::new(PResult::Failed(42), &b"abc"[..]));
    let p = Parser::always(PResult::<i32, ()>::Output(21)).seq_ok(|x: i32| Parser::always(PResult::<i32, ()>::Output(x * 2)));
    assert_eq!(p.parse(&b"abc"[..]), Parse::new(PResult::Output(42), &b"abc"[..]));
    let p = Parser::always(PResult::<(), i32>::Failed(21)).seq_err(|x: i32| Parser::always(PResult::<(), i32>::Failed(x * 2)));
    assert_eq!(p.parse(&b"abc"[..]), Parse::new(PResult::Failed(42), &b"abc"[..]));
    let p = Parser::always(PResult::<char, ()>::Output('a')).and_ok(Parser::always(PResult::<char, ()>::Output('b')));
    assert_eq!(p.parse(&b"abc"[..]), Parse::new(PResult::Output(('a', 'b')), &b"abc"[..]));
}

#[test]
fn facade_wrapping() {
    let mut p = Parser::new(Tag::new(&b"ab"[..]));
    assert_eq!(p.as_ref().parse(&b"abc"[..]), Parse::new(PResult::Output(&b"ab"[..]), &b"c"[..]));
    assert_eq!(p.as_ref().copied().parse(&b"abc"[..]), p.parse(&b"abc"[..]));
    assert_eq!(p.as_ref().cloned().parse(&b"x"[..]), p.parse(&b"x"[..]));
    assert_eq!(p.as_mut().copied().parse(&b"abc"[..]), p.parse(&b"abc"[..]));
    assert_eq!(p.as_mut().cloned().parse_mut(&b"abc"[..]), p.parse_once(&b"abc"[..]));
    let q = Parser::new(Next::new(1)).map_inner(|n: Next| Next::new(n.count + 1));
    assert_eq!(q.into_inner().count, 2);
    assert_eq!(Parser::new(Eof).into_inner(), Eof);
}

#[test]
fn exclusive_tier_runs_stateful_mapping() {
    let mut seen = 0u32;
    let mut p = Mapped::new(
        |x: u32| {
            seen += 1;
            x + seen
        },
        Always::new(10u32),
    );
    assert_eq!(p.parse_mut(&b"ab"[..]), Parse::new(11, &b"ab"[..]));
    assert_eq!(p.parse_mut(&b"ab"[..]), Parse::new(12, &b"ab"[..]));
}

#[test]
fn shared_reference_is_a_parser() {
    let tag = Tag::new(&b"ab"[..]);
    let by_ref = &tag;
    assert_eq!(by_ref.parse_once(&b"abc"[..]), tag.parse(&b"abc"[..]));
    let both = AndOk::new(&tag, &tag);
    assert_eq!(both.parse(&b"abab!"[..]), Parse::new(PResult::Output((&b"ab"[..], &b"ab"[..])), &b"!"[..]));
}

#[test]
fn eof_after_tag() {
    let p = AndOk::new(Tag::new(&b"ab"[..]), MapErr::new(identity, Eof));
    assert_eq!(p.parse(&b"ab"[..]).value.is_output(), true);
    assert_eq!(p.parse(&b"abc"[..]), Parse::new(PResult::Failed(&b"c"[..]), &b"abc"[..]));
}
