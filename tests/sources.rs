use parser::parser::sources::{Always, Eof, Next, NextN, NoneOf, OneOf, Sat, Sat1, Tag};
use parser::{PResult, Parse, ParserFn, ParserFnMut, ParserFnOnce};

#[test]
fn eof_on_empty_input_outputs_empty_witness() {
    let input: &[u8] = &[];
    let r = Eof.parse(input);
    assert!(matches!(r.value, PResult::Output(w) if w.is_empty()));
    assert!(r.unused.is_empty());
}

#[test]
fn eof_on_tokens_fails_with_whole_input() {
    let input: &[u8] = &[1, 2];
    let r = Eof.parse(input);
    assert_eq!(r, Parse::new(PResult::Failed(input), input));
}

#[test]
fn always_outputs_value_and_consumes_nothing() {
    let p = Always::new(42u32);
    let input: &[u8] = b"abc";
    assert_eq!(p.parse(input), Parse::new(42, input));
    assert_eq!(p.into_inner(), 42);
}

#[test]
fn next_takes_count_tokens() {
    let r = Next::new(3).parse(&b"abcd"[..]);
    assert_eq!(r, Parse::new(PResult::Output(&b"abc"[..]), &b"d"[..]));
}

#[test]
fn next_takes_whole_input_of_exact_length() {
    let r = Next::new(3).parse(&b"abc"[..]);
    assert_eq!(r, Parse::new(PResult::Output(&b"abc"[..]), &b""[..]));
}

#[test]
fn next_reports_exact_deficit() {
    let r = Next::new(5).parse(&b"ab"[..]);
    assert_eq!(r, Parse::new(PResult::Pending(3), &b"ab"[..]));
}

#[test]
fn next_zero_outputs_empty() {
    let r = Next::new(0).parse(&b"ab"[..]);
    assert_eq!(r, Parse::new(PResult::Output(&b""[..]), &b"ab"[..]));
}

#[test]
fn nextn_takes_fixed_count() {
    let p: NextN<2> = NextN;
    assert_eq!(p.parse(&b"abc"[..]), Parse::new(PResult::Output(&b"ab"[..]), &b"c"[..]));
    assert_eq!(p.parse(&b"a"[..]), Parse::new(PResult::Pending(1), &b"a"[..]));
    assert_eq!(p.to_next().count, 2);
}

#[test]
fn tag_matches_prefix() {
    let p = Tag::new(&b"abc"[..]);
    let r = p.parse(&b"abcdef"[..]);
    assert_eq!(r, Parse::new(PResult::Output(&b"abc"[..]), &b"def"[..]));
}

#[test]
fn tag_mismatch_fails_with_matched_prefix() {
    let p = Tag::new(&b"abc"[..]);
    let r = p.parse(&b"abx"[..]);
    assert_eq!(r, Parse::new(PResult::Failed(&b"ab"[..]), &b"abx"[..]));
}

#[test]
fn tag_on_short_input_asks_for_rest() {
    let p = Tag::new(&b"abc"[..]);
    let r = p.parse(&b"ab"[..]);
    assert_eq!(r, Parse::new(PResult::Pending(1), &b"ab"[..]));
    let r = p.parse(&b""[..]);
    assert_eq!(r, Parse::new(PResult::Pending(3), &b""[..]));
}

#[test]
fn tag_mismatch_at_first_token_fails_with_empty_prefix() {
    let p = Tag::new(&b"abc"[..]);
    let r = p.parse(&b"xbc"[..]);
    assert_eq!(r, Parse::new(PResult::Failed(&b""[..]), &b"xbc"[..]));
}

#[test]
fn one_of_takes_allowed_token() {
    let p = OneOf::new(&b"ad"[..]);
    assert_eq!(p.parse(&b"abc"[..]), Parse::new(PResult::Output(&b'a'), &b"bc"[..]));
    assert_eq!(p.parse(&b"dbc"[..]), Parse::new(PResult::Output(&b'd'), &b"bc"[..]));
}

#[test]
fn one_of_fails_on_other_token() {
    let p = OneOf::new(&b"ad"[..]);
    assert_eq!(p.parse(&b"xbc"[..]), Parse::new(PResult::Failed(&b'x'), &b"xbc"[..]));
}

#[test]
fn one_of_on_empty_input_asks_for_one() {
    let p = OneOf::new(&b"ad"[..]);
    assert_eq!(p.parse(&b""[..]), Parse::new(PResult::Pending(1), &b""[..]));
}

#[test]
fn none_of_is_complement_of_one_of() {
    let p = NoneOf::new(&b"ab"[..]);
    assert_eq!(p.parse(&b"abc"[..]), Parse::new(PResult::Failed(&b'a'), &b"abc"[..]));
    assert_eq!(p.parse(&b"dbc"[..]), Parse::new(PResult::Output(&b'd'), &b"bc"[..]));
    assert_eq!(p.parse(&b""[..]), Parse::new(PResult::Pending(1), &b""[..]));
}

#[test]
fn sat_stops_at_first_rejected_token() {
    let p = Sat::new(|_: usize, t: &u8| *t != b'c');
    let r = p.parse(&b"abc"[..]);
    assert_eq!(r, Parse::new(PResult::Output(&b"ab"[..]), &b"c"[..]));
}

#[test]
fn sat_on_exhausted_input_asks_for_more() {
    let p = Sat::new(|_: usize, t: &u8| *t != b'c');
    let r = p.parse(&b"ab"[..]);
    assert_eq!(r, Parse::new(PResult::Pending(1), &b"ab"[..]));
    let r = p.parse(&b""[..]);
    assert_eq!(r, Parse::new(PResult::Pending(1), &b""[..]));
}

#[test]
fn sat_with_no_match_outputs_empty() {
    let p = Sat::new(|_: usize, t: &u8| *t != b'c');
    let r = p.parse(&b"cde"[..]);
    assert_eq!(r, Parse::new(PResult::Output(&b""[..]), &b"cde"[..]));
}

#[test]
fn sat1_with_no_match_fails_with_first_token() {
    let p = Sat1::new(|_: usize, t: &u8| *t != b'c');
    let r = p.parse(&b"cde"[..]);
    assert_eq!(r, Parse::new(PResult::Failed(&b'c'), &b"cde"[..]));
}

#[test]
fn sat1_matches_like_sat() {
    let p = Sat1::new(|_: usize, t: &u8| *t != b'c');
    assert_eq!(p.parse(&b"abc"[..]), Parse::new(PResult::Output(&b"ab"[..]), &b"c"[..]));
    assert_eq!(p.parse(&b"ab"[..]), Parse::new(PResult::Pending(1), &b"ab"[..]));
}

#[test]
fn sat_passes_index_within_match() {
    let p = Sat::new(|i: usize, _: &u8| i < 2);
    let r = p.parse(&b"xyz"[..]);
    assert_eq!(r, Parse::new(PResult::Output(&b"xy"[..]), &b"z"[..]));
}

#[test]
fn tiers_agree_on_source_parsers() {
    let input: &[u8] = b"abcdef";
    let mut p = Tag::new(&b"abc"[..]);
    let shared = p.parse(input);
    let exclusive = p.parse_mut(input);
    let once = p.parse_once(input);
    assert_eq!(shared, exclusive);
    assert_eq!(shared, once);
}

#[test]
fn failures_leave_input_unchanged() {
    let input: &[u8] = b"xyz";
    assert_eq!(Tag::new(&b"ab"[..]).parse(input).unused, input);
    assert_eq!(OneOf::new(&b"ab"[..]).parse(input).unused, input);
    assert_eq!(Sat1::new(|_: usize, t: &u8| *t == b'a').parse(input).unused, input);
    assert_eq!(Next::new(4).parse(input).unused, input);
    assert_eq!(Eof.parse(input).unused, input);
}

#[test]
fn success_consumes_exactly_the_output() {
    let input: &[u8] = b"abcdef";
    let r = Tag::new(&b"abc"[..]).parse(input);
    match r.value {
        PResult::Output(w) => assert_eq!([w, r.unused].concat(), input.to_vec()),
        _ => panic!("expected a success"),
    }
    let r = Sat::new(|_: usize, t: &u8| *t < b'e').parse(input);
    match r.value {
        PResult::Output(w) => assert_eq!([w, r.unused].concat(), input.to_vec()),
        _ => panic!("expected a success"),
    }
}
