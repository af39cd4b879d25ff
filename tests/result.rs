use parser::result::collect;
use parser::{PResult, Parse};

#[test]
fn presult_map_touches_only_output() {
    assert_eq!(PResult::<u32, u8>::Output(2).map(|x| x * 3), PResult::Output(6));
    assert_eq!(PResult::<u32, u8>::Pending(4).map(|x| x * 3), PResult::Pending(4));
    assert_eq!(PResult::<u32, u8>::Failed(7).map(|x| x * 3), PResult::Failed(7));
}

#[test]
fn presult_map_fail_touches_only_failed() {
    assert_eq!(PResult::<u8, u32>::Failed(2).map_fail(|x| x + 1), PResult::Failed(3));
    assert_eq!(PResult::<u8, u32>::Output(2).map_fail(|x| x + 1), PResult::Output(2));
    assert_eq!(PResult::<u8, u32>::Pending(2).map_fail(|x| x + 1), PResult::Pending(2));
}

#[test]
fn presult_and_then_and_or_else() {
    let half = |x: u32| if x % 2 == 0 { PResult::Output(x / 2) } else { PResult::Failed(x) };
    assert_eq!(PResult::Output(8u32).and_then(half), PResult::Output(4));
    assert_eq!(PResult::Output(7u32).and_then(half), PResult::Failed(7));
    assert_eq!(PResult::<u32, u32>::Pending(1).and_then(half), PResult::Pending(1));
    let retry = |e: u32| PResult::<u32, u8>::Output(e + 100);
    assert_eq!(PResult::<u32, u32>::Failed(1).or_else(retry), PResult::Output(101));
    assert_eq!(PResult::<u32, u32>::Pending(2).or_else(retry), PResult::Pending(2));
}

#[test]
fn presult_and_or_replace() {
    assert_eq!(PResult::<u8, u8>::Output(1).and(PResult::<u16, u8>::Output(9)), PResult::Output(9));
    assert_eq!(PResult::<u8, u8>::Failed(1).and(PResult::<u16, u8>::Output(9)), PResult::Failed(1));
    assert_eq!(PResult::<u8, u8>::Failed(1).or(PResult::<u8, u16>::Failed(9)), PResult::Failed(9));
    assert_eq!(PResult::<u8, u8>::Pending(3).or(PResult::<u8, u16>::Output(9)), PResult::Pending(3));
}

#[test]
fn presult_introspection() {
    let o = PResult::<u8, u8>::Output(1);
    let p = PResult::<u8, u8>::Pending(2);
    let f = PResult::<u8, u8>::Failed(3);
    assert!(o.is_output() && !o.is_pending() && !o.is_failed());
    assert!(p.is_pending() && !p.is_output() && !p.is_failed());
    assert!(f.is_failed() && !f.is_output() && !f.is_pending());
    assert_eq!(o.output(), Some(1));
    assert_eq!(p.output(), None);
    assert_eq!(p.pending(), Some(2));
    assert_eq!(f.pending(), None);
    assert_eq!(f.failed(), Some(3));
    assert_eq!(o.failed(), None);
    assert_eq!(PResult::<u8, u8>::new(5), PResult::Output(5));
}

#[test]
fn presult_unwraps() {
    assert_eq!(PResult::<u8, u8>::Output(1).unwrap(), 1);
    assert_eq!(PResult::<u8, u8>::Output(1).expect("a value"), 1);
    assert_eq!(PResult::<u8, u8>::Failed(3).unwrap_failed(), 3);
    assert_eq!(PResult::<u8, u8>::Failed(3).expect_failed("a failure"), 3);
    assert_eq!(PResult::<u8, u8>::Output(4).unwrap_unchecked(), 4);
    assert_eq!(PResult::<u8, u8>::Failed(4).unwrap_failed_unchecked(), 4);
}

#[test]
fn presult_result_round_trip() {
    for r in [PResult::<u8, u8>::Output(1), PResult::Pending(2), PResult::Failed(3)] {
        assert_eq!(PResult::from_result(r.into_result()), r);
    }
    assert_eq!(PResult::<u8, u8>::Pending(2).into_result(), Err(Err(2)));
    assert_eq!(PResult::<u8, u8>::Failed(3).into_result(), Err(Ok(3)));
}

#[test]
fn collect_all_outputs_in_order() {
    let v = vec![PResult::<u8, u8>::Output(1), PResult::Output(2), PResult::Output(3)];
    assert_eq!(collect(v), PResult::Output(vec![1, 2, 3]));
    assert_eq!(collect(Vec::<PResult<u8, u8>>::new()), PResult::Output(vec![]));
}

#[test]
fn collect_stops_at_first_non_output() {
    let v = vec![PResult::<u8, u8>::Output(1), PResult::Failed(9), PResult::Pending(2)];
    assert_eq!(collect(v), PResult::Failed(9));
    let v = vec![PResult::<u8, u8>::Pending(4), PResult::Failed(9)];
    assert_eq!(collect(v), PResult::Pending(4));
}

#[test]
fn parse_map_and_transpose() {
    let p = Parse::new(3u32, "rest");
    assert_eq!(p.map(|x| x + 1), Parse::new(4, "rest"));
    assert_eq!(Parse::new(Some(1u8), "r").transpose(), Some(Parse::new(1, "r")));
    assert_eq!(Parse::new(None::<u8>, "r").transpose(), None);
    assert_eq!(Parse::new(Ok::<u8, u8>(1), "r").transpose(), Ok(Parse::new(1, "r")));
    assert_eq!(Parse::new(Err::<u8, u8>(2), "r").transpose(), Err(2));
}

#[test]
fn parse_channels() {
    let ok = Parse::new(PResult::<u8, u8>::Output(1), "r");
    assert_eq!(ok.into_result(), Ok(Parse::new(1, "r")));
    let pending = Parse::new(PResult::<u8, u8>::Pending(2), "r");
    assert_eq!(pending.into_result(), Err(Parse::new(Err(2), "r")));
    assert_eq!(Parse::<PResult<u8, u8>, &str>::from_ok(Parse::new(1, "r")), ok);
    assert_eq!(Parse::<PResult<u8, u8>, &str>::from_error(Parse::new(Err(2), "r")), pending);
}

#[test]
fn presult_from_result() {
    assert_eq!(PResult::from(Ok::<u8, u16>(1)), PResult::Output(1));
    assert_eq!(PResult::from(Err::<u8, u16>(2)), PResult::Failed(2));
}

#[test]
fn presult_settled() {
    assert_eq!(PResult::<u8, u16>::Output(1).settled(), Ok(Ok(1)));
    assert_eq!(PResult::<u8, u16>::Failed(2).settled(), Ok(Err(2)));
    assert_eq!(PResult::<u8, u16>::Pending(3).settled(), Err(3));
}
