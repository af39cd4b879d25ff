//! The values that parsers return.
use vstd::prelude::*;

verus! {

/// The tri-state outcome of a parse attempt.
#[derive(PartialEq, Eq, Clone, Copy, Debug)]
pub enum PResult<T, E> {
    /// The parse succeeded with a value.
    Output(T),
    /// At least this many more tokens are needed before success or failure is known.
    Pending(usize),
    /// The parse failed; the payload describes why.
    Failed(E),
}

/// The failure type of parsers that never fail. No value of it is ever made
/// outside this crate, and the crate makes none.
#[derive(PartialEq, Eq, Clone, Copy, Debug)]
pub struct Never(());

/// What a parser returns: its value together with the input it did not consume.
#[derive(PartialEq, Eq, Clone, Copy, Debug)]
pub struct Parse<T, I> {
    /// The produced value.
    pub value: T,
    /// The unused input.
    pub unused: I,
}

impl<T, I> Parse<T, I> {
    /// Pairs `value` with the unused input `unused`.
    pub fn new(value: T, unused: I) -> (r: Self)
        ensures
            r.value == value,
            r.unused == unused,
    {
        Parse { value, unused }
    }

    /// Transforms the value, leaving the unused input alone.
    pub fn map<U, F: FnOnce(T) -> U>(self, f: F) -> (r: Parse<U, I>)
        requires
            f.requires((self.value,)),
        ensures
            f.ensures((self.value,), r.value),
            r.unused == self.unused,
    {
        Parse { value: f(self.value), unused: self.unused }
    }
}

impl<T, E> PResult<T, E> {
    /// Wraps `value` as a success.
    pub fn new(value: T) -> (r: Self)
        ensures
            r == PResult::<T, E>::Output(value),
    {
        PResult::Output(value)
    }

    /// Transforms a success value; pending and failed outcomes pass through.
    pub fn map<U, F: FnOnce(T) -> U>(self, f: F) -> (r: PResult<U, E>)
        requires
            self matches PResult::Output(v) ==> f.requires((v,)),
        ensures
            match self {
                PResult::Output(v) => r matches PResult::Output(u) && f.ensures((v,), u),
                PResult::Pending(n) => r == PResult::<U, E>::Pending(n),
                PResult::Failed(e) => r == PResult::<U, E>::Failed(e),
            },
    {
        match self {
            PResult::Output(value) => PResult::Output(f(value)),
            PResult::Pending(pending) => PResult::Pending(pending),
            PResult::Failed(error) => PResult::Failed(error),
        }
    }

    /// Transforms a failure value; successful and pending outcomes pass through.
    pub fn map_fail<U, F: FnOnce(E) -> U>(self, f: F) -> (r: PResult<T, U>)
        requires
            self matches PResult::Failed(e) ==> f.requires((e,)),
        ensures
            match self {
                PResult::Output(v) => r == PResult::<T, U>::Output(v),
                PResult::Pending(n) => r == PResult::<T, U>::Pending(n),
                PResult::Failed(e) => r matches PResult::Failed(u) && f.ensures((e,), u),
            },
    {
        match self {
            PResult::Output(value) => PResult::Output(value),
            PResult::Pending(pending) => PResult::Pending(pending),
            PResult::Failed(error) => PResult::Failed(f(error)),
        }
    }

    /// Continues a success with `f`; pending and failed outcomes pass through.
    pub fn and_then<U, F: FnOnce(T) -> PResult<U, E>>(self, f: F) -> (r: PResult<U, E>)
        requires
            self matches PResult::Output(v) ==> f.requires((v,)),
        ensures
            match self {
                PResult::Output(v) => f.ensures((v,), r),
                PResult::Pending(n) => r == PResult::<U, E>::Pending(n),
                PResult::Failed(e) => r == PResult::<U, E>::Failed(e),
            },
    {
        match self {
            PResult::Output(value) => f(value),
            PResult::Pending(pending) => PResult::Pending(pending),
            PResult::Failed(error) => PResult::Failed(error),
        }
    }

    /// Replaces a success with `rhs`; pending and failed outcomes pass through.
    pub fn and<U>(self, rhs: PResult<U, E>) -> (r: PResult<U, E>)
        ensures
            match self {
                PResult::Output(_) => r == rhs,
                PResult::Pending(n) => r == PResult::<U, E>::Pending(n),
                PResult::Failed(e) => r == PResult::<U, E>::Failed(e),
            },
    {
        match self {
            PResult::Output(_) => rhs,
            PResult::Pending(pending) => PResult::Pending(pending),
            PResult::Failed(error) => PResult::Failed(error),
        }
    }

    /// Continues a failure with `f`; successful and pending outcomes pass through.
    pub fn or_else<U, F: FnOnce(E) -> PResult<T, U>>(self, f: F) -> (r: PResult<T, U>)
        requires
            self matches PResult::Failed(e) ==> f.requires((e,)),
        ensures
            match self {
                PResult::Output(v) => r == PResult::<T, U>::Output(v),
                PResult::Pending(n) => r == PResult::<T, U>::Pending(n),
                PResult::Failed(e) => f.ensures((e,), r),
            },
    {
        match self {
            PResult::Output(value) => PResult::Output(value),
            PResult::Pending(pending) => PResult::Pending(pending),
            PResult::Failed(error) => f(error),
        }
    }

    /// Replaces a failure with `rhs`; successful and pending outcomes pass through.
    pub fn or<U>(self, rhs: PResult<T, U>) -> (r: PResult<T, U>)
        ensures
            match self {
                PResult::Output(v) => r == PResult::<T, U>::Output(v),
                PResult::Pending(n) => r == PResult::<T, U>::Pending(n),
                PResult::Failed(_) => r == rhs,
            },
    {
        match self {
            PResult::Output(value) => PResult::Output(value),
            PResult::Pending(pending) => PResult::Pending(pending),
            PResult::Failed(_) => rhs,
        }
    }

    /// Whether this is a success.
    pub fn is_output(&self) -> (r: bool)
        ensures
            r == (*self is Output),
    {
        match self {
            PResult::Output(_) => true,
            _ => false,
        }
    }

    /// Whether this asks for more input.
    pub fn is_pending(&self) -> (r: bool)
        ensures
            r == (*self is Pending),
    {
        match self {
            PResult::Pending(_) => true,
            _ => false,
        }
    }

    /// Whether this is a failure.
    pub fn is_failed(&self) -> (r: bool)
        ensures
            r == (*self is Failed),
    {
        match self {
            PResult::Failed(_) => true,
            _ => false,
        }
    }

    /// The success value, if any.
    pub fn output(self) -> (r: Option<T>)
        ensures
            match self {
                PResult::Output(v) => r == Some(v),
                _ => r is None,
            },
    {
        match self {
            PResult::Output(value) => Some(value),
            _ => None,
        }
    }

    /// The number of missing tokens, if more input is needed.
    pub fn pending(self) -> (r: Option<usize>)
        ensures
            match self {
                PResult::Pending(n) => r == Some(n),
                _ => r is None,
            },
    {
        match self {
            PResult::Pending(pending) => Some(pending),
            _ => None,
        }
    }

    /// The failure value, if any.
    pub fn failed(self) -> (r: Option<E>)
        ensures
            match self {
                PResult::Failed(e) => r == Some(e),
                _ => r is None,
            },
    {
        match self {
            PResult::Failed(error) => Some(error),
            _ => None,
        }
    }

    /// The success value of an outcome known to be a success.
    pub fn unwrap_unchecked(self) -> (r: T)
        requires
            self is Output,
        ensures
            self == PResult::<T, E>::Output(r),
    {
        match self {
            PResult::Output(value) => value,
            _ => unreached(),
        }
    }

    /// The failure value of an outcome known to be a failure.
    pub fn unwrap_failed_unchecked(self) -> (r: E)
        requires
            self is Failed,
        ensures
            self == PResult::<T, E>::Failed(r),
    {
        match self {
            PResult::Failed(error) => error,
            _ => unreached(),
        }
    }

    /// The success value; the outcome must be a success.
    pub fn unwrap(self) -> (r: T)
        requires
            self is Output,
        ensures
            self == PResult::<T, E>::Output(r),
    {
        self.expect("called `unwrap` on a non `Output` value")
    }

    /// The success value; the outcome must be a success. `msg` describes the expectation.
    pub fn expect(self, msg: &str) -> (r: T)
        requires
            self is Output,
        ensures
            self == PResult::<T, E>::Output(r),
    {
        match self {
            PResult::Output(value) => value,
            _ => unreached(),
        }
    }

    /// The failure value; the outcome must be a failure.
    pub fn unwrap_failed(self) -> (r: E)
        requires
            self is Failed,
        ensures
            self == PResult::<T, E>::Failed(r),
    {
        self.expect_failed("called `unwrap_failed` on a non `Failed` value")
    }

    /// The failure value; the outcome must be a failure. `msg` describes the expectation.
    pub fn expect_failed(self, msg: &str) -> (r: E)
        requires
            self is Failed,
        ensures
            self == PResult::<T, E>::Failed(r),
    {
        match self {
            PResult::Failed(error) => error,
            _ => unreached(),
        }
    }

    /// Splits the outcome into a success and an error channel; a pending
    /// outcome becomes `Err(Err(n))` and a failure `Err(Ok(e))`.
    pub fn into_result(self) -> (r: Result<T, Result<E, usize>>)
        ensures
            r == self.to_result(),
    {
        match self {
            PResult::Output(value) => Ok(value),
            PResult::Pending(pending) => Err(Err(pending)),
            PResult::Failed(error) => Err(Ok(error)),
        }
    }

    /// Joins a success and an error channel back into an outcome.
    pub fn from_result(from: Result<T, Result<E, usize>>) -> (r: Self)
        ensures
            r.to_result() == from,
    {
        match from {
            Ok(value) => PResult::Output(value),
            Err(Ok(error)) => PResult::Failed(error),
            Err(Err(pending)) => PResult::Pending(pending),
        }
    }

    /// A settled outcome as a `Result`: a success is `Ok(Ok(v))`, a failure
    /// `Ok(Err(e))`, and a pending outcome `Err(n)`.
    pub fn settled(self) -> (r: Result<Result<T, E>, usize>)
        ensures
            match self {
                PResult::Output(v) => r == Ok::<Result<T, E>, usize>(Ok(v)),
                PResult::Pending(n) => r == Err::<Result<T, E>, usize>(n),
                PResult::Failed(e) => r == Ok::<Result<T, E>, usize>(Err(e)),
            },
    {
        match self {
            PResult::Output(value) => Ok(Ok(value)),
            PResult::Pending(pending) => Err(pending),
            PResult::Failed(error) => Ok(Err(error)),
        }
    }

    /// The outcome split into a success and an error channel.
    pub open spec fn to_result(self) -> Result<T, Result<E, usize>> {
        match self {
            PResult::Output(v) => Ok(v),
            PResult::Pending(n) => Err(Err(n)),
            PResult::Failed(e) => Err(Ok(e)),
        }
    }
}

impl<T, E> From<Result<T, E>> for PResult<T, E> {
    /// `Ok` becomes a success and `Err` a failure.
    fn from(from: Result<T, E>) -> (r: Self) {
        match from {
            Ok(value) => PResult::Output(value),
            Err(error) => PResult::Failed(error),
        }
    }
}

impl<T, E> vstd::std_specs::convert::FromSpecImpl<Result<T, E>> for PResult<T, E> {
    open spec fn obeys_from_spec() -> bool {
        true
    }

    open spec fn from_spec(from: Result<T, E>) -> Self {
        match from {
            Ok(v) => PResult::Output(v),
            Err(e) => PResult::Failed(e),
        }
    }
}

impl<T, I> Parse<Option<T>, I> {
    /// Moves the `Option` outside: `Some` exactly when the value is `Some`.
    pub fn transpose(self) -> (r: Option<Parse<T, I>>)
        ensures
            match self.value {
                Some(v) => r == Some(Parse { value: v, unused: self.unused }),
                None => r is None,
            },
    {
        let Parse { value, unused } = self;
        match value {
            Some(v) => Some(Parse::new(v, unused)),
            None => None,
        }
    }
}

impl<T, E, I> Parse<Result<T, E>, I> {
    /// Moves the `Result` outside: `Ok` exactly when the value is `Ok`.
    pub fn transpose(self) -> (r: Result<Parse<T, I>, E>)
        ensures
            match self.value {
                Ok(v) => r == Ok::<Parse<T, I>, E>(Parse { value: v, unused: self.unused }),
                Err(e) => r == Err::<Parse<T, I>, E>(e),
            },
    {
        let Parse { value, unused } = self;
        match value {
            Ok(v) => Ok(Parse::new(v, unused)),
            Err(e) => Err(e),
        }
    }
}

impl<T, E, I> Parse<PResult<T, E>, I> {
    /// Splits a parse by its outcome: a success goes to `Ok`, a pending or
    /// failed parse to `Err`, each keeping the unused input.
    pub fn into_result(self) -> (r: Result<Parse<T, I>, Parse<Result<E, usize>, I>>)
        ensures
            match self.value.to_result() {
                Ok(v) => r == Ok::<Parse<T, I>, Parse<Result<E, usize>, I>>(
                    Parse { value: v, unused: self.unused },
                ),
                Err(e) => r == Err::<Parse<T, I>, Parse<Result<E, usize>, I>>(
                    Parse { value: e, unused: self.unused },
                ),
            },
    {
        let Parse { value, unused } = self;
        match value.into_result() {
            Ok(v) => Ok(Parse::new(v, unused)),
            Err(e) => Err(Parse::new(e, unused)),
        }
    }

    /// A successful parse of `ok.value` with the same unused input.
    pub fn from_ok(ok: Parse<T, I>) -> (r: Self)
        ensures
            r == (Parse { value: PResult::<T, E>::Output(ok.value), unused: ok.unused }),
    {
        Parse::new(PResult::Output(ok.value), ok.unused)
    }

    /// A pending or failed parse from the error channel, with the same unused input.
    pub fn from_error(error: Parse<Result<E, usize>, I>) -> (r: Self)
        ensures
            r.value.to_result() == Err::<T, Result<E, usize>>(error.value),
            r.unused == error.unused,
    {
        Parse::new(PResult::from_result(Err(error.value)), error.unused)
    }
}

/// Index of the first outcome in `s` that is not a success, or `s.len()` when all are.
pub open spec fn first_non_output<A, E>(s: Seq<PResult<A, E>>) -> int
    decreases s.len(),
{
    if s.len() == 0 {
        0
    } else if s[0] is Output {
        1 + first_non_output(s.drop_first())
    } else {
        0
    }
}

/// The success values of the outcomes in `s`, which must all be successes.
pub open spec fn outputs_of<A, E>(s: Seq<PResult<A, E>>) -> Seq<A> {
    s.map_values(|r: PResult<A, E>| r->Output_0)
}

/// Bounds of `first_non_output`: every outcome before it is a success, and the
/// one at it, if any, is not.
pub proof fn lemma_first_non_output<A, E>(s: Seq<PResult<A, E>>)
    ensures
        0 <= first_non_output(s) <= s.len(),
        forall|i: int| 0 <= i < first_non_output(s) ==> #[trigger] s[i] is Output,
        first_non_output(s) < s.len() ==> !(s[first_non_output(s)] is Output),
    decreases s.len(),
{
    if s.len() > 0 && s[0] is Output {
        lemma_first_non_output(s.drop_first());
        assert forall|i: int| 0 <= i < first_non_output(s) implies #[trigger] s[i] is Output by {
            if i > 0 {
                assert(s[i] == s.drop_first()[i - 1]);
            }
        }
    }
}

/// Aggregates outcomes in order: all successes give the sequence of their
/// values; otherwise the first pending or failed outcome is returned.
pub fn collect<A, E>(results: Vec<PResult<A, E>>) -> (r: PResult<Vec<A>, E>)
    ensures
        first_non_output(results@) == results@.len() ==> (r matches PResult::Output(v) && v@
            == outputs_of(results@)),
        first_non_output(results@) < results@.len() ==> match results@[first_non_output(
            results@,
        )] {
            PResult::Pending(n) => r == PResult::<Vec<A>, E>::Pending(n),
            PResult::Failed(e) => r == PResult::<Vec<A>, E>::Failed(e),
            PResult::Output(_) => false,
        },
{
    proof {
        lemma_first_non_output(results@);
    }
    let ghost all = results@;
    let mut values: Vec<A> = Vec::new();
    let mut rest = results;
    let ghost k = first_non_output(all);
    while rest.len() > 0
        invariant
            0 <= k <= all.len(),
            all == results@,
            k == first_non_output(all),
            forall|i: int| 0 <= i < k ==> #[trigger] all[i] is Output,
            k < all.len() ==> !(all[k] is Output),
            values@.len() <= k,
            values@.len() + rest@.len() == all.len(),
            values@ == outputs_of(all.take(values@.len() as int)),
            rest@ == all.skip(values@.len() as int),
        decreases rest.len(),
    {
        let ghost j = values@.len() as int;
        let next = rest.remove(0);
        assert(next == all[j]);
        match next {
            PResult::Output(v) => {
                values.push(v);
                assert(all.take(j + 1) == all.take(j).push(all[j]));
                assert(values@ == outputs_of(all.take(j + 1)));
                assert(rest@ == all.skip(j + 1));
            },
            PResult::Pending(n) => {
                assert(j == k) by {
                    if j < k {
                        assert(all[j] is Output);
                    }
                }
                return PResult::Pending(n);
            },
            PResult::Failed(e) => {
                assert(j == k) by {
                    if j < k {
                        assert(all[j] is Output);
                    }
                }
                return PResult::Failed(e);
            },
        }
    }
    assert(all.take(all.len() as int) == all);
    PResult::Output(values)
}

} // verus!
