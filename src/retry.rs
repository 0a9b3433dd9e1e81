//! Retry policy: a budget of attempts, each under its own timeout.
//!
//! The caller runs each attempt and reports how it ended; `RetryRun` decides
//! whether to try again or what the whole run returns.

use vstd::prelude::*;

verus! {

/// Attempts made when none are configured.
pub const DEFAULT_ATTEMPTS: usize = 3;

/// Milliseconds allowed to each attempt when none are configured.
pub const DEFAULT_TIMEOUT_MS: u64 = 500;

/// What a run that gave up on a timeout reports.
pub const EXCEEDED_MESSAGE: &'static str = "Retry exceeded";

/// How many attempts to make, and how long each may take.
pub struct Retry {
    times: usize,
    timeout: u64,
}

/// How one attempt ended.
pub enum Attempt<T, E> {
    /// The operation returned a value.
    Succeeded(T),
    /// The operation returned an error.
    Failed(E),
    /// The operation did not finish within the timeout.
    TimedOut,
}

/// Why a run gave up.
#[derive(Debug)]
pub enum RetryError<E> {
    /// The last attempt failed with this error.
    Failed(E),
    /// The last attempt timed out; reported as `EXCEEDED_MESSAGE`.
    Exceeded,
}

impl<E> RetryError<E> {
    /// Whether the run gave up on a timeout.
    pub fn is_exceeded(&self) -> (r: bool)
        ensures
            r == (self is Exceeded),
    {
        match self {
            RetryError::Exceeded => true,
            RetryError::Failed(_) => false,
        }
    }
}

/// What the run returns once it is over, or `None` while it goes on.
pub type Verdict<T, E> = Option<Result<T, RetryError<E>>>;

/// The decision on one attempt's outcome, with `left` attempts still allowed
/// before it (this one included).
pub open spec fn step<T, E>(left: nat, outcome: Attempt<T, E>) -> Verdict<T, E> {
    match outcome {
        Attempt::Succeeded(v) => Some(Ok(v)),
        Attempt::Failed(e) => if left <= 1 {
            Some(Err(RetryError::Failed(e)))
        } else {
            None
        },
        Attempt::TimedOut => if left <= 1 {
            Some(Err(RetryError::Exceeded))
        } else {
            None
        },
    }
}

/// A whole run with a budget of `left` attempts whose outcomes come in the
/// order of `outcomes`: what it returns and how many attempts it made, or
/// `None` if the outcomes run out before the run is over.
pub open spec fn run_of<T, E>(left: nat, outcomes: Seq<Attempt<T, E>>) -> Option<
    (Result<T, RetryError<E>>, nat),
>
    decreases outcomes.len(),
{
    if outcomes.len() == 0 {
        None
    } else {
        match step(left, outcomes[0]) {
            Some(r) => Some((r, 1)),
            None => match run_of((left - 1) as nat, outcomes.drop_first()) {
                Some((r, n)) => Some((r, n + 1)),
                None => None,
            },
        }
    }
}

impl Retry {
    pub closed spec fn spec_times(&self) -> nat {
        self.times as nat
    }

    pub closed spec fn spec_timeout(&self) -> nat {
        self.timeout as nat
    }

    /// Three attempts of half a second each.
    pub fn new() -> (r: Retry)
        ensures
            r.spec_times() == DEFAULT_ATTEMPTS,
            r.spec_timeout() == DEFAULT_TIMEOUT_MS,
    {
        Retry { times: DEFAULT_ATTEMPTS, timeout: DEFAULT_TIMEOUT_MS }
    }

    /// `times` attempts of half a second each; zero attempts is a
    /// programming error.
    pub fn times(times: usize) -> (r: Retry)
        requires
            times >= 1,
        ensures
            r.spec_times() == times,
            r.spec_timeout() == DEFAULT_TIMEOUT_MS,
    {
        Retry { times, timeout: DEFAULT_TIMEOUT_MS }
    }

    /// The same budget, with `timeout` milliseconds for each attempt.
    pub fn timeout(self, timeout: u64) -> (r: Retry)
        ensures
            r.spec_times() == self.spec_times(),
            r.spec_timeout() == timeout,
    {
        Retry { times: self.times, timeout }
    }

    /// The number of attempts.
    pub fn attempts(&self) -> (r: usize)
        ensures
            r == self.spec_times(),
    {
        self.times
    }

    /// The milliseconds allowed to each attempt.
    pub fn timeout_ms(&self) -> (r: u64)
        ensures
            r == self.spec_timeout(),
    {
        self.timeout
    }

    /// Begins a run with the whole budget.
    pub fn start(&self) -> (r: RetryRun)
        requires
            self.spec_times() >= 1,
        ensures
            r.spec_left() == self.spec_times(),
    {
        RetryRun { left: self.times }
    }
}

/// A run under way: the attempts it may still make.
pub struct RetryRun {
    left: usize,
}

impl RetryRun {
    pub closed spec fn spec_left(&self) -> nat {
        self.left as nat
    }

    /// The attempts still allowed.
    pub fn attempts_left(&self) -> (r: usize)
        ensures
            r == self.spec_left(),
    {
        self.left
    }

    /// Takes the outcome of one attempt and says what the run returns, or
    /// `None` when another attempt is due.
    ///
    /// A success ends the run at once. A failure ends it only on the last
    /// attempt, with that failure; a timeout on the last attempt ends it with
    /// `Exceeded`.
    pub fn record<T, E>(&mut self, outcome: Attempt<T, E>) -> (r: Verdict<T, E>)
        requires
            old(self).spec_left() >= 1,
        ensures
            r == step(old(self).spec_left(), outcome),
            final(self).spec_left() == old(self).spec_left() - 1,
            r is None ==> final(self).spec_left() >= 1,
    {
        let last = self.left == 1;
        self.left = self.left - 1;
        match outcome {
            Attempt::Succeeded(v) => Some(Ok(v)),
            Attempt::Failed(e) => if last {
                Some(Err(RetryError::Failed(e)))
            } else {
                None
            },
            Attempt::TimedOut => if last {
                Some(Err(RetryError::Exceeded))
            } else {
                None
            },
        }
    }
}

/// A run whose every attempt times out makes exactly as many attempts as its
/// budget allows and ends in `Exceeded`, never in an operation's error.
pub proof fn lemma_timeouts_exhaust_budget<T, E>(times: nat, outcomes: Seq<Attempt<T, E>>)
    requires
        times >= 1,
        outcomes.len() >= times,
        forall|i: int| 0 <= i < outcomes.len() ==> #[trigger] outcomes[i] is TimedOut,
    ensures
        run_of(times, outcomes) == Some((Result::<T, RetryError<E>>::Err(RetryError::Exceeded), times)),
    decreases times,
{
    assert(outcomes[0] is TimedOut);
    if times > 1 {
        let rest = outcomes.drop_first();
        assert forall|i: int| 0 <= i < rest.len() implies #[trigger] rest[i] is TimedOut by {
            assert(rest[i] == outcomes[i + 1]);
        }
        lemma_timeouts_exhaust_budget::<T, E>((times - 1) as nat, rest);
    }
}

/// A run whose first attempt succeeds returns that value after one attempt.
pub proof fn lemma_first_success_returns<T, E>(times: nat, value: T, rest: Seq<Attempt<T, E>>)
    requires
        times >= 1,
    ensures
        run_of(times, seq![Attempt::Succeeded(value)] + rest) == Some((Result::<T, RetryError<E>>::Ok(value), 1nat)),
{
    let outcomes = seq![Attempt::Succeeded(value)] + rest;
    assert(outcomes[0] == Attempt::<T, E>::Succeeded(value));
}

/// However the attempts end, a run makes at least one and at most as many
/// attempts as its budget allows, so it lasts no longer than the budget times
/// the timeout.
pub proof fn lemma_attempts_within_budget<T, E>(times: nat, outcomes: Seq<Attempt<T, E>>)
    requires
        times >= 1,
        outcomes.len() >= times,
    ensures
        run_of(times, outcomes) matches Some((_, n)) && 1 <= n <= times,
    decreases times,
{
    if step(times, outcomes[0]) is None {
        lemma_attempts_within_budget::<T, E>((times - 1) as nat, outcomes.drop_first());
    }
}

/// A run ends in `Exceeded` only when its last attempt timed out, and in an
/// operation's error only when its last attempt failed with that error.
pub proof fn lemma_verdict_from_last_attempt<T, E>(times: nat, outcomes: Seq<Attempt<T, E>>)
    requires
        times >= 1,
        outcomes.len() >= times,
    ensures
        run_of(times, outcomes) matches Some((r, n)) && 1 <= n <= times && match r {
            Ok(v) => outcomes[n - 1] == Attempt::<T, E>::Succeeded(v),
            Err(RetryError::Failed(e)) => n == times && outcomes[n - 1] == Attempt::<T, E>::Failed(e),
            Err(RetryError::Exceeded) => n == times && outcomes[n - 1] is TimedOut,
        },
    decreases times,
{
    if step(times, outcomes[0]) is None {
        let rest = outcomes.drop_first();
        lemma_verdict_from_last_attempt::<T, E>((times - 1) as nat, rest);
        let (r, n) = run_of((times - 1) as nat, rest).unwrap();
        assert(outcomes[n as int] == rest[n - 1]);
    }
}

} // verus!
