//! The retry policy for throttled requests: a small state machine that is
//! told the outcome of each attempt and answers with what to do next.
//!
//! The machine performs no request and no waiting itself. Its caller makes
//! an attempt, hands the outcome to [`RetryState::step`], and does what the
//! returned [`RetryAction`] says.

use crate::error::Error;
use vstd::prelude::*;

verus! {

/// The number of attempts after which a throttled request is given up.
pub const RETRIES: u8 = 5;

/// The wait after the first throttled attempt, in milliseconds.
pub const INITIAL_DELAY_MS: u64 = 100;

/// The factor by which the wait grows after each throttled attempt.
pub const BACKOFF: u64 = 2;

/// The wait that follows the throttled attempt with the given index (the
/// first attempt has index 0), in milliseconds: the initial delay, doubled
/// once for each throttled attempt before it.
pub open spec fn delay_after(index: nat) -> nat
    decreases index,
{
    if index == 0 {
        INITIAL_DELAY_MS as nat
    } else {
        BACKOFF as nat * delay_after((index - 1) as nat)
    }
}

/// Whether the outcome of an attempt is the throttling signal.
pub open spec fn is_throttling<T>(outcome: Result<T, Error>) -> bool {
    outcome matches Err(Error::Throttling)
}

/// What the caller of the retry machine has to do next.
#[derive(Debug, PartialEq, Eq)]
pub enum RetryAction<T> {
    /// Wait for so many milliseconds, then make another attempt.
    WaitAndRetry { delay_ms: u64 },
    /// Wait for so many milliseconds, then report throttling: the attempts
    /// are used up.
    WaitAndGiveUp { delay_ms: u64 },
    /// Report this outcome at once.
    Return(Result<T, Error>),
}

/// The retry machine as a mathematical value.
pub struct RetryModel {
    /// The number of attempts whose outcome the machine has been told.
    pub attempts: nat,
    /// The wait that follows the next throttled attempt, in milliseconds.
    pub delay_ms: nat,
    /// Whether the request has come to its end.
    pub done: bool,
}

impl RetryModel {
    /// The machine before the first attempt.
    pub open spec fn initial() -> RetryModel {
        RetryModel { attempts: 0, delay_ms: INITIAL_DELAY_MS as nat, done: false }
    }

    /// What holds of every machine that can be reached: it has seen no more
    /// attempts than the bound allows; while it is not done, fewer, all of
    /// them throttled, and its delay is the one that follows them.
    pub open spec fn wf(self) -> bool {
        &&& self.attempts <= RETRIES
        &&& !self.done ==> self.attempts < RETRIES && self.delay_ms == delay_after(self.attempts)
        &&& self.delay_ms <= delay_after(RETRIES as nat)
    }

    /// The machine after it has been told the outcome of one more attempt.
    ///
    /// A machine that is done stays as it is. Otherwise the attempt is
    /// counted. If it was throttled, the delay is doubled, and the machine
    /// is done when the attempts are used up; after any other outcome the
    /// machine is done.
    pub open spec fn next(self, throttled: bool) -> RetryModel {
        if self.done {
            self
        } else if throttled {
            RetryModel {
                attempts: self.attempts + 1,
                delay_ms: BACKOFF as nat * self.delay_ms,
                done: self.attempts + 1 >= RETRIES,
            }
        } else {
            RetryModel { attempts: self.attempts + 1, delay_ms: self.delay_ms, done: true }
        }
    }

    /// What the caller has to do with the outcome of an attempt.
    ///
    /// A throttled attempt is followed by a wait of the current delay, and
    /// then by another attempt, or by giving up when this was the last
    /// attempt allowed. Any other outcome is reported as it is, and so is
    /// every outcome handed to a machine that is done.
    pub open spec fn action<T>(self, outcome: Result<T, Error>) -> RetryAction<T> {
        if self.done || !is_throttling(outcome) {
            RetryAction::Return(outcome)
        } else if self.attempts + 1 >= RETRIES {
            RetryAction::WaitAndGiveUp { delay_ms: self.delay_ms as u64 }
        } else {
            RetryAction::WaitAndRetry { delay_ms: self.delay_ms as u64 }
        }
    }

    /// The machine after the first `n` attempts of a request, where
    /// `throttled[i]` says whether the attempt with index `i` was throttled.
    pub open spec fn after(throttled: Seq<bool>, n: nat) -> RetryModel
        decreases n,
    {
        if n == 0 {
            Self::initial()
        } else {
            Self::after(throttled, (n - 1) as nat).next(throttled[n - 1])
        }
    }
}

/// The state of the retry machine for one request.
///
/// A state is made by [`RetryState::new`] and changed by
/// [`RetryState::step`] alone, so that every state is one that a request
/// can reach.
#[derive(Debug, Clone, Copy, PartialEq, Eq)]
pub struct RetryState {
    attempts: u8,
    delay_ms: u64,
    done: bool,
}

impl View for RetryState {
    type V = RetryModel;

    closed spec fn view(&self) -> RetryModel {
        RetryModel {
            attempts: self.attempts as nat,
            delay_ms: self.delay_ms as nat,
            done: self.done,
        }
    }
}

/// The delays, one by one.
proof fn lemma_delays()
    ensures
        delay_after(0) == 100,
        delay_after(1) == 200,
        delay_after(2) == 400,
        delay_after(3) == 800,
        delay_after(4) == 1600,
        delay_after(5) == 3200,
{
    reveal_with_fuel(delay_after, 6);
}

impl RetryState {
    #[verifier::type_invariant]
    spec fn reachable(self) -> bool {
        self@.wf()
    }

    /// The state before the first attempt: no attempt made, and a delay of
    /// 100 ms.
    pub fn new() -> (state: RetryState)
        ensures
            state@ == RetryModel::initial(),
            state@.wf(),
    {
        proof {
            lemma_delay_bounded(0);
        }
        RetryState { attempts: 0, delay_ms: INITIAL_DELAY_MS, done: false }
    }

    /// The number of attempts whose outcome the machine has been told.
    pub fn attempts(&self) -> (n: u8)
        ensures
            n == self@.attempts,
    {
        self.attempts
    }

    /// The wait that follows the next throttled attempt, in milliseconds.
    pub fn delay_ms(&self) -> (ms: u64)
        ensures
            ms == self@.delay_ms,
    {
        self.delay_ms
    }

    /// Whether the request has come to its end.
    pub fn is_done(&self) -> (done: bool)
        ensures
            done == self@.done,
    {
        self.done
    }

    /// Tells the machine the outcome of an attempt. The answer is the state
    /// to go on with and what the caller has to do.
    pub fn step<T>(self, outcome: Result<T, Error>) -> (r: (RetryState, RetryAction<T>))
        ensures
            self@.wf(),
            r.0@ == self@.next(is_throttling(outcome)),
            r.0@.wf(),
            r.1 == self@.action(outcome),
    {
        proof {
            use_type_invariant(&self);
        }
        if self.done {
            return (self, RetryAction::Return(outcome));
        }
        let throttled = match &outcome {
            Err(Error::Throttling) => true,
            _ => false,
        };
        if !throttled {
            let next = RetryState { attempts: self.attempts + 1, delay_ms: self.delay_ms, done: true };
            return (next, RetryAction::Return(outcome));
        }
        proof {
            lemma_delay_doubles(self.attempts as nat);
            lemma_delay_bounded((self.attempts + 1) as nat);
        }
        let attempts = self.attempts + 1;
        let last = attempts >= RETRIES;
        let next = RetryState { attempts, delay_ms: self.delay_ms * BACKOFF, done: last };
        let action = if last {
            RetryAction::WaitAndGiveUp { delay_ms: self.delay_ms }
        } else {
            RetryAction::WaitAndRetry { delay_ms: self.delay_ms }
        };
        (next, action)
    }
}

/// Each delay is twice the one before, and none is below the initial delay.
pub proof fn lemma_delay_doubles(index: nat)
    ensures
        delay_after(index + 1) == 2 * delay_after(index),
        delay_after(index) >= INITIAL_DELAY_MS,
    decreases index,
{
    if index > 0 {
        lemma_delay_doubles((index - 1) as nat);
    }
}

/// The delays grow strictly.
pub proof fn lemma_delay_grows(earlier: nat, later: nat)
    requires
        earlier < later,
    ensures
        delay_after(earlier) < delay_after(later),
    decreases later,
{
    lemma_delay_doubles((later - 1) as nat);
    if later > earlier + 1 {
        lemma_delay_grows(earlier, (later - 1) as nat);
    }
}

/// Up to the bound on the attempts, no delay is beyond 3200 ms.
proof fn lemma_delay_bounded(index: nat)
    requires
        index <= RETRIES,
    ensures
        delay_after(index) <= delay_after(RETRIES as nat) == 3200,
{
    reveal_with_fuel(delay_after, 6);
}

/// Every machine that a request can reach is well formed, and has been told
/// no more outcomes than the bound allows: whatever the outcomes are, the
/// request ends with the fifth attempt at the latest.
pub proof fn lemma_attempts_bounded(throttled: Seq<bool>, n: nat)
    requires
        n <= throttled.len(),
    ensures
        RetryModel::after(throttled, n).wf(),
        RetryModel::after(throttled, n).attempts <= n,
        RetryModel::after(throttled, n).attempts <= RETRIES,
        n >= RETRIES ==> RetryModel::after(throttled, n).done,
    decreases n,
{
    if n == 0 {
        lemma_delay_bounded(0);
    } else {
        lemma_attempts_bounded(throttled, (n - 1) as nat);
        let before = RetryModel::after(throttled, (n - 1) as nat);
        if !before.done {
            lemma_delay_doubles(before.attempts);
            lemma_delay_bounded(before.attempts + 1);
            lemma_only_throttled_goes_on(throttled, (n - 1) as nat);
        }
    }
}

/// A machine that is not done has seen nothing but throttled attempts, and
/// has counted each of them.
pub proof fn lemma_only_throttled_goes_on(throttled: Seq<bool>, n: nat)
    requires
        n <= throttled.len(),
        !RetryModel::after(throttled, n).done,
    ensures
        RetryModel::after(throttled, n).attempts == n,
        forall|i: int| 0 <= i < n ==> throttled[i],
    decreases n,
{
    if n > 0 {
        lemma_only_throttled_goes_on(throttled, (n - 1) as nat);
    }
}

/// A request that is throttled `n` times in a row is attempted exactly
/// `min(n, 5)` times. It comes to its end with the fifth throttled attempt
/// and no sooner, and before that the delay of the machine is the one that
/// follows `n` throttled attempts.
pub proof fn lemma_throttled_run(throttled: Seq<bool>, n: nat)
    requires
        n <= throttled.len(),
        forall|i: int| 0 <= i < n ==> throttled[i],
    ensures
        RetryModel::after(throttled, n).attempts == if n <= RETRIES {
            n
        } else {
            RETRIES as nat
        },
        RetryModel::after(throttled, n).done <==> n >= RETRIES,
        n < RETRIES ==> RetryModel::after(throttled, n).delay_ms == delay_after(n),
    decreases n,
{
    if n > 0 {
        lemma_throttled_run(throttled, (n - 1) as nat);
    }
}

/// A request whose first `k` attempts are throttled and whose next attempt
/// ends otherwise, with `k` below the bound, is attempted exactly `k + 1`
/// times: the outcome of that attempt ends it, and nothing that follows is
/// counted.
pub proof fn lemma_run_ends_with_other_outcome(throttled: Seq<bool>, k: nat, n: nat)
    requires
        k < RETRIES,
        k < n <= throttled.len(),
        forall|i: int| 0 <= i < k ==> throttled[i],
        !throttled[k as int],
    ensures
        RetryModel::after(throttled, n).done,
        RetryModel::after(throttled, n).attempts == k + 1,
    decreases n,
{
    if n == k + 1 {
        lemma_throttled_run(throttled, k);
    } else {
        lemma_run_ends_with_other_outcome(throttled, k, (n - 1) as nat);
    }
}

/// The waits of a request that is throttled again and again: the throttled
/// attempt with index `i` is followed by a wait of `100 * 2^i` ms, that is
/// 100, 200, 400, 800 and 1600 ms. After each of the first four the request
/// is attempted again; after the fifth it is given up.
pub proof fn lemma_throttled_waits<T>(throttled: Seq<bool>, i: nat, outcome: Result<T, Error>)
    requires
        i < RETRIES,
        i < throttled.len(),
        forall|j: int| 0 <= j <= i ==> throttled[j],
        is_throttling(outcome),
    ensures
        i + 1 < RETRIES ==> RetryModel::after(throttled, i).action(outcome)
            == (RetryAction::<T>::WaitAndRetry { delay_ms: delay_after(i) as u64 }),
        i + 1 == RETRIES ==> RetryModel::after(throttled, i).action(outcome)
            == (RetryAction::<T>::WaitAndGiveUp { delay_ms: delay_after(i) as u64 }),
        delay_after(i) == if i == 0 {
            100nat
        } else if i == 1 {
            200
        } else if i == 2 {
            400
        } else if i == 3 {
            800
        } else {
            1600
        },
        i > 0 ==> delay_after(i) == 2 * delay_after((i - 1) as nat),
{
    lemma_throttled_run(throttled, i);
    lemma_delays();
}

/// An outcome other than throttling is never retried: it ends the request
/// and is reported as it is, be it a success or a failure. A request that
/// has ended stays so, and every later outcome is reported as it is.
pub proof fn lemma_other_outcomes_end<T>(state: RetryModel, outcome: Result<T, Error>)
    requires
        state.wf(),
    ensures
        !is_throttling(outcome) ==> state.next(false).done && state.action(outcome)
            == RetryAction::Return(outcome),
        state.done ==> state.next(is_throttling(outcome)) == state && state.action(outcome)
            == RetryAction::Return(outcome),
        state.action(outcome) is WaitAndRetry <==> !state.next(is_throttling(outcome)).done,
{
}

} // verus!
