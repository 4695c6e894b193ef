use crate::models::{Classification, JokeType};
use vstd::prelude::*;

verus! {

/// The longest pause between two attempts, in milliseconds.
pub const MAX_DELAY_MS: u64 = 60000;

/// Two to the power `n`.
pub open spec fn pow2(n: nat) -> nat
    decreases n,
{
    if n == 0 {
        1
    } else {
        2 * pow2((n - 1) as nat)
    }
}

/// The pause before the attempt that follows `failures` failed ones: the base
/// delay doubled once per earlier failure, capped at [`MAX_DELAY_MS`].
pub open spec fn backoff_ms(base: nat, failures: nat) -> nat {
    let d = base * pow2(failures);
    if d < MAX_DELAY_MS as nat {
        d
    } else {
        MAX_DELAY_MS as nat
    }
}

/// The abstract state of a [`Session`].
pub ghost struct SessionView {
    /// Attempts so far that ended in a domain error.
    pub failures: nat,
    pub max_attempts: nat,
    pub base_delay_ms: nat,
}

/// What the caller does next with the outcome of an attempt.
pub enum Action {
    /// Print each line, then raise a notification with this summary and body.
    Present { lines: Vec<String>, summary: String, body: String },
    /// Report the reason, wait `delay_ms`, and fetch again.
    Retry { reason: String, delay_ms: u64 },
    /// Report the reason and stop: every attempt allowed has been spent.
    GiveUp { reason: String },
}

/// The decisions of one fetch-classify-present run: each domain error is
/// retried after an exponentially growing pause, up to a fixed number of
/// attempts in all.
pub struct Session {
    failures: u32,
    max_attempts: u32,
    base_delay_ms: u64,
}

impl View for Session {
    type V = SessionView;

    closed spec fn view(&self) -> SessionView {
        SessionView {
            failures: self.failures as nat,
            max_attempts: self.max_attempts as nat,
            base_delay_ms: self.base_delay_ms as nat,
        }
    }
}

proof fn lemma_pow2_succ(n: nat)
    ensures
        pow2(n + 1) == 2 * pow2(n),
{
    assert(pow2(n + 1) == 2 * pow2(((n + 1) - 1) as nat));
}

/// One more failure doubles the pause, up to the cap.
proof fn lemma_backoff_step(base: nat, n: nat)
    ensures
        backoff_ms(base, n + 1) == (if 2 * backoff_ms(base, n) < MAX_DELAY_MS as nat {
            2 * backoff_ms(base, n)
        } else {
            MAX_DELAY_MS as nat
        }),
{
    lemma_pow2_succ(n);
    let p = pow2(n);
    assert(base * (2 * p) == 2 * (base * p)) by (nonlinear_arith);
}

/// A pause of zero, or one at the cap, stays so for every later failure.
proof fn lemma_backoff_settled(base: nat, i: nat, j: nat)
    requires
        i <= j,
        backoff_ms(base, i) == 0 || backoff_ms(base, i) == MAX_DELAY_MS as nat,
    ensures
        backoff_ms(base, j) == backoff_ms(base, i),
    decreases j - i,
{
    if i < j {
        lemma_backoff_step(base, i);
        lemma_backoff_settled(base, i + 1, j);
    }
}

/// The pause, in milliseconds, before the attempt that follows `failures`
/// failed ones.
pub fn backoff_delay(base_delay_ms: u64, failures: u32) -> (d: u64)
    ensures
        d as nat == backoff_ms(base_delay_ms as nat, failures as nat),
{
    assert(pow2(0) == 1);
    let mut d: u64 = if base_delay_ms < MAX_DELAY_MS {
        base_delay_ms
    } else {
        MAX_DELAY_MS
    };
    let mut i: u32 = 0;
    while i < failures && d != 0 && d < MAX_DELAY_MS
        invariant
            i <= failures,
            d as nat == backoff_ms(base_delay_ms as nat, i as nat),
        decreases failures - i,
    {
        proof {
            lemma_backoff_step(base_delay_ms as nat, i as nat);
        }
        d = if d < MAX_DELAY_MS - d {
            d + d
        } else {
            MAX_DELAY_MS
        };
        i = i + 1;
    }
    proof {
        if i < failures {
            lemma_backoff_settled(base_delay_ms as nat, i as nat, failures as nat);
        }
    }
    d
}

impl Session {
    #[verifier::type_invariant]
    spec fn within_budget(&self) -> bool {
        self.failures <= self.max_attempts
    }

    /// A session that allows `max_attempts` attempts in all, the first retry
    /// coming after `base_delay_ms` milliseconds.
    pub fn new(max_attempts: u32, base_delay_ms: u64) -> (s: Session)
        ensures
            s@ == (SessionView {
                failures: 0,
                max_attempts: max_attempts as nat,
                base_delay_ms: base_delay_ms as nat,
            }),
    {
        Session { failures: 0, max_attempts, base_delay_ms }
    }

    /// Decides what follows an attempt that was classified as `outcome`.
    /// A joke is presented; a domain error is retried after the backoff pause
    /// while attempts remain, and ends the session once they are spent.
    pub fn next_action(&mut self, outcome: JokeType) -> (a: Action)
        ensures
            final(self)@.max_attempts == old(self)@.max_attempts,
            final(self)@.base_delay_ms == old(self)@.base_delay_ms,
            final(self)@.failures <= final(self)@.max_attempts,
            match outcome@ {
                Classification::Single(text) => {
                    &&& final(self)@.failures == old(self)@.failures
                    &&& a matches Action::Present { lines, summary, body }
                    &&& lines@.len() == 1
                    &&& lines@[0]@ == text
                    &&& summary@ == "Joke"@
                    &&& body@ == text
                },
                Classification::TwoPart(setup, delivery) => {
                    &&& final(self)@.failures == old(self)@.failures
                    &&& a matches Action::Present { lines, summary, body }
                    &&& lines@.len() == 2
                    &&& lines@[0]@ == setup
                    &&& lines@[1]@ == delivery
                    &&& summary@ == setup
                    &&& body@ == delivery
                },
                Classification::Error(reason) => if old(self)@.failures + 1 < old(self)@.max_attempts {
                    &&& final(self)@.failures == old(self)@.failures + 1
                    &&& a matches Action::Retry { reason: r, delay_ms }
                    &&& r@ == reason
                    &&& delay_ms as nat == backoff_ms(
                        old(self)@.base_delay_ms,
                        old(self)@.failures,
                    )
                } else {
                    &&& final(self)@.failures == old(self)@.max_attempts
                    &&& a matches Action::GiveUp { reason: r }
                    &&& r@ == reason
                },
            },
    {
        proof {
            use_type_invariant(&*self);
        }
        match outcome {
            JokeType::Single(text) => {
                let body = text.clone();
                Action::Present { lines: vec![text], summary: "Joke".to_string(), body }
            },
            JokeType::TwoPart(setup, delivery) => {
                let summary = setup.clone();
                let body = delivery.clone();
                Action::Present { lines: vec![setup, delivery], summary, body }
            },
            JokeType::Error(reason) => {
                if self.max_attempts - self.failures > 1 {
                    let delay_ms = backoff_delay(self.base_delay_ms, self.failures);
                    self.failures = self.failures + 1;
                    Action::Retry { reason, delay_ms }
                } else {
                    self.failures = self.max_attempts;
                    Action::GiveUp { reason }
                }
            },
        }
    }
}

} // verus!
