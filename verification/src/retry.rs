//! The retry policy of every HTTP call: what the client does after each
//! attempt, and what a whole run of attempts can end in.
use vstd::prelude::*;

verus! {

/// What one attempt of an HTTP call gave: a response status, or a
/// transport error with its text (`timeout` for a timeout).
#[derive(Debug)]
pub enum AttemptOutcome {
    Status(u16),
    Transport(String),
}

/// What the client does after an attempt.
#[derive(Debug)]
pub enum RetryStep {
    /// Hand the response to the caller.
    Return,
    /// Sleep this many seconds, then try again.
    Retry(u64),
    /// Fail with an HTTP error for this status.
    FailHttp(u16),
    /// Fail with a network error with this text.
    FailNetwork(String),
}

/// Attempts made when retries are on.
pub open spec fn max_retries() -> nat {
    3
}

/// Seconds slept after failed attempt `i` (1, 2, then 4).
pub open spec fn retry_delay(i: nat) -> nat {
    if i == 0 {
        1
    } else if i == 1 {
        2
    } else {
        4
    }
}

/// The number of attempts of a call: three with retries, else one.
pub fn attempts_for(retries: bool) -> (n: usize)
    ensures
        n == (if retries {
            max_retries()
        } else {
            1
        }),
{
    if retries {
        3
    } else {
        1
    }
}

/// The step after attempt `i` of `attempts`: a server error (5xx) or a
/// transport error is retried while attempts remain; any other status of
/// 400 or more fails; a lower status is returned; a transport error on the
/// last attempt fails with its text.
pub open spec fn step_after(i: nat, attempts: nat, o: AttemptOutcome) -> RetryStep {
    match o {
        AttemptOutcome::Status(s) => if s >= 500 && i + 1 < attempts {
            RetryStep::Retry(retry_delay(i) as u64)
        } else if s >= 400 {
            RetryStep::FailHttp(s)
        } else {
            RetryStep::Return
        },
        AttemptOutcome::Transport(e) => if i + 1 < attempts {
            RetryStep::Retry(retry_delay(i) as u64)
        } else {
            RetryStep::FailNetwork(e)
        },
    }
}

/// The step after attempt `i` of `attempts`.
pub fn next_step(i: usize, attempts: usize, outcome: &AttemptOutcome) -> (r: RetryStep)
    requires
        i < attempts <= max_retries(),
    ensures
        r == step_after(i as nat, attempts as nat, *outcome),
{
    let delay: u64 = if i == 0 {
        1
    } else if i == 1 {
        2
    } else {
        4
    };
    match outcome {
        AttemptOutcome::Status(s) => {
            if *s >= 500 && i + 1 < attempts {
                RetryStep::Retry(delay)
            } else if *s >= 400 {
                RetryStep::FailHttp(*s)
            } else {
                RetryStep::Return
            }
        },
        AttemptOutcome::Transport(e) => {
            if i + 1 < attempts {
                RetryStep::Retry(delay)
            } else {
                RetryStep::FailNetwork(e.clone())
            }
        },
    }
}

/// The attempt at which a run of attempts with outcomes `os`, from attempt
/// `i` on, stops retrying.
pub open spec fn final_attempt(os: Seq<AttemptOutcome>, attempts: nat, i: nat) -> nat
    decreases attempts - i,
{
    if i + 1 >= attempts || i >= os.len() {
        i
    } else if step_after(i, attempts, os[i as int]) is Retry {
        final_attempt(os, attempts, i + 1)
    } else {
        i
    }
}

/// Seconds slept before attempt `i`.
pub open spec fn slept_before(i: nat) -> nat
    decreases i,
{
    if i == 0 {
        0
    } else {
        slept_before((i - 1) as nat) + retry_delay((i - 1) as nat)
    }
}

/// Whatever the outcomes, a call makes at most `attempts` (at most three)
/// attempts and then ends in a final step: it returns the response or
/// fails, never retries again; it sleeps at most three seconds in all.
pub proof fn law_retries_end(os: Seq<AttemptOutcome>, attempts: nat)
    requires
        1 <= attempts <= max_retries(),
        os.len() >= attempts,
    ensures
        final_attempt(os, attempts, 0) < attempts,
        !(step_after(final_attempt(os, attempts, 0), attempts, os[final_attempt(os, attempts, 0) as int]) is Retry),
        slept_before(final_attempt(os, attempts, 0)) <= 3,
{
    lemma_final_attempt(os, attempts, 0);
    let k = final_attempt(os, attempts, 0);
    assert(slept_before(0) == 0);
    assert(slept_before(1) == 1);
    assert(slept_before(2) == 3);
}

proof fn lemma_final_attempt(os: Seq<AttemptOutcome>, attempts: nat, i: nat)
    requires
        1 <= attempts <= max_retries(),
        os.len() >= attempts,
        i < attempts,
    ensures
        i <= final_attempt(os, attempts, i) < attempts,
        !(step_after(final_attempt(os, attempts, i), attempts, os[final_attempt(os, attempts, i) as int]) is Retry),
    decreases attempts - i,
{
    if i + 1 >= attempts {
        let o = os[i as int];
        match o {
            AttemptOutcome::Status(s) => {},
            AttemptOutcome::Transport(e) => {},
        }
    } else if step_after(i, attempts, os[i as int]) is Retry {
        lemma_final_attempt(os, attempts, i + 1);
    }
}

} // verus!
