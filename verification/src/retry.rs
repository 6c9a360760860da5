//! When a submission that failed is tried again: twice at most, after one
//! second and then after two.

use vstd::prelude::*;

verus! {

/// How many times a failed submission is tried again.
pub const MAX_RETRIES: u32 = 2;

/// What to do after an attempt to submit.
#[derive(Debug, PartialEq, Eq)]
pub enum SendStep {
    /// The ledger took the transaction: this is its hash.
    Done(Vec<u8>),
    /// The attempt failed: wait for this many seconds and submit again.
    RetryAfter(u64),
    /// The attempt failed and none is left.
    GiveUp,
}

/// The seconds to wait after the failure that follows `attempts` earlier
/// ones: one, doubled for each of them.
pub open spec fn backoff_seconds(attempts: u32) -> nat
    decreases attempts,
{
    if attempts == 0 {
        1
    } else {
        2 * backoff_seconds((attempts - 1) as u32)
    }
}

/// What to do after an attempt that followed `attempts` failed ones and
/// ended with `outcome`: the hash where the ledger answered, nothing where
/// it did not.
pub fn next_send_step(attempts: u32, outcome: Option<Vec<u8>>) -> (step: SendStep)
    ensures
        match outcome {
            Some(hash) => step == SendStep::Done(hash),
            None => if attempts < MAX_RETRIES {
                step == SendStep::RetryAfter(backoff_seconds(attempts) as u64)
            } else {
                step == SendStep::GiveUp
            },
        },
{
    match outcome {
        Some(hash) => SendStep::Done(hash),
        None => {
            if attempts < MAX_RETRIES {
                proof {
                    reveal_with_fuel(backoff_seconds, 3);
                }
                let seconds: u64 = if attempts == 0 {
                    1
                } else {
                    2
                };
                SendStep::RetryAfter(seconds)
            } else {
                SendStep::GiveUp
            }
        },
    }
}

/// The seconds waited in all after `failures` failed attempts in a row.
pub open spec fn total_wait(failures: u32) -> nat
    decreases failures,
{
    if failures == 0 {
        0
    } else {
        total_wait((failures - 1) as u32) + backoff_seconds((failures - 1) as u32)
    }
}

/// The waits are of one second and of two: a submission that keeps failing
/// is given up after three seconds of waiting.
pub proof fn retries_are_bounded()
    ensures
        backoff_seconds(0) == 1,
        backoff_seconds(1) == 2,
        total_wait(MAX_RETRIES) == 3,
{
    reveal_with_fuel(backoff_seconds, 3);
    reveal_with_fuel(total_wait, 3);
}

} // verus!
