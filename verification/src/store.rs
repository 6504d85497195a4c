//! How the bot goes on when a write to the durable store fails: it tries
//! again after a pause that doubles each time, and gives up after a few
//! attempts. The verdict on a message is never held back by any of this.

use vstd::prelude::*;

verus! {

/// How often a write is attempted before it is given up.
pub const MAX_WRITE_ATTEMPTS: u32 = 5;

/// The pause after the first failed attempt, in milliseconds.
pub const FIRST_PAUSE_MILLIS: u64 = 250;

/// What to do once an attempt to write has ended.
#[derive(Clone, Copy, Debug, PartialEq, Eq, Structural)]
pub enum WriteStep {
    /// The write is in the store.
    Done,
    /// Wait this many milliseconds, then make the next attempt.
    RetryAfter(u64),
    /// Log the failure and leave it at that.
    GiveUp,
}

/// The pause after the failed attempt number `attempt`, counted from 1: the
/// first pause, doubled once for each attempt before this one.
pub open spec fn pause_after(attempt: nat) -> nat
    decreases attempt,
{
    if attempt <= 1 {
        FIRST_PAUSE_MILLIS as nat
    } else {
        2 * pause_after((attempt - 1) as nat)
    }
}

/// What to do once attempt number `attempt`, counted from 1, has ended.
pub open spec fn step_after(attempt: nat, succeeded: bool) -> WriteStep {
    if succeeded {
        WriteStep::Done
    } else if attempt >= MAX_WRITE_ATTEMPTS {
        WriteStep::GiveUp
    } else {
        WriteStep::RetryAfter(pause_after(attempt) as u64)
    }
}

/// Each pause is twice the one before, so the pauses grow.
pub proof fn lemma_pauses_double(attempt: nat)
    requires
        attempt >= 1,
    ensures
        pause_after(attempt + 1) == 2 * pause_after(attempt),
        pause_after(attempt) >= FIRST_PAUSE_MILLIS,
        pause_after(attempt) < pause_after(attempt + 1),
    decreases attempt,
{
    if attempt > 1 {
        lemma_pauses_double((attempt - 1) as nat);
    }
}

/// No write is attempted more often than [`MAX_WRITE_ATTEMPTS`] times: the
/// last attempt ends the writing, whether it succeeded or not.
pub proof fn lemma_attempts_end(attempt: nat, succeeded: bool)
    requires
        attempt >= MAX_WRITE_ATTEMPTS,
    ensures
        !(step_after(attempt, succeeded) is RetryAfter),
{
}

/// Says what to do once attempt number `attempt`, counted from 1, has ended.
pub fn after_write(attempt: u32, succeeded: bool) -> (step: WriteStep)
    ensures
        step == step_after(attempt as nat, succeeded),
{
    if succeeded {
        return WriteStep::Done;
    }
    if attempt >= MAX_WRITE_ATTEMPTS {
        return WriteStep::GiveUp;
    }
    let mut pause: u64 = FIRST_PAUSE_MILLIS;
    let mut counted: u32 = 1;
    while counted < attempt
        invariant
            1 <= counted < MAX_WRITE_ATTEMPTS,
            attempt < MAX_WRITE_ATTEMPTS,
            counted <= attempt || counted == 1,
            pause == pause_after(counted as nat),
        decreases attempt - counted,
    {
        assert(pause_after(counted as nat) <= FIRST_PAUSE_MILLIS * 8) by {
            reveal_with_fuel(pause_after, 5);
        }
        pause = pause * 2;
        counted = counted + 1;
    }
    WriteStep::RetryAfter(pause)
}

} // verus!
