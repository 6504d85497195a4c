//! How long the bot has been running, and how that is written in a reply.

use crate::decimal::{decimal_text, push_decimal, push_two_digits, two_digit_text};
use vstd::prelude::*;
use vstd::string::StringExecFns;

verus! {

/// A span of less than a day as a clock writes it: hours, then minutes and
/// seconds with two digits each.
pub open spec fn clock_text(seconds: nat) -> Seq<char> {
    decimal_text(seconds / 3600 % 24) + seq![':'] + two_digit_text(seconds % 3600 / 60) + seq![':']
        + two_digit_text(seconds % 3600 % 60)
}

/// A span written for a reader: the clock alone within the first day, and
/// the number of whole days in front of it from then on.
pub open spec fn span_text(seconds: nat) -> Seq<char> {
    let days = seconds / 60 / 60 / 24;
    if days == 0 {
        clock_text(seconds)
    } else {
        decimal_text(days) + seq![' ', 'd', 'a', 'y', 's', ' '] + clock_text(seconds)
    }
}

/// Writes a span of `seconds` as `H:MM:SS`, or as `D days H:MM:SS` once it
/// reaches a day.
pub fn seconds_to_days(seconds: u64) -> (text: String)
    ensures
        text@ == span_text(seconds as nat),
{
    let days = seconds / 60 / 60 / 24;
    let hours = seconds / 3600 % 24;
    let minutes = seconds % 3600 / 60;
    let sec = seconds % 3600 % 60;

    let mut text = String::new();
    if days != 0 {
        push_decimal(&mut text, days);
        text.append(" days ");
        proof {
            reveal_strlit(" days ");
        }
    }
    push_decimal(&mut text, hours);
    text.append(":");
    push_two_digits(&mut text, minutes);
    text.append(":");
    push_two_digits(&mut text, sec);
    proof {
        reveal_strlit(":");
    }
    text
}

/// The moment the bot came up, in seconds on the clock that the caller reads.
#[derive(Clone, Copy, Debug, PartialEq, Eq, Structural)]
pub struct Uptime {
    pub started_at: u64,
}

impl Uptime {
    /// The seconds that have passed between the start and `now`; none if the
    /// clock reads earlier than at the start.
    pub open spec fn spec_elapsed(self, now: u64) -> u64 {
        if now >= self.started_at {
            (now - self.started_at) as u64
        } else {
            0
        }
    }

    /// The uptime of a bot that came up at `at`.
    pub fn started(at: u64) -> (uptime: Uptime)
        ensures
            uptime.started_at == at,
    {
        Uptime { started_at: at }
    }

    /// The seconds that have passed between the start and `now`.
    #[verifier::when_used_as_spec(spec_elapsed)]
    pub fn elapsed(self, now: u64) -> (seconds: u64)
        ensures
            seconds == self.spec_elapsed(now),
    {
        if now >= self.started_at {
            now - self.started_at
        } else {
            0
        }
    }

    /// The time the bot has been up at `now`, written for a reader.
    pub fn describe(self, now: u64) -> (text: String)
        ensures
            text@ == span_text(self.spec_elapsed(now) as nat),
    {
        seconds_to_days(self.elapsed(now))
    }
}

} // verus!
