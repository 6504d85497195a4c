//! What the bot answers when a command cannot be run as it was given.

use crate::decimal::{decimal_text, push_decimal};
use vstd::prelude::*;
use vstd::string::StringExecFns;

verus! {

/// Why a command was not run.
#[derive(Debug)]
pub enum DispatchProblem {
    /// The command needs at least `min` arguments and got `given`.
    NotEnoughArguments { min: u64, given: u64 },
    /// The command takes at most `max` arguments and got `given`.
    TooManyArguments { max: u64, given: u64 },
    /// The caller has to wait `seconds` before the command runs again.
    Ratelimited { seconds: u64 },
    /// The caller lacks the permissions that `permissions` names.
    LackingPermissions { permissions: String },
    /// The command runs in guilds only.
    OnlyForGuilds,
    /// The command runs in direct messages only.
    OnlyForDM,
    /// Any other reason: it is logged, and nothing is answered.
    Other,
}

/// The text that answers a problem, if it is answered at all.
pub open spec fn problem_text(problem: DispatchProblem) -> Option<Seq<char>> {
    match problem {
        DispatchProblem::NotEnoughArguments { min, given } => Some(
            if given == 0 && min == 1 {
                ":no_entry_sign: I need an argument to run this command."@
            } else if given == 0 {
                ":no_entry_sign: I need at least "@ + decimal_text(min as nat)
                    + " arguments to run this command."@
            } else {
                ":no_entry_sign: I need "@ + decimal_text(min as nat)
                    + " arguments to run this command, But I was only given "@ + decimal_text(
                    given as nat,
                ) + "."@
            },
        ),
        DispatchProblem::TooManyArguments { max, given } => Some(
            ":no_entry_sign: I needed a maximum of "@ + decimal_text(max as nat)
                + " argument(s) but you gave me "@ + decimal_text(given as nat) + "."@,
        ),
        DispatchProblem::Ratelimited { seconds } => Some(
            ":no_entry_sign: You can use this command again in "@ + decimal_text(seconds as nat)
                + " seconds."@,
        ),
        DispatchProblem::LackingPermissions { permissions } => Some(
            ":no_entry_sign: You're lacking these permissions to run this command: `"@
                + permissions@ + "`"@,
        ),
        DispatchProblem::OnlyForGuilds => Some(":no_entry_sign: This command is for guilds only."@),
        DispatchProblem::OnlyForDM => Some(
            ":no_entry_sign: This command is for direct messages only."@,
        ),
        DispatchProblem::Other => None,
    }
}

/// Whether the answer to a problem is addressed to the caller, as a reply to
/// their message. Every other answer is said in the channel.
pub open spec fn addresses_caller(problem: DispatchProblem) -> bool {
    problem is Ratelimited
}

/// The text that answers `problem`, or nothing where the problem is only
/// logged.
pub fn dispatch_error_text(problem: &DispatchProblem) -> (text: Option<String>)
    ensures
        text.is_some() == problem_text(*problem).is_some(),
        text matches Some(answer) ==> Some(answer@) == problem_text(*problem),
{
    match problem {
        DispatchProblem::NotEnoughArguments { min, given } => {
            if *given == 0 && *min == 1 {
                Some(String::from_str(":no_entry_sign: I need an argument to run this command."))
            } else if *given == 0 {
                let mut text = String::from_str(":no_entry_sign: I need at least ");
                push_decimal(&mut text, *min);
                text.append(" arguments to run this command.");
                Some(text)
            } else {
                let mut text = String::from_str(":no_entry_sign: I need ");
                push_decimal(&mut text, *min);
                text.append(" arguments to run this command, But I was only given ");
                push_decimal(&mut text, *given);
                text.append(".");
                Some(text)
            }
        },
        DispatchProblem::TooManyArguments { max, given } => {
            let mut text = String::from_str(":no_entry_sign: I needed a maximum of ");
            push_decimal(&mut text, *max);
            text.append(" argument(s) but you gave me ");
            push_decimal(&mut text, *given);
            text.append(".");
            Some(text)
        },
        DispatchProblem::Ratelimited { seconds } => {
            let mut text = String::from_str(":no_entry_sign: You can use this command again in ");
            push_decimal(&mut text, *seconds);
            text.append(" seconds.");
            Some(text)
        },
        DispatchProblem::LackingPermissions { permissions } => {
            let mut text = String::from_str(
                ":no_entry_sign: You're lacking these permissions to run this command: `",
            );
            text.append(permissions.as_str());
            text.append("`");
            Some(text)
        },
        DispatchProblem::OnlyForGuilds => Some(
            String::from_str(":no_entry_sign: This command is for guilds only."),
        ),
        DispatchProblem::OnlyForDM => Some(
            String::from_str(":no_entry_sign: This command is for direct messages only."),
        ),
        DispatchProblem::Other => None,
    }
}

/// Whether the answer to `problem` is sent as a reply to the caller.
pub fn replies_to_caller(problem: &DispatchProblem) -> (reply: bool)
    ensures
        reply == addresses_caller(*problem),
{
    match problem {
        DispatchProblem::Ratelimited { .. } => true,
        _ => false,
    }
}

/// Why a channel cannot become the counting channel of a guild, if it
/// cannot: it must be a channel of the guild, and one in which the bot may
/// delete messages.
pub open spec fn channel_refusal_text(in_guild: bool, may_delete: bool) -> Option<Seq<char>> {
    if !in_guild {
        Some("Channel not found in this guild."@)
    } else if !may_delete {
        Some("Missing permissions to delete messages in that channel."@)
    } else {
        None
    }
}

/// Says why a channel cannot become the counting channel, or nothing if it
/// can. `in_guild` is whether the channel belongs to the guild, and
/// `may_delete` whether the bot may delete messages in it.
pub fn channel_refusal(in_guild: bool, may_delete: bool) -> (refusal: Option<String>)
    ensures
        refusal.is_some() == channel_refusal_text(in_guild, may_delete).is_some(),
        refusal matches Some(text) ==> Some(text@) == channel_refusal_text(in_guild, may_delete),
{
    if !in_guild {
        Some(String::from_str("Channel not found in this guild."))
    } else if !may_delete {
        Some(String::from_str("Missing permissions to delete messages in that channel."))
    } else {
        None
    }
}

} // verus!
