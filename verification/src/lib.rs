//! The verified core of a chat command bot.
//!
//! Two parts of the bot keep state between events, and both live here:
//!
//! - [`counting`]: the counting game. A cache holds the last accepted count
//!   of every counting channel and judges each message against it.
//! - [`menu`]: paginated menus. A controller holds one session for every
//!   menu on display and moves it by the reactions of its owner, until a
//!   fixed deadline passes or the menu is closed.
//!
//! Around them stand the plain rules that the commands share: the guild
//! record and its ids ([`guild`]), the command prefix of a guild
//! ([`prefix`]), how a failed write to the store is tried again ([`store`]),
//! base-10 text ([`decimal`]), the uptime line ([`uptime`]), the head counts
//! of the information commands ([`tally`]), the answers to commands that
//! cannot be run ([`replies`]), and the addresses and records of the two
//! services that the bot asks ([`avwx`], [`modrinth`], [`percent`]).
//!
//! Nothing here reads a clock, a socket or a file. Whoever calls hands in the
//! time and the events as plain values, and carries out what comes back.
//! Every function states what it returns and changes, over the models that
//! the modules define, and is proved to meet that statement. The two
//! exceptions are the calls into the `dashmap` and `urlencoding` crates,
//! whose contracts are stated and believed.

pub mod avwx;
pub mod counting;
pub mod decimal;
pub mod guild;
pub mod menu;
pub mod modrinth;
pub mod percent;
pub mod prefix;
pub mod replies;
mod shared_map;
pub mod store;
pub mod tally;
pub mod uptime;
