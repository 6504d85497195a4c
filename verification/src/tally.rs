//! The head counts that the information commands show: channels by kind,
//! members by kind and by presence, emojis by kind.

use vstd::prelude::*;

verus! {

/// How many items of `items` satisfy `wanted`.
pub open spec fn count_where<T>(items: Seq<T>, wanted: spec_fn(T) -> bool) -> nat
    decreases items.len(),
{
    if items.len() == 0 {
        0
    } else {
        count_where(items.drop_last(), wanted) + if wanted(items.last()) {
            1nat
        } else {
            0nat
        }
    }
}

/// The kinds of channel that are counted, and all the others.
#[derive(Clone, Copy, Debug, PartialEq, Eq, Structural)]
pub enum ChannelKind {
    Text,
    Voice,
    Other,
}

/// How many text and voice channels there are.
#[derive(Clone, Copy, Debug, PartialEq, Eq, Structural)]
pub struct ChannelTally {
    pub text: usize,
    pub voice: usize,
}

/// Whether a channel is a text channel.
pub open spec fn is_text(kind: ChannelKind) -> bool {
    kind == ChannelKind::Text
}

/// Whether a channel is a voice channel.
pub open spec fn is_voice(kind: ChannelKind) -> bool {
    kind == ChannelKind::Voice
}

/// Counts the text and the voice channels among `kinds`.
pub fn tally_channels(kinds: &Vec<ChannelKind>) -> (tally: ChannelTally)
    ensures
        tally.text == count_where(kinds@, |kind: ChannelKind| is_text(kind)),
        tally.voice == count_where(kinds@, |kind: ChannelKind| is_voice(kind)),
        tally.text + tally.voice <= kinds@.len(),
{
    let ghost text = |kind: ChannelKind| is_text(kind);
    let ghost voice = |kind: ChannelKind| is_voice(kind);
    let mut tally = ChannelTally { text: 0, voice: 0 };
    let mut index: usize = 0;
    while index < kinds.len()
        invariant
            0 <= index <= kinds.len(),
            text == |kind: ChannelKind| is_text(kind),
            voice == |kind: ChannelKind| is_voice(kind),
            tally.text == count_where(kinds@.take(index as int), text),
            tally.voice == count_where(kinds@.take(index as int), voice),
            tally.text + tally.voice <= index,
        decreases kinds.len() - index,
    {
        proof {
            let longer = kinds@.take(index + 1);
            assert(longer.drop_last() =~= kinds@.take(index as int));
        }
        match kinds[index] {
            ChannelKind::Text => {
                tally.text = tally.text + 1;
            },
            ChannelKind::Voice => {
                tally.voice = tally.voice + 1;
            },
            ChannelKind::Other => {},
        }
        index = index + 1;
    }
    assert(kinds@.take(index as int) =~= kinds@);
    tally
}

/// How many animated and how many still emojis there are.
#[derive(Clone, Copy, Debug, PartialEq, Eq, Structural)]
pub struct EmojiTally {
    pub animated: usize,
    pub regular: usize,
}

/// Counts the emojis, each given by whether it is animated.
pub fn tally_emojis(animated: &Vec<bool>) -> (tally: EmojiTally)
    ensures
        tally.animated == count_where(animated@, |moving: bool| moving),
        tally.regular == count_where(animated@, |moving: bool| !moving),
        tally.animated + tally.regular == animated@.len(),
{
    let ghost moving = |moving: bool| moving;
    let ghost still = |moving: bool| !moving;
    let mut tally = EmojiTally { animated: 0, regular: 0 };
    let mut index: usize = 0;
    while index < animated.len()
        invariant
            0 <= index <= animated.len(),
            moving == |moving: bool| moving,
            still == |moving: bool| !moving,
            tally.animated == count_where(animated@.take(index as int), moving),
            tally.regular == count_where(animated@.take(index as int), still),
            tally.animated + tally.regular == index,
        decreases animated.len() - index,
    {
        proof {
            let longer = animated@.take(index + 1);
            assert(longer.drop_last() =~= animated@.take(index as int));
        }
        if animated[index] {
            tally.animated = tally.animated + 1;
        } else {
            tally.regular = tally.regular + 1;
        }
        index = index + 1;
    }
    assert(animated@.take(index as int) =~= animated@);
    tally
}

/// The number of emojis of each kind that a guild of boost level `tier` may
/// have: 50, and 50 more for each level.
pub fn emoji_limit(tier: u8) -> (limit: u64)
    ensures
        limit == tier * 50 + 50,
{
    tier as u64 * 50 + 50
}

/// What a member is seen to be doing.
#[derive(Clone, Copy, Debug, PartialEq, Eq, Structural)]
pub enum Status {
    Online,
    Idle,
    DoNotDisturb,
    Offline,
    Invisible,
    /// A status that this crate does not know: it is counted nowhere.
    Other,
}

/// What is counted of a member: whether it is a bot, and its status, if the
/// guild has a presence for it.
#[derive(Clone, Copy, Debug, PartialEq, Eq, Structural)]
pub struct Member {
    pub bot: bool,
    pub status: Option<Status>,
}

/// The members of a guild by kind and by presence.
#[derive(Clone, Copy, Debug, PartialEq, Eq, Structural)]
pub struct MemberTally {
    pub bots: usize,
    pub humans: usize,
    pub online: usize,
    pub idle: usize,
    pub dnd: usize,
    pub offline: usize,
    /// Bots and humans together.
    pub total: usize,
}

/// Whether a member is a bot.
pub open spec fn is_bot(member: Member) -> bool {
    member.bot
}

/// Whether a member is no bot.
pub open spec fn is_human(member: Member) -> bool {
    !member.bot
}

/// Whether a member is seen online.
pub open spec fn is_online(member: Member) -> bool {
    member.status == Some(Status::Online)
}

/// Whether a member is seen idle.
pub open spec fn is_idle(member: Member) -> bool {
    member.status == Some(Status::Idle)
}

/// Whether a member asks not to be disturbed.
pub open spec fn is_dnd(member: Member) -> bool {
    member.status == Some(Status::DoNotDisturb)
}

/// A member counts as offline if it is offline or invisible, or if the guild
/// has no presence for it.
pub open spec fn is_offline(member: Member) -> bool {
    member.status == Some(Status::Offline) || member.status == Some(Status::Invisible)
        || member.status.is_none()
}

impl MemberTally {
    /// Whether this tally counts the members `members`.
    pub open spec fn counts(self, members: Seq<Member>) -> bool {
        &&& self.bots == count_where(members, |member: Member| is_bot(member))
        &&& self.humans == count_where(members, |member: Member| is_human(member))
        &&& self.online == count_where(members, |member: Member| is_online(member))
        &&& self.idle == count_where(members, |member: Member| is_idle(member))
        &&& self.dnd == count_where(members, |member: Member| is_dnd(member))
        &&& self.offline == count_where(members, |member: Member| is_offline(member))
        &&& self.total == members.len()
    }
}

/// Counts the members of a guild.
pub fn tally_members(members: &Vec<Member>) -> (tally: MemberTally)
    ensures
        tally.counts(members@),
        tally.bots + tally.humans == tally.total,
        tally.online + tally.idle + tally.dnd + tally.offline <= tally.total,
{
    let mut tally = MemberTally {
        bots: 0,
        humans: 0,
        online: 0,
        idle: 0,
        dnd: 0,
        offline: 0,
        total: 0,
    };
    let mut index: usize = 0;
    while index < members.len()
        invariant
            0 <= index <= members.len(),
            tally.counts(members@.take(index as int)),
            tally.total == index,
            tally.bots + tally.humans == index,
            tally.online + tally.idle + tally.dnd + tally.offline <= index,
        decreases members.len() - index,
    {
        proof {
            let longer = members@.take(index + 1);
            assert(longer.drop_last() =~= members@.take(index as int));
        }
        let member = members[index];
        tally.total = tally.total + 1;
        if member.bot {
            tally.bots = tally.bots + 1;
        } else {
            tally.humans = tally.humans + 1;
        }
        match member.status {
            Some(Status::Online) => {
                tally.online = tally.online + 1;
            },
            Some(Status::DoNotDisturb) => {
                tally.dnd = tally.dnd + 1;
            },
            Some(Status::Idle) => {
                tally.idle = tally.idle + 1;
            },
            Some(Status::Offline) => {
                tally.offline = tally.offline + 1;
            },
            Some(Status::Invisible) => {
                tally.offline = tally.offline + 1;
            },
            Some(Status::Other) => {},
            None => {
                tally.offline = tally.offline + 1;
            },
        }
        index = index + 1;
    }
    assert(members@.take(index as int) =~= members@);
    tally
}

} // verus!
