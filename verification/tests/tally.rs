use kbot_rust::tally::{
    emoji_limit, tally_channels, tally_emojis, tally_members, ChannelKind, ChannelTally,
    EmojiTally, Member, MemberTally, Status,
};

#[test]
fn channels_are_counted_by_kind() {
    assert_eq!(tally_channels(&vec![]), ChannelTally { text: 0, voice: 0 });
    let kinds = vec![
        ChannelKind::Text,
        ChannelKind::Other,
        ChannelKind::Voice,
        ChannelKind::Text,
        ChannelKind::Text,
        ChannelKind::Other,
    ];
    assert_eq!(tally_channels(&kinds), ChannelTally { text: 3, voice: 1 });
    assert_eq!(
        tally_channels(&vec![ChannelKind::Voice; 40]),
        ChannelTally { text: 0, voice: 40 }
    );
}

#[test]
fn emojis_are_counted_by_kind() {
    assert_eq!(tally_emojis(&vec![]), EmojiTally { animated: 0, regular: 0 });
    assert_eq!(
        tally_emojis(&vec![true, false, false, true, false]),
        EmojiTally { animated: 2, regular: 3 }
    );
}

#[test]
fn the_emoji_limit_grows_by_fifty_a_level() {
    assert_eq!(emoji_limit(0), 50);
    assert_eq!(emoji_limit(1), 100);
    assert_eq!(emoji_limit(2), 150);
    assert_eq!(emoji_limit(3), 200);
    assert_eq!(emoji_limit(255), 12_800);
}

#[test]
fn members_are_counted_by_kind_and_presence() {
    let member = |bot: bool, status: Option<Status>| Member { bot, status };
    let members = vec![
        member(false, Some(Status::Online)),
        member(true, Some(Status::Online)),
        member(false, Some(Status::Idle)),
        member(false, Some(Status::DoNotDisturb)),
        member(false, Some(Status::Offline)),
        member(true, Some(Status::Invisible)),
        member(false, None),
        member(false, Some(Status::Other)),
        member(true, None),
    ];
    assert_eq!(
        tally_members(&members),
        MemberTally { bots: 3, humans: 6, online: 2, idle: 1, dnd: 1, offline: 4, total: 9 }
    );
    assert_eq!(
        tally_members(&vec![]),
        MemberTally { bots: 0, humans: 0, online: 0, idle: 0, dnd: 0, offline: 0, total: 0 }
    );
}
