use kbot_rust::counting::{Action, CountingCache, MessageEffect};
use kbot_rust::decimal::parse_i64;
use kbot_rust::guild::{DatabaseGuild, GuildCounting};

const CHANNEL: u64 = 776_804_948_633_059_338;

#[test]
fn counting_up_from_zero_accepts_every_post() {
    let mut cache = CountingCache::new();
    cache.register_channel(CHANNEL, 0);
    for n in 1..=250i64 {
        assert_eq!(cache.on_message(CHANNEL, &n.to_string()), Action::Accept);
        assert_eq!(cache.last_count(CHANNEL), Some(n));
    }
    assert_eq!(cache.last_count(CHANNEL), Some(250));
}

#[test]
fn second_post_of_the_same_number_is_rejected() {
    let mut cache = CountingCache::new();
    cache.register_channel(CHANNEL, 41);
    assert_eq!(cache.on_message(CHANNEL, "42"), Action::Accept);
    assert_eq!(cache.on_message(CHANNEL, "42"), Action::Reject);
    assert_eq!(cache.last_count(CHANNEL), Some(42));

    let mut cache = CountingCache::new();
    cache.register_channel(CHANNEL, 41);
    assert_eq!(cache.on_message(CHANNEL, "+42"), Action::Accept);
    assert_eq!(cache.on_message(CHANNEL, "42"), Action::Reject);
    assert_eq!(cache.last_count(CHANNEL), Some(42));
}

#[test]
fn text_that_is_no_integer_is_rejected() {
    let texts = [
        "", "abc", "1.5", " 1", "1 ", "+", "-", "--1", "+-1", "1e3", "0x10", "1_000", "one",
        "\u{ff11}", "1\n", "12a", "a12", "9223372036854775808", "-9223372036854775809",
        "99999999999999999999999999",
    ];
    for start in [0i64, -1, 7, i64::MAX, i64::MIN] {
        let mut cache = CountingCache::new();
        cache.register_channel(CHANNEL, start);
        for text in texts {
            assert_eq!(cache.on_message(CHANNEL, text), Action::Reject, "{:?}", text);
            assert_eq!(cache.last_count(CHANNEL), Some(start));
        }
    }
}

#[test]
fn unregistered_channel_is_ignored() {
    let mut cache = CountingCache::new();
    cache.register_channel(CHANNEL, 0);
    for text in ["1", "2", "", "abc", "-5"] {
        assert_eq!(cache.on_message(CHANNEL + 1, text), Action::Ignore);
    }
    assert_eq!(cache.last_count(CHANNEL + 1), None);
    assert_eq!(cache.last_count(CHANNEL), Some(0));

    let mut empty = CountingCache::new();
    assert_eq!(empty.on_message(CHANNEL, "1"), Action::Ignore);
}

#[test]
fn wrong_number_is_rejected_and_changes_nothing() {
    let mut cache = CountingCache::new();
    cache.register_channel(CHANNEL, 10);
    for text in ["10", "12", "9", "0", "-11", "1"] {
        assert_eq!(cache.on_message(CHANNEL, text), Action::Reject);
        assert_eq!(cache.last_count(CHANNEL), Some(10));
    }
    assert_eq!(cache.on_message(CHANNEL, "11"), Action::Accept);
    assert_eq!(cache.last_count(CHANNEL), Some(11));
}

#[test]
fn signs_and_leading_zeros_are_read_as_std_reads_them() {
    let mut cache = CountingCache::new();
    cache.register_channel(CHANNEL, 4);
    assert_eq!(cache.on_message(CHANNEL, "+5"), Action::Accept);
    assert_eq!(cache.on_message(CHANNEL, "006"), Action::Accept);
    assert_eq!(cache.last_count(CHANNEL), Some(6));

    cache.register_channel(CHANNEL, -3);
    assert_eq!(cache.on_message(CHANNEL, "-2"), Action::Accept);
    assert_eq!(cache.on_message(CHANNEL, "-1"), Action::Accept);
    assert_eq!(cache.on_message(CHANNEL, "-0"), Action::Accept);
    assert_eq!(cache.on_message(CHANNEL, "1"), Action::Accept);
    assert_eq!(cache.last_count(CHANNEL), Some(1));
}

#[test]
fn counting_stops_at_the_largest_count() {
    let mut cache = CountingCache::new();
    cache.register_channel(CHANNEL, i64::MAX - 1);
    assert_eq!(cache.on_message(CHANNEL, "9223372036854775807"), Action::Accept);
    assert_eq!(cache.last_count(CHANNEL), Some(i64::MAX));
    assert_eq!(cache.on_message(CHANNEL, "9223372036854775808"), Action::Reject);
    assert_eq!(cache.on_message(CHANNEL, "-9223372036854775808"), Action::Reject);
    assert_eq!(cache.on_message(CHANNEL, "9223372036854775807"), Action::Reject);
    assert_eq!(cache.last_count(CHANNEL), Some(i64::MAX));
}

#[test]
fn registering_again_overwrites_the_count() {
    let mut cache = CountingCache::new();
    cache.register_channel(CHANNEL, 0);
    assert_eq!(cache.on_message(CHANNEL, "1"), Action::Accept);
    cache.register_channel(CHANNEL, 0);
    assert_eq!(cache.last_count(CHANNEL), Some(0));
    assert_eq!(cache.on_message(CHANNEL, "2"), Action::Reject);
    assert_eq!(cache.on_message(CHANNEL, "1"), Action::Accept);
}

#[test]
fn unregistering_makes_the_channel_ordinary() {
    let mut cache = CountingCache::new();
    cache.register_channel(CHANNEL, 0);
    cache.register_channel(CHANNEL + 1, 5);
    cache.unregister_channel(CHANNEL);
    assert_eq!(cache.on_message(CHANNEL, "1"), Action::Ignore);
    assert_eq!(cache.last_count(CHANNEL), None);
    assert_eq!(cache.on_message(CHANNEL + 1, "6"), Action::Accept);
    cache.unregister_channel(CHANNEL);
    assert_eq!(cache.last_count(CHANNEL), None);
    assert_eq!(cache.last_count(CHANNEL + 1), Some(6));
}

#[test]
fn channels_do_not_interfere() {
    let mut cache = CountingCache::new();
    cache.register_channel(1, 0);
    cache.register_channel(2, 100);
    assert_eq!(cache.on_message(1, "1"), Action::Accept);
    assert_eq!(cache.on_message(2, "101"), Action::Accept);
    assert_eq!(cache.on_message(1, "101"), Action::Reject);
    assert_eq!(cache.on_message(2, "2"), Action::Reject);
    assert_eq!(cache.last_count(1), Some(1));
    assert_eq!(cache.last_count(2), Some(101));
}

fn guild(id: i64, prefix: Option<&str>, counting: Option<(i64, i64)>) -> DatabaseGuild {
    DatabaseGuild {
        _id: id,
        prefix: prefix.map(String::from),
        counting: counting.map(|(channel, count)| GuildCounting { channel, count }),
    }
}

#[test]
fn seeding_registers_every_stored_counting_channel() {
    let guilds = vec![
        guild(1, None, Some((10, 3))),
        guild(2, Some("!"), None),
        guild(3, Some("$"), Some((30, 0))),
        guild(4, None, Some((-1, 8))),
    ];
    let mut cache = CountingCache::new();
    cache.register_channel(10, 99);
    cache.register_channel(77, 5);
    cache.seed(&guilds);
    assert_eq!(cache.last_count(10), Some(3));
    assert_eq!(cache.last_count(30), Some(0));
    assert_eq!(cache.last_count(u64::MAX), Some(8));
    assert_eq!(cache.last_count(77), Some(5));
    assert_eq!(cache.last_count(2), None);
    assert_eq!(cache.on_message(10, "4"), Action::Accept);
    assert_eq!(cache.on_message(30, "1"), Action::Accept);
}

#[test]
fn a_later_record_for_the_same_channel_wins_at_seeding() {
    let guilds = vec![guild(1, None, Some((10, 3))), guild(2, None, Some((10, 7)))];
    let mut cache = CountingCache::new();
    cache.seed(&guilds);
    assert_eq!(cache.last_count(10), Some(7));
}

#[test]
fn forgetting_a_guild_unregisters_its_counting_channel() {
    let mut cache = CountingCache::new();
    cache.register_channel(10, 3);
    cache.register_channel(20, 4);
    cache.forget_guild(&guild(1, Some("!"), None));
    assert_eq!(cache.last_count(10), Some(3));
    cache.forget_guild(&guild(1, None, Some((10, 3))));
    assert_eq!(cache.last_count(10), None);
    assert_eq!(cache.last_count(20), Some(4));
    cache.forget_guild(&guild(1, None, Some((10, 3))));
    assert_eq!(cache.last_count(10), None);
}

#[test]
fn parse_i64_agrees_with_std() {
    let texts = [
        "0", "1", "-1", "+1", "-0", "+0", "007", "-007", "42", "1234567890",
        "9223372036854775807", "9223372036854775808", "-9223372036854775808",
        "-9223372036854775809", "00000000000000000000000000000000000009",
        "-00000000000000000000000000000000000009", "18446744073709551616", "", "+", "-", "++1",
        "1+", "1-1", " 1", "1 ", "a", "1a", "\u{0661}", "\u{ff11}", "1.0", "1,0", "\u{2b05}",
        "92233720368547758070", "-92233720368547758080",
    ];
    for text in texts {
        assert_eq!(parse_i64(text), text.parse::<i64>().ok(), "{:?}", text);
    }
    assert_eq!(parse_i64("9223372036854775807"), Some(i64::MAX));
    assert_eq!(parse_i64("-9223372036854775808"), Some(i64::MIN));
    assert_eq!(parse_i64("+17"), Some(17));
    assert_eq!(parse_i64("-17"), Some(-17));
    assert_eq!(parse_i64("seventeen"), None);
}

#[test]
fn an_accepted_message_asks_for_its_count_to_be_stored() {
    let mut cache = CountingCache::new();
    cache.register_channel(CHANNEL, 9);
    assert_eq!(cache.dispatch(CHANNEL, "+010"), MessageEffect::Persist { count: 10 });
    assert_eq!(cache.last_count(CHANNEL), Some(10));
    assert_eq!(cache.dispatch(CHANNEL, "11"), MessageEffect::Persist { count: 11 });
}

#[test]
fn a_rejected_message_asks_to_be_deleted() {
    let mut cache = CountingCache::new();
    cache.register_channel(CHANNEL, 9);
    assert_eq!(cache.dispatch(CHANNEL, "11"), MessageEffect::Delete);
    assert_eq!(cache.dispatch(CHANNEL, "ten"), MessageEffect::Delete);
    assert_eq!(cache.dispatch(CHANNEL, ""), MessageEffect::Delete);
    assert_eq!(cache.last_count(CHANNEL), Some(9));
}

#[test]
fn an_ignored_message_asks_for_nothing() {
    let mut cache = CountingCache::new();
    assert_eq!(cache.dispatch(CHANNEL, "1"), MessageEffect::Nothing);
    assert_eq!(cache.dispatch(CHANNEL, "one"), MessageEffect::Nothing);
    assert_eq!(cache.last_count(CHANNEL), None);
}
