use kbot_rust::guild::{DatabaseGuild, GuildCounting};
use kbot_rust::prefix::PrefixCache;

fn guild(id: i64, prefix: Option<&str>, counting: Option<(i64, i64)>) -> DatabaseGuild {
    DatabaseGuild {
        _id: id,
        prefix: prefix.map(String::from),
        counting: counting.map(|(channel, count)| GuildCounting { channel, count }),
    }
}

#[test]
fn a_guild_answers_to_its_own_prefix() {
    let mut cache = PrefixCache::new();
    cache.set_prefix(1, String::from("!"));
    cache.set_prefix(2, String::from("k."));
    assert_eq!(cache.prefix_of(1).as_deref(), Some("!"));
    assert_eq!(cache.prefix_of(2).as_deref(), Some("k."));
    assert_eq!(cache.prefix_of(3), None);
    assert_eq!(cache.effective_prefix(Some(1), None), "!");
    assert_eq!(cache.effective_prefix(Some(2), Some(String::from("$"))), "k.");
}

#[test]
fn without_an_own_prefix_the_default_answers() {
    let mut cache = PrefixCache::new();
    cache.set_prefix(1, String::from("!"));
    assert_eq!(cache.effective_prefix(Some(3), Some(String::from("$"))), "$");
    assert_eq!(cache.effective_prefix(Some(3), None), "?");
    assert_eq!(cache.effective_prefix(None, Some(String::from("$"))), "$");
    assert_eq!(cache.effective_prefix(None, None), "?");
    assert_eq!(cache.effective_prefix(None, Some(String::new())), "");
}

#[test]
fn setting_again_overwrites_and_resetting_removes() {
    let mut cache = PrefixCache::new();
    cache.set_prefix(1, String::from("!"));
    cache.set_prefix(1, String::from("%%"));
    assert_eq!(cache.prefix_of(1).as_deref(), Some("%%"));
    cache.reset_prefix(1);
    assert_eq!(cache.prefix_of(1), None);
    assert_eq!(cache.effective_prefix(Some(1), None), "?");
    cache.reset_prefix(1);
    assert_eq!(cache.prefix_of(1), None);
}

#[test]
fn seeding_files_every_stored_prefix_under_its_guild() {
    let guilds = vec![
        guild(1, Some("!"), None),
        guild(2, None, Some((10, 3))),
        guild(-1, Some("\u{e9}"), Some((30, 0))),
        guild(1, Some("again"), None),
    ];
    let mut cache = PrefixCache::new();
    cache.set_prefix(9, String::from("kept"));
    cache.seed(&guilds);
    assert_eq!(cache.prefix_of(1).as_deref(), Some("again"));
    assert_eq!(cache.prefix_of(2), None);
    assert_eq!(cache.prefix_of(u64::MAX).as_deref(), Some("\u{e9}"));
    assert_eq!(cache.prefix_of(9).as_deref(), Some("kept"));
    assert_eq!(cache.prefix_of(10), None);
}

#[test]
fn forgetting_a_guild_drops_the_prefix_that_its_record_held() {
    let mut cache = PrefixCache::new();
    cache.set_prefix(1, String::from("!"));
    cache.set_prefix(2, String::from("$"));
    cache.forget_guild(1, &guild(1, None, Some((10, 3))));
    assert_eq!(cache.prefix_of(1).as_deref(), Some("!"));
    cache.forget_guild(1, &guild(1, Some("!"), None));
    assert_eq!(cache.prefix_of(1), None);
    assert_eq!(cache.prefix_of(2).as_deref(), Some("$"));
}
