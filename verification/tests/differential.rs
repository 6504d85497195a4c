use kbot_rust::avwx::station_url;
use kbot_rust::counting::{Action, CountingCache};
use kbot_rust::decimal::parse_i64;
use kbot_rust::modrinth::search_url;
use kbot_rust::prefix::PrefixCache;
use std::collections::HashMap;

struct Lcg(u64);

impl Lcg {
    fn next(&mut self) -> u64 {
        self.0 = self.0.wrapping_mul(6364136223846793005).wrapping_add(1442695040888963407);
        self.0 >> 16
    }
}

fn encoded(bytes: &[u8]) -> String {
    let mut out = String::new();
    for &byte in bytes {
        let unreserved = byte.is_ascii_alphanumeric() || matches!(byte, b'-' | b'.' | b'_' | b'~');
        if unreserved {
            out.push(byte as char);
        } else {
            out.push('%');
            for digit in [byte / 16, byte % 16] {
                out.push(if digit < 10 { (b'0' + digit) as char } else { (b'A' + digit - 10) as char });
            }
        }
    }
    out
}

#[test]
fn every_byte_is_encoded_as_the_address_functions_state() {
    for code in 0u32..=0x7ff {
        let text: String = char::from_u32(code).unwrap().to_string();
        assert_eq!(
            station_url(&text),
            format!("https://avwx.rest/api/station/{}?format=json", encoded(text.as_bytes()))
        );
    }
    for text in ["\u{ffff}", "\u{10000}", "\u{10ffff}", "a\u{20ac}b c", "~-._", "%41", "A%2FB"] {
        assert_eq!(
            station_url(text),
            format!("https://avwx.rest/api/station/{}?format=json", encoded(text.as_bytes()))
        );
        assert_eq!(
            search_url(17, text),
            format!(
                "https://api.modrinth.com/api/v1/mod?limit=17&index=relevance&query={}&",
                encoded(text.as_bytes())
            )
        );
    }
}

#[test]
fn random_texts_are_read_as_std_reads_them() {
    let alphabet: Vec<char> = "0123456789+- a.".chars().collect();
    let mut random = Lcg(7);
    for _ in 0..20_000 {
        let length = (random.next() % 22) as usize;
        let text: String =
            (0..length).map(|_| alphabet[(random.next() % alphabet.len() as u64) as usize]).collect();
        assert_eq!(parse_i64(&text), text.parse::<i64>().ok(), "{:?}", text);
    }
    for _ in 0..20_000 {
        let number = random.next().wrapping_mul(random.next()) as i64;
        assert_eq!(parse_i64(&number.to_string()), Some(number));
        let wide = (number as i128) * 3;
        assert_eq!(parse_i64(&wide.to_string()), wide.to_string().parse::<i64>().ok());
    }
}

#[test]
fn the_counting_cache_behaves_as_a_plain_map_of_counts() {
    let mut random = Lcg(11);
    let mut cache = CountingCache::new();
    let mut model: HashMap<u64, i64> = HashMap::new();
    for _ in 0..20_000 {
        let channel = random.next() % 8;
        match random.next() % 6 {
            0 => {
                let start = (random.next() % 5) as i64 - 2;
                cache.register_channel(channel, start);
                model.insert(channel, start);
            },
            1 => {
                cache.unregister_channel(channel);
                model.remove(&channel);
            },
            _ => {
                let guess = model.get(&channel).copied().unwrap_or(0) + (random.next() % 3) as i64;
                let expected = match model.get(&channel).copied() {
                    None => Action::Ignore,
                    Some(last) if guess == last + 1 => {
                        model.insert(channel, guess);
                        Action::Accept
                    },
                    Some(_) => Action::Reject,
                };
                assert_eq!(cache.on_message(channel, &guess.to_string()), expected);
            },
        }
        for channel in 0..8 {
            assert_eq!(cache.last_count(channel), model.get(&channel).copied());
        }
    }
}

#[test]
fn the_prefix_cache_behaves_as_a_plain_map_of_prefixes() {
    let mut random = Lcg(13);
    let mut cache = PrefixCache::new();
    let mut model: HashMap<u64, String> = HashMap::new();
    for step in 0..5_000 {
        let guild = random.next() % 6;
        if random.next() % 3 == 0 {
            cache.reset_prefix(guild);
            model.remove(&guild);
        } else {
            let prefix = format!("p{}", step);
            cache.set_prefix(guild, prefix.clone());
            model.insert(guild, prefix);
        }
        for guild in 0..6 {
            assert_eq!(cache.prefix_of(guild), model.get(&guild).cloned());
            let expected = model.get(&guild).cloned().unwrap_or_else(|| String::from("?"));
            assert_eq!(cache.effective_prefix(Some(guild), None), expected);
        }
    }
}
