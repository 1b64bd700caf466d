use carrot_cake::config::{
    config_is_valid, derive_by_guild_id, ByGuildId, Config, NotifyConfig, StreamConfig,
};
use carrot_cake::discord::connection::{add_guilds, channels_to_sync, GuildInfo, GuildPage};

fn notify(guild_id: &str, channel_id: &str, ping: &str) -> NotifyConfig {
    NotifyConfig {
        guild_id: guild_id.to_string(),
        channel_id: channel_id.to_string(),
        ping: Some(ping.to_string()),
        format_online: None,
        format_offline: None,
    }
}

fn stream(login: &str, notify: Vec<NotifyConfig>) -> StreamConfig {
    StreamConfig { streamer_login: login.to_string(), notify }
}

fn guild(id: u64) -> GuildInfo {
    GuildInfo { id, name: format!("guild {id}") }
}

fn listed(routes: &ByGuildId, guild_id: u64, login: &str) -> Vec<(u64, String)> {
    let mut out: Vec<(u64, String)> = routes
        .channels(guild_id, login)
        .into_iter()
        .map(|(channel, n)| (channel, n.ping.unwrap()))
        .collect();
    out.sort();
    out
}

#[test]
fn a_configuration_is_turned_round() {
    let config = Config {
        streams: vec![
            stream("a", vec![notify("1", "10", "x"), notify("2", "20", "y"), notify("1", "11", "z")]),
            stream("b", vec![notify("1", "10", "w")]),
            stream("c", vec![]),
        ],
    };
    assert!(config_is_valid(&config));
    let routes = derive_by_guild_id(&config);
    assert_eq!(listed(&routes, 1, "a"), [(10, "x".to_string()), (11, "z".to_string())]);
    assert_eq!(listed(&routes, 2, "a"), [(20, "y".to_string())]);
    assert_eq!(listed(&routes, 1, "b"), [(10, "w".to_string())]);
    assert!(listed(&routes, 2, "b").is_empty());
    assert!(listed(&routes, 1, "c").is_empty());
    assert!(listed(&routes, 3, "a").is_empty());
}

#[test]
fn the_later_entry_counts() {
    let config = Config {
        streams: vec![
            stream("a", vec![notify("1", "10", "x"), notify("+1", "010", "y")]),
            stream("a", vec![notify("1", "11", "z")]),
        ],
    };
    let routes = derive_by_guild_id(&config);
    assert_eq!(listed(&routes, 1, "a"), [(10, "y".to_string()), (11, "z".to_string())]);
}

#[test]
fn identifiers_are_numbers_other_than_zero() {
    for bad in ["", "0", "x", "-1", "18446744073709551616", " 1"] {
        let config = Config { streams: vec![stream("a", vec![notify(bad, "10", "x")])] };
        assert!(!config_is_valid(&config), "{bad}");
        let config = Config { streams: vec![stream("a", vec![notify("1", bad, "x")])] };
        assert!(!config_is_valid(&config), "{bad}");
    }
    let good = Config { streams: vec![stream("a", vec![notify("18446744073709551615", "1", "x")])] };
    assert!(config_is_valid(&good));
    assert!(config_is_valid(&Config { streams: vec![] }));
}

#[test]
fn routes_are_replaced() {
    let mut routes = ByGuildId::new();
    routes.insert(1, "a", 10, &notify("1", "10", "x"));
    routes.insert(1, "a", 10, &notify("1", "10", "y"));
    routes.insert(1, "b", 10, &notify("1", "10", "z"));
    assert_eq!(listed(&routes, 1, "a"), [(10, "y".to_string())]);
    assert_eq!(listed(&routes, 1, "b"), [(10, "z".to_string())]);
}

#[test]
fn channels_of_joined_guilds_are_read() {
    let config = Config {
        streams: vec![
            stream("a", vec![notify("1", "10", "x"), notify("2", "20", "y")]),
            stream("b", vec![notify("1", "10", "x"), notify("3", "30", "y"), notify("x", "1", "")]),
        ],
    };
    let mut channels = channels_to_sync(&config, &vec![guild(1), guild(3)]);
    channels.sort();
    assert_eq!(channels, [10, 30]);
    assert!(channels_to_sync(&config, &vec![]).is_empty());
}

#[test]
fn guilds_come_in_pages() {
    let mut guilds = vec![];
    let page = (1..=100).map(guild).collect();
    assert_eq!(add_guilds(&mut guilds, page), GuildPage::After(100));
    let page = (101..=199).map(guild).collect();
    assert_eq!(add_guilds(&mut guilds, page), GuildPage::Complete);
    assert_eq!(guilds.len(), 199);
    assert_eq!(guilds[150].name, "guild 151");
    assert_eq!(add_guilds(&mut guilds, vec![]), GuildPage::Complete);
    assert_eq!(guilds.len(), 199);
}
