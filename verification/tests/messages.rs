use carrot_cake::config::NotifyConfig;
use carrot_cake::discord::info::StreamInfo;
use carrot_cake::discord::messaging::{Message, ReceivedEmbed, StreamNotifMessage};
use carrot_cake::time::{UtcTime, ZonedTime};
use carrot_cake::twitch::types::Stream;

fn info() -> StreamInfo {
    StreamInfo {
        game_name: "Tom & Jerry: 50% = ½?".to_string(),
        viewer_count: 4321,
        started_at: ZonedTime::new(1_700_000_000, 123_000_000, -5400),
        user_name: "Bün+ny".to_string(),
        user_login: "bunny".to_string(),
        user_icon: Some("https://example.com/icon.png".to_string()),
        game_id: "509658".to_string(),
        stream_id: "40952121085".to_string(),
        stream_title: "carrots #1 🥕".to_string(),
        stream_thumbnail: "https://example.com/t-{width}x{height}.jpg?w={width}".to_string(),
        video_id: Some("335921245".to_string()),
        format_online: Some("{user_name}!".to_string()),
        format_offline: Some("{user_name}...".to_string()),
        ping: Some("&1".to_string()),
        offline: true,
    }
}

fn assert_same(a: &StreamInfo, b: &StreamInfo) {
    assert_eq!(format!("{a:?}"), format!("{b:?}"));
}

fn utc(secs: i64) -> UtcTime {
    UtcTime::new(secs, 0).unwrap()
}

fn message(thumbnail: Option<String>, image: Option<&str>, icon: Option<&str>) -> Message {
    Message {
        id: 7,
        channel_id: 8,
        author_id: 9,
        timestamp: utc(100),
        edited_timestamp: None,
        embeds: vec![ReceivedEmbed {
            thumbnail_url: thumbnail,
            image_url: image.map(str::to_string),
            author_icon_url: icon.map(str::to_string),
        }],
    }
}

fn owned(pairs: &[(&str, &str)]) -> Vec<(String, String)> {
    pairs.iter().map(|(a, b)| (a.to_string(), b.to_string())).collect()
}

#[test]
fn pairs_are_written_in_order() {
    let (pairs, thumbnail, icon) = info().into_pairs_with_context();
    let expected = [
        ("_ccgn", "Tom & Jerry: 50% = ½?"),
        ("_ccvc", "4321"),
        ("_ccun", "Bün+ny"),
        ("_ccul", "bunny"),
        ("_ccg", "509658"),
        ("_ccs", "40952121085"),
        ("_ccst", "carrots #1 🥕"),
        ("_ccf", "{user_name}!"),
        ("_ccfo", "{user_name}..."),
        ("_ccsa", "2023-11-14T20:43:20.123-01:30"),
        ("_ccv", "335921245"),
        ("_ccat", "&1"),
        ("_cco", "1"),
    ];
    assert_eq!(pairs.len(), expected.len());
    for (pair, (key, value)) in pairs.iter().zip(expected) {
        assert_eq!((pair.0, pair.1.as_str()), (key, value));
    }
    assert_eq!(thumbnail, info().stream_thumbnail);
    assert_eq!(icon, info().user_icon);
}

#[test]
fn absent_parts_have_no_pair() {
    let bare = StreamInfo {
        started_at: None,
        video_id: None,
        format_online: None,
        format_offline: None,
        ping: None,
        offline: false,
        ..info()
    };
    let (pairs, _, _) = bare.into_pairs_with_context();
    let keys: Vec<&str> = pairs.iter().map(|p| p.0).collect();
    assert_eq!(keys, ["_ccgn", "_ccvc", "_ccun", "_ccul", "_ccg", "_ccs", "_ccst"]);
}

#[test]
fn pairs_read_back_in_any_order() {
    let (pairs, thumbnail, icon) = info().into_pairs_with_context();
    let mut pairs: Vec<(String, String)> =
        pairs.into_iter().map(|(a, b)| (a.to_string(), b)).collect();
    for _ in 0..pairs.len() {
        pairs.rotate_left(1);
        let back =
            StreamInfo::from_pairs_with_context(pairs.clone(), thumbnail.clone(), icon.clone());
        assert_same(&back.unwrap(), &info());
    }
}

#[test]
fn long_keys_are_read_too() {
    let pairs = owned(&[
        ("game_name", "g"),
        ("viewer_count", "+12"),
        ("user_name", "n"),
        ("user_login", "l"),
        ("game_id", "gi"),
        ("stream_id", "si"),
        ("stream_title", "st"),
        ("started_at", "2023-11-14T22:13:20Z"),
        ("video_id", "v"),
        ("ping", "p"),
        ("offline", ""),
        ("something", "else"),
    ]);
    let back = StreamInfo::from_pairs_with_context(pairs, "t".to_string(), None).unwrap();
    assert_eq!(back.viewer_count, 12);
    assert_eq!(back.started_at.unwrap().secs(), 1_700_000_000);
    assert_eq!(back.stream_thumbnail, "t");
    assert_eq!(back.ping.as_deref(), Some("p"));
    assert!(back.offline);
    assert_eq!(back.format_online, None);
}

#[test]
fn the_last_pair_counts() {
    let mut pairs = owned(&[
        ("_ccgn", "g"),
        ("_ccvc", "1"),
        ("_ccun", "n"),
        ("_ccul", "l"),
        ("_ccg", "gi"),
        ("_ccs", "si"),
        ("_ccst", "st"),
        ("_ccsa", "2023-11-14T22:13:20Z"),
    ]);
    pairs.extend(owned(&[("stream_id", "other"), ("started_at", "yesterday")]));
    let back =
        StreamInfo::from_pairs_with_context(pairs.clone(), String::new(), None).unwrap();
    assert_eq!(back.stream_id, "other");
    assert!(back.started_at.is_none());
    pairs.extend(owned(&[("viewer_count", "-1")]));
    assert!(StreamInfo::from_pairs_with_context(pairs, String::new(), None).is_none());
}

#[test]
fn required_pairs_are_required() {
    let (pairs, _, _) = info().into_pairs_with_context();
    for missing in 0..7 {
        let mut rest: Vec<(String, String)> =
            pairs.iter().map(|(a, b)| (a.to_string(), b.clone())).collect();
        rest.remove(missing);
        assert!(StreamInfo::from_pairs_with_context(rest, String::new(), None).is_none());
    }
}

#[test]
fn an_embed_says_everything() {
    let now = utc(1_700_000_000 + 3 * 3600 + 62);
    let embed = info().stream_embed(now);
    assert_eq!(embed.color, (240, 161, 163));
    assert_eq!(embed.title, "carrots #1 🥕");
    let fields: Vec<(&str, &str, bool)> =
        embed.fields.iter().map(|f| (f.name.as_str(), f.value.as_str(), f.inline)).collect();
    assert_eq!(
        fields,
        [
            ("**Game name**", "Tom & Jerry: 50% = ½?", true),
            ("**Viewers**", "4321", true),
            ("**Duration**", "3h 1m 1s", true),
        ]
    );
    assert_eq!(embed.author_name, "Bün+ny");
    assert_eq!(embed.author_icon.as_deref(), Some("https://example.com/icon.png"));
    assert_eq!(embed.image, "https://example.com/t-1080x720.jpg?w=1080");
    assert_eq!(embed.url, "https://twitch.tv/bunny");
    assert_eq!(embed.footer.as_deref(), Some("Last online"));
    assert_eq!(embed.timestamp.unwrap().secs(), now.secs());
}

#[test]
fn a_running_stream_shows_no_duration() {
    let running = StreamInfo { offline: false, game_name: String::new(), ..info() };
    let embed = running.stream_embed(utc(1_700_000_100));
    assert_eq!(embed.fields.len(), 1);
    assert_eq!(embed.fields[0].name, "**Viewers**");
    assert!(embed.footer.is_none());
    assert!(embed.timestamp.is_none());
}

#[test]
fn a_start_that_lies_ahead_shows_no_duration() {
    let embed = info().stream_embed(utc(1_700_000_000));
    assert_eq!(embed.fields.len(), 2);
    let embed = info().stream_embed(UtcTime::new(1_700_000_000, 123_000_000).unwrap());
    assert_eq!(embed.fields[2].value, "0s");
    let unknown = StreamInfo { started_at: None, ..info() };
    assert_eq!(unknown.stream_embed(utc(1_700_000_100)).fields.len(), 2);
}

#[test]
fn a_blank_title_is_named() {
    for title in ["", "  ", "\u{3000}\t"] {
        let blank = StreamInfo { stream_title: title.to_string(), ..info() };
        assert_eq!(blank.stream_embed(utc(0)).title, "<untitled>");
    }
}

#[test]
fn thumbnails_are_encoded() {
    let embed = info().stream_embed(utc(0));
    let (base, query) = embed.thumbnail.split_once('?').unwrap();
    assert_eq!(base, "https://static-cdn.jtvnw.net/ttv-boxart/509658.jpg");
    let mut pairs: Vec<&str> = query.split('&').collect();
    pairs.sort();
    assert_eq!(pairs.len(), 13);
    assert!(pairs.contains(&"_ccun=B%C3%BCn%2Bny"));
    assert!(pairs.contains(&"_ccgn=Tom%20%26%20Jerry%3A%2050%25%20%3D%20%C2%BD%3F"));
    assert!(pairs.contains(&"_cco=1"));
}

#[test]
fn messages_read_back() {
    let embed = info().stream_embed(utc(1_700_000_000));
    let msg = message(Some(embed.thumbnail), Some(&embed.image), embed.author_icon.as_deref());
    let notif = StreamNotifMessage::try_from(&msg).unwrap();
    assert_eq!((notif.message_id, notif.channel_id), (7, 8));
    assert_eq!(notif.touched_timestamp().secs(), 100);
    assert_same(
        &notif.info,
        &StreamInfo {
            stream_thumbnail: "https://example.com/t-1080x720.jpg?w=1080".to_string(),
            ..info()
        },
    );
}

#[test]
fn long_information_reads_back() {
    let long = StreamInfo {
        stream_title: "\u{1f955} & cake? ".repeat(50_000),
        game_id: "1234567890".repeat(1_000),
        ..info()
    };
    let embed = long.stream_embed(utc(0));
    let msg = message(Some(embed.thumbnail), Some(&embed.image), embed.author_icon.as_deref());
    let notif = StreamNotifMessage::try_from(&msg).unwrap();
    assert_eq!(notif.info.stream_title, long.stream_title);
    assert_eq!(notif.info.game_id, long.game_id);
    assert_eq!(notif.info.stream_id, long.stream_id);
}

#[test]
fn a_mark_in_the_game_cuts_the_address() {
    let odd = StreamInfo { game_id: "5#1".to_string(), ..info() };
    let embed = odd.stream_embed(utc(0));
    let msg = message(Some(embed.thumbnail), Some(&embed.image), None);
    assert!(StreamNotifMessage::try_from(&msg).is_err());
}

#[test]
fn the_first_embed_with_information_counts() {
    let thumbnail = info().stream_embed(utc(0)).thumbnail;
    let mut msg = message(None, Some("image"), None);
    msg.edited_timestamp = Some(utc(200));
    msg.embeds.extend(message(Some("https://example.com/".to_string()), Some("i"), None).embeds);
    msg.embeds.extend(message(Some("no address".to_string()), Some("i"), None).embeds);
    msg.embeds.extend(message(Some(thumbnail.clone()), None, None).embeds);
    let missing = StreamNotifMessage::try_from(&msg);
    let missing = missing.err().unwrap();
    assert_eq!(missing.message_id, 7);
    assert_eq!(missing.text(), "No stream info found in message 7");
    msg.embeds.extend(message(Some(thumbnail.clone()), Some("first"), Some("icon")).embeds);
    msg.embeds.extend(message(Some(thumbnail), Some("second"), None).embeds);
    let notif = StreamNotifMessage::try_from(&msg).unwrap();
    assert_eq!(notif.info.stream_thumbnail, "first");
    assert_eq!(notif.info.user_icon.as_deref(), Some("icon"));
    assert_eq!(notif.touched_timestamp().secs(), 200);
}

#[test]
fn buttons_lead_to_the_stream_and_the_recording() {
    let rows = info().streaming_components();
    assert_eq!(rows.len(), 1);
    let buttons: Vec<(&str, &str)> =
        rows[0].buttons.iter().map(|b| (b.url.as_str(), b.label.as_str())).collect();
    assert_eq!(
        buttons,
        [
            ("https://twitch.tv/bunny", "Watch the stream!"),
            ("https://twitch.tv/videos/335921245", "Watch the VOD!"),
        ]
    );
    let vod = info().vod_components().unwrap();
    assert_eq!(vod[0].buttons[0].url, "https://twitch.tv/videos/335921245");
    let unrecorded = StreamInfo { video_id: None, ..info() };
    assert_eq!(unrecorded.streaming_components()[0].buttons.len(), 1);
    assert!(unrecorded.vod_components().is_none());
    assert!(unrecorded.vod_button().is_none());
    assert_eq!(unrecorded.stream_button().label, "Watch the stream!");
}

#[test]
fn headlines_follow_their_formats() {
    assert_eq!(info().headline_streaming(), "Bün+ny!");
    assert_eq!(info().headline_vod(), "Bün+ny...");
    let plain = StreamInfo { format_online: None, format_offline: None, ..info() };
    assert_eq!(plain.headline_streaming(), "<@&1>, **Bün+ny** is streaming! :tada:");
    assert_eq!(plain.headline_vod(), "<@&1>, **Bün+ny** streamed :projector:");
}

#[test]
fn a_stream_makes_information() {
    let stream = Stream {
        game_id: "gi".to_string(),
        game_name: "gn".to_string(),
        id: "si".to_string(),
        language: "en".to_string(),
        is_mature: false,
        started_at: "2023-11-14T22:13:20Z".to_string(),
        tag_ids: vec![],
        tags: vec![],
        thumbnail_url: "th".to_string(),
        title: "ti".to_string(),
        type_: "live".to_string(),
        user_id: "ui".to_string(),
        user_name: "un".to_string(),
        user_login: "ul".to_string(),
        viewer_count: 3,
    };
    let cfg = NotifyConfig {
        guild_id: "1".to_string(),
        channel_id: "2".to_string(),
        ping: Some("p".to_string()),
        format_online: Some("on".to_string()),
        format_offline: None,
    };
    let made = StreamInfo::from_stream(&stream, Some("icon"), Some("video"), true, &cfg);
    assert_eq!(made.game_name, "gn");
    assert_eq!(made.viewer_count, 3);
    assert_eq!(made.started_at.unwrap().to_rfc3339(), "2023-11-14T22:13:20+00:00");
    assert_eq!((made.user_name.as_str(), made.user_login.as_str()), ("un", "ul"));
    assert_eq!(made.user_icon.as_deref(), Some("icon"));
    assert_eq!((made.game_id.as_str(), made.stream_id.as_str()), ("gi", "si"));
    assert_eq!((made.stream_title.as_str(), made.stream_thumbnail.as_str()), ("ti", "th"));
    assert_eq!(made.video_id.as_deref(), Some("video"));
    assert_eq!(made.format_online.as_deref(), Some("on"));
    assert_eq!(made.format_offline, None);
    assert_eq!(made.ping.as_deref(), Some("p"));
    assert!(made.offline);
    let odd = Stream { started_at: "soon".to_string(), ..stream };
    assert!(StreamInfo::from_stream(&odd, None, None, false, &cfg).started_at.is_none());
}
