use carrot_cake::discord::format::{
    extract, run_format, DEFAULT_OFFLINE_FORMAT, DEFAULT_ONLINE_FORMAT,
};
use carrot_cake::discord::info::StreamInfo;
use carrot_cake::time::ZonedTime;

fn info() -> StreamInfo {
    let now = chrono::Utc::now();
    StreamInfo {
        game_name: "GAME_NAME".to_string(),
        viewer_count: 100,
        started_at: ZonedTime::new(now.timestamp(), now.timestamp_subsec_nanos(), 0),
        user_name: "USER_NAME".to_string(),
        user_login: "USER_LOGIN".to_string(),
        user_icon: Some("USER_ICON".to_string()),
        game_id: "GAME_ID".to_string(),
        stream_id: "STREAM_ID".to_string(),
        stream_title: "STREAM_TITLE".to_string(),
        stream_thumbnail: "STREAM_THUMBNAIL".to_string(),
        video_id: Some("VIDEO_ID".to_string()),
        format_online: Some("FORMAT_ONLINE".to_string()),
        format_offline: Some("FORMAT_OFFLINE".to_string()),
        ping: Some("PING".to_string()),
        offline: false,
    }
}

#[test]
fn test_format() {
    let fmt = DEFAULT_ONLINE_FORMAT;
    let mut msg = info();

    let result = run_format(fmt, &msg);
    assert_eq!("<@PING>, **USER_NAME** is streaming! :tada:", result);
    msg.ping = None;
    let result = run_format(fmt, &msg);
    assert_eq!("**USER_NAME** is streaming! :tada:", result);
}

#[test]
fn offline_format() {
    let mut msg = info();
    assert_eq!(
        run_format(DEFAULT_OFFLINE_FORMAT, &msg),
        "<@PING>, **USER_NAME** streamed :projector:"
    );
    msg.ping = None;
    assert_eq!(run_format(DEFAULT_OFFLINE_FORMAT, &msg), "**USER_NAME** streamed :projector:");
}

#[test]
fn every_field_can_be_named() {
    let mut msg = info();
    msg.started_at = ZonedTime::new(1_700_000_000, 0, 3600);
    let fields = [
        ("game_name", "GAME_NAME"),
        ("viewer_count", "100"),
        ("started_at", "Tue, 14 Nov 2023 23:13:20 +0100"),
        ("user_name", "USER_NAME"),
        ("user_login", "USER_LOGIN"),
        ("user_icon", "USER_ICON"),
        ("game_id", "GAME_ID"),
        ("stream_id", "STREAM_ID"),
        ("stream_title", "STREAM_TITLE"),
        ("stream_thumbnail", "STREAM_THUMBNAIL"),
        ("video_id", "VIDEO_ID"),
        ("ping", "<@PING>"),
        ("offline", "false"),
    ];
    for (name, value) in fields {
        assert_eq!(extract(name, &msg).as_deref(), Some(value));
        assert_eq!(run_format(&format!("<{{{name}}}>"), &msg), format!("<{value}>"));
        assert_eq!(run_format(&format!("{{{name}+ é}}"), &msg), format!("{value} é"));
    }
    assert_eq!(extract("format_online", &msg), None);
    assert_eq!(extract("", &msg), None);
    msg.offline = true;
    assert_eq!(extract("offline", &msg).as_deref(), Some("true"));
}

#[test]
fn absent_fields_vanish_with_their_text() {
    let mut msg = info();
    msg.started_at = None;
    msg.user_icon = None;
    msg.video_id = None;
    msg.ping = None;
    assert_eq!(
        run_format("a{started_at+!}b{user_icon}c{video_id+, }d{ping}e{nothing+ at all}f", &msg),
        "abcdef"
    );
}

#[test]
fn what_is_no_segment_stays() {
    let msg = info();
    for text in ["", "{", "}", "{}", "{Ping}", "{ping", "{ping+}", "{ ping}", "ping}", "{+x}"] {
        assert_eq!(run_format(text, &msg), text);
    }
    assert_eq!(run_format("{{ping}}", &msg), "{<@PING>}");
    assert_eq!(run_format("{ping+{}", &msg), "<@PING>{");
    assert_eq!(run_format("{ping}{ping+ }{user_name}", &msg), "<@PING><@PING> USER_NAME");
}

#[test]
fn what_was_put_in_is_not_expanded() {
    let mut msg = info();
    msg.user_name = "{ping}".to_string();
    assert_eq!(run_format("{user_name}", &msg), "{ping}");
}
