use carrot_cake::time::{UtcTime, ZonedTime};
use carrot_cake::twitch::client::{InnerOnlineClient, PreviouslySeen, TokenStep};
use carrot_cake::twitch::event::{
    is_long_ago, is_old, parse_event, twitch_msg_type, EventData, EventKind,
};
use carrot_cake::twitch::look::{LookAction, LookEvent, SyncRun};
use carrot_cake::twitch::runner::{
    ReplacementEvent, RunnerAction, RunnerEvent, WebsocketRunner,
};
use carrot_cake::twitch::setup::{leftover_conduits, streamer_map, StreamerError};
use carrot_cake::twitch::types::{Broadcasters, Channel, Live, Notification, Stream, Video};
use carrot_cake::twitch::util::twitch_ws_url;
use carrot_cake::twitch::websocket::{
    msg_type, read_msg, run_websocket_inner, subscriptions_outcome, Message, Reaction, SocketInput,
    SocketStep, WebsocketConnection, WsError,
};

const MINUTE: u64 = 60_000_000_000;

fn stream(user_id: &str, title: &str) -> Stream {
    Stream {
        game_id: String::new(),
        game_name: String::new(),
        id: format!("stream of {user_id}"),
        language: String::new(),
        is_mature: false,
        started_at: String::new(),
        tag_ids: vec![],
        tags: vec!["tag".to_string()],
        thumbnail_url: String::new(),
        title: title.to_string(),
        type_: String::new(),
        user_id: user_id.to_string(),
        user_name: String::new(),
        user_login: String::new(),
        viewer_count: 0,
    }
}

fn video(id: &str) -> Video {
    Video {
        created_at: String::new(),
        description: String::new(),
        duration: String::new(),
        id: id.to_string(),
        language: String::new(),
        muted_segments: vec![],
        published_at: String::new(),
        stream_id: None,
        thumbnail_url: String::new(),
        title: String::new(),
        type_: String::new(),
        url: String::new(),
        user_id: String::new(),
        user_name: String::new(),
        user_login: String::new(),
        view_count: 0,
        viewable: String::new(),
    }
}

fn channel(id: &str) -> Channel {
    Channel {
        id: id.to_string(),
        broadcaster_login: format!("login of {id}"),
        thumbnail_url: String::new(),
    }
}

fn client() -> InnerOnlineClient {
    let mut channels = Broadcasters::new();
    channels.insert(channel("u1"));
    channels.insert(channel("u2"));
    InnerOnlineClient::new(channels)
}

fn sorted(sync: &SyncRun) -> Vec<String> {
    let mut keys = sync.keys().clone();
    keys.sort();
    keys
}

/// Lists a stream and its recordings, and gives back what there is to tell.
fn observe(
    client: &mut InnerOnlineClient,
    sync: &mut SyncRun,
    stream: Stream,
    video: Option<Video>,
) -> Option<Notification> {
    let user_id = stream.user_id.clone();
    match sync.step(client, LookEvent::Listed(stream)) {
        LookAction::FindVideo(user) => assert_eq!(user, user_id),
        other => panic!("{other:?}"),
    }
    match sync.step(client, LookEvent::Videos(video.into_iter().collect())) {
        LookAction::Tell(news) => {
            assert!(matches!(sync.step(client, LookEvent::Told), LookAction::NextStream));
            Some(news)
        }
        LookAction::NextStream => None,
        other => panic!("{other:?}"),
    }
}

/// Ends the listing, and gives back what there is to tell.
fn ends(client: &mut InnerOnlineClient, sync: &mut SyncRun) -> Vec<Notification> {
    let mut all = vec![];
    let mut action = sync.step(client, LookEvent::ListingEnded);
    loop {
        match action {
            LookAction::Tell(news) => all.push(news),
            LookAction::Done => return all,
            other => panic!("{other:?}"),
        }
        action = sync.step(client, LookEvent::Told);
    }
}

fn utc(secs: i64) -> UtcTime {
    UtcTime::new(secs, 0).unwrap()
}

fn event(id: &str, kind: EventKind) -> EventData {
    EventData {
        message_id: id.to_string(),
        message_timestamp: "2023-11-14T22:13:20Z".to_string(),
        kind,
    }
}

fn now() -> UtcTime {
    utc(1_700_000_000)
}

fn connection(is_reconnect: bool) -> WebsocketConnection {
    WebsocketConnection::new("wss://example.com".to_string(), is_reconnect, 1, 0)
}

#[test]
fn an_event_counts_once_in_ten_minutes() {
    let mut client = client();
    assert_eq!(client.dedupe("a".to_string(), MINUTE), Ok(()));
    assert_eq!(client.dedupe("a".to_string(), 11 * MINUTE - 1), Err(PreviouslySeen));
    assert_eq!(client.dedupe("b".to_string(), 11 * MINUTE - 1), Ok(()));
    assert_eq!(client.dedupe("a".to_string(), 0), Err(PreviouslySeen));
    assert_eq!(client.dedupe("a".to_string(), 11 * MINUTE), Ok(()));
    assert_eq!(client.dedupe("a".to_string(), 11 * MINUTE), Err(PreviouslySeen));
}

#[test]
fn forgetting_events_does_not_show() {
    let mut client = client();
    client.dedupe("old".to_string(), 0).unwrap();
    client.dedupe("edge".to_string(), 1).unwrap();
    client.dedupe("new".to_string(), 5 * MINUTE).unwrap();
    client.prune(10 * MINUTE + 1);
    assert_eq!(client.dedupe("new".to_string(), 10 * MINUTE + 1), Err(PreviouslySeen));
    assert_eq!(client.dedupe("edge".to_string(), 10 * MINUTE), Err(PreviouslySeen));
    assert_eq!(client.dedupe("old".to_string(), 10 * MINUTE + 1), Ok(()));
    client.prune(30 * MINUTE);
    assert_eq!(client.dedupe("new".to_string(), 5 * MINUTE), Ok(()));
}

#[test]
fn a_token_is_refreshed_in_time() {
    assert_eq!(client().maybe_refresh_token(600), TokenStep::Keep);
    assert_eq!(client().maybe_refresh_token(599), TokenStep::Refresh);
    assert_eq!(client().maybe_refresh_token(0), TokenStep::Refresh);
}

#[test]
fn streams_begin_change_and_end() {
    let mut client = client();
    let mut sync = client.full_sync();
    assert_eq!(sorted(&sync), ["u1", "u2"]);
    let news = observe(&mut client, &mut sync, stream("u1", "a"), None);
    assert!(matches!(news, Some(Notification::Online(s, None)) if s.user_id == "u1"));
    assert!(ends(&mut client, &mut sync).is_empty());

    let mut sync = client.sync_live();
    assert_eq!(sorted(&sync), ["u1"]);
    let news = observe(&mut client, &mut sync, stream("u1", "a"), None);
    assert!(news.is_none());
    let news = observe(&mut client, &mut sync, stream("u1", "b"), None);
    assert!(matches!(news, Some(Notification::Update(s, None)) if s.title == "b"));
    let news = observe(&mut client, &mut sync, stream("u1", "b"), Some(video("v")));
    assert!(matches!(&news, Some(n) if n.video().unwrap().id == "v" && n.stream().title == "b"));
    assert!(ends(&mut client, &mut sync).is_empty());
    let live = client.live_streams();
    assert_eq!(live.len(), 1);
    assert_eq!(live[0].stream.title, "b");

    let mut sync = client.notify("u1".to_string());
    assert_eq!(sync.keys().as_slice(), ["u1"]);
    let news = ends(&mut client, &mut sync);
    assert_eq!(news.len(), 1);
    assert!(
        matches!(&news[0], Notification::Offline(s, Some(v)) if s.title == "b" && v.id == "v")
    );
    assert!(client.live_streams().is_empty());
}

#[test]
fn a_look_leaves_others_alone() {
    let mut client = client();
    let mut sync = client.full_sync();
    observe(&mut client, &mut sync, stream("u1", "a"), None);
    observe(&mut client, &mut sync, stream("u2", "a"), None);
    let mut sync = client.do_sync(vec!["u2".to_string(), "u2".to_string(), "u3".to_string()]);
    let news = ends(&mut client, &mut sync);
    assert_eq!(news.len(), 1);
    assert!(matches!(&news[0], Notification::Offline(s, _) if s.user_id == "u2"));
    assert_eq!(sorted(&client.sync_live()), ["u1"]);
}

#[test]
fn a_second_look_finds_nothing_new() {
    let mut client = client();
    for round in 0..2 {
        let mut sync = client.full_sync();
        let news = observe(&mut client, &mut sync, stream("u2", "a"), Some(video("v")));
        assert_eq!(news.is_some(), round == 0);
        assert!(ends(&mut client, &mut sync).is_empty());
    }
}

#[test]
fn a_stream_that_is_listed_twice_is_told_once() {
    let mut client = client();
    for round in 0..2 {
        let mut sync = client.full_sync();
        let news = observe(&mut client, &mut sync, stream("u1", "a"), None);
        assert_eq!(news.is_some(), round == 0);
        assert!(observe(&mut client, &mut sync, stream("u1", "a"), None).is_none());
        assert!(ends(&mut client, &mut sync).is_empty());
    }
}

#[test]
fn a_listing_that_breaks_off_ends_no_stream() {
    let mut client = client();
    let mut sync = client.full_sync();
    observe(&mut client, &mut sync, stream("u1", "a"), None);
    observe(&mut client, &mut sync, stream("u2", "a"), None);
    let mut broken = client.full_sync();
    let news = observe(&mut client, &mut broken, stream("u2", "b"), None);
    assert!(matches!(news, Some(Notification::Update(s, None)) if s.title == "b"));
    let action = broken.step(&mut client, LookEvent::ListingFailed("no".to_string()));
    assert!(matches!(action, LookAction::Failed(e) if e == "no"));
    assert_eq!(sorted(&client.sync_live()), ["u1", "u2"]);
    let live = client.live_streams();
    assert!(live.iter().any(|l| l.stream.user_id == "u1" && l.stream.title == "a"));
}

#[test]
fn a_recording_that_cannot_be_had_is_none() {
    let mut client = client();
    let mut sync = client.full_sync();
    sync.step(&mut client, LookEvent::Listed(stream("u1", "a")));
    let action = sync.step(&mut client, LookEvent::VideosFailed);
    assert!(matches!(action, LookAction::Tell(Notification::Online(_, None))));
    sync.step(&mut client, LookEvent::Told);
    sync.step(&mut client, LookEvent::Listed(stream("u2", "a")));
    let videos = LookEvent::Videos(vec![video("new"), video("old")]);
    match sync.step(&mut client, videos) {
        LookAction::Tell(Notification::Online(_, Some(v))) => assert_eq!(v.id, "new"),
        other => panic!("{other:?}"),
    }
}

#[test]
fn a_look_that_nobody_hears_ends() {
    let mut client = client();
    let mut sync = client.full_sync();
    observe(&mut client, &mut sync, stream("u1", "a"), None);
    observe(&mut client, &mut sync, stream("u2", "a"), None);
    let mut sync = client.full_sync();
    let action = sync.step(&mut client, LookEvent::ListingEnded);
    assert!(matches!(action, LookAction::Tell(Notification::Offline(..))));
    let action = sync.step(&mut client, LookEvent::TellingFailed("nobody".to_string()));
    assert!(matches!(action, LookAction::Failed(e) if e == "nobody"));
    assert_eq!(client.live_streams().len(), 1);
}

#[test]
fn everything_about_a_stream_is_compared() {
    let a = Live { stream: stream("u", "a"), video: Some(video("v")) };
    assert!(a.equals(&a.clone()));
    let b = Live { stream: Stream { tags: vec![], ..stream("u", "a") }, video: Some(video("v")) };
    assert!(!a.equals(&b));
    let c = Live { stream: stream("u", "a"), video: Some(Video { view_count: 1, ..video("v") }) };
    assert!(!a.equals(&c));
    assert!(!a.equals(&Live { stream: stream("u", "a"), video: None }));
}

#[test]
fn streamers_are_mapped_by_channel() {
    let newer = Channel { thumbnail_url: "new".to_string(), ..channel("u1") };
    let map = streamer_map(&vec![Ok(Some(channel("u1"))), Ok(Some(channel("u2"))), Ok(Some(newer))]);
    let map = map.unwrap();
    assert_eq!(map.ids().len(), 2);
    assert_eq!(map.get("u1").unwrap().thumbnail_url, "new");
    assert!(map.get("u3").is_none());
}

#[test]
fn a_missing_streamer_is_an_error() {
    let missing = streamer_map(&vec![Ok(Some(channel("u1"))), Ok(None), Err("x".to_string())]);
    let e = missing.err().unwrap();
    assert_eq!(e.text(), "failed to get twitch streamer");
    assert!(matches!(e, StreamerError::NotFound));
    let failed = streamer_map(&vec![Err("x".to_string()), Ok(None)]).err().unwrap();
    assert_eq!(failed.text(), "x");
}

#[test]
fn conduits_are_left_behind_once() {
    let list = |ids: &[&str]| ids.iter().map(|s| s.to_string()).collect::<Vec<String>>();
    assert_eq!(leftover_conduits(None, &list(&["a", "b", "a"])), ["a", "b"]);
    assert_eq!(leftover_conduits(Some("b".to_string()), &list(&["a", "b"])), ["b", "a"]);
    assert_eq!(leftover_conduits(Some("c".to_string()), &vec![]), ["c"]);
    assert!(leftover_conduits(None, &vec![]).is_empty());
}

#[test]
fn channels_are_copied() {
    let client = client();
    let copy = client.broadcaster_ids().copy();
    assert_eq!(copy.ids().len(), 2);
    assert_eq!(copy.get("u2").unwrap().broadcaster_login, "login of u2");
}

#[test]
fn twitch_is_where_it_is_said_to_be() {
    assert_eq!(twitch_ws_url(None), "wss://eventsub.wss.twitch.tv/ws");
    assert_eq!(twitch_ws_url(Some("ws://localhost".to_string())), "ws://localhost");
}

fn frame(message_type: &str, more: &str, payload: &str) -> String {
    format!(
        r#"{{"metadata":{{"message_id":"m1","message_type":"{message_type}","message_timestamp":"2023-11-14T22:13:20Z"{more}}},"payload":{payload}}}"#
    )
}

fn session(keepalive: &str, url: &str) -> String {
    format!(
        r#"{{"session":{{"id":"s1","status":"connected","keepalive_timeout_seconds":{keepalive},"reconnect_url":{url},"connected_at":"2023-11-14T22:13:20Z"}}}}"#
    )
}

fn subscription(kind: &str, event: &str) -> (String, String) {
    (
        format!(r#","subscription_type":"{kind}","subscription_version":"1""#),
        format!(
            r#"{{"subscription":{{"id":"x","status":"enabled","type":"{kind}","version":"1","cost":1,"condition":{{"broadcaster_user_id":"1337"}},"transport":{{"method":"websocket","session_id":"s1"}},"created_at":"2019-11-16T10:11:12.123Z"}}{event}}}"#
        ),
    )
}

fn notification(kind: &str, event: &str) -> String {
    let (more, payload) = subscription(kind, &format!(r#","event":{event}"#));
    frame("notification", &more, &payload)
}

const ONLINE: &str = r#"{"id":"9001","broadcaster_user_id":"1337","broadcaster_user_login":"cool_user","broadcaster_user_name":"Cool_User","type":"live","started_at":"2020-10-11T10:11:12.123Z"}"#;
const OFFLINE: &str = r#"{"broadcaster_user_id":"1338","broadcaster_user_login":"cool_user","broadcaster_user_name":"Cool_User"}"#;

#[test]
fn events_are_read() {
    let welcome = parse_event(&frame("session_welcome", "", &session("10", "null"))).unwrap();
    assert_eq!(welcome.message_id, "m1");
    assert_eq!(welcome.message_timestamp, "2023-11-14T22:13:20Z");
    assert!(matches!(&welcome.kind, EventKind::Welcome(id, Some(10)) if id == "s1"));
    assert_eq!(twitch_msg_type(&welcome), "EventsubWebsocketData::Welcome");

    let keepalive = parse_event(&frame("session_keepalive", "", "{}")).unwrap();
    assert!(matches!(keepalive.kind, EventKind::Keepalive));
    assert_eq!(twitch_msg_type(&keepalive), "EventsubWebsocketData::Keepalive");

    let online = parse_event(&notification("stream.online", ONLINE)).unwrap();
    assert!(matches!(&online.kind, EventKind::Online(user) if user == "1337"));
    assert_eq!(twitch_msg_type(&online), "EventsubWebsocketData::Notification");

    let offline = parse_event(&notification("stream.offline", OFFLINE)).unwrap();
    assert!(matches!(&offline.kind, EventKind::Offline(user) if user == "1338"));

    let url = r#""wss://example.com/?id=1""#;
    let reconnect = parse_event(&frame("session_reconnect", "", &session("null", url))).unwrap();
    assert!(
        matches!(&reconnect.kind, EventKind::Reconnect(Some(u)) if u == "wss://example.com/?id=1")
    );
    assert_eq!(twitch_msg_type(&reconnect), "EventsubWebsocketData::Reconnect");

    let (more, payload) = subscription("stream.online", "");
    let revocation = parse_event(&frame("revocation", &more, &payload)).unwrap();
    assert!(matches!(revocation.kind, EventKind::Revocation));
    assert_eq!(twitch_msg_type(&revocation), "EventsubWebsocketData::Revocation");

    for bad in ["", "{}", "hello", r#"{"metadata":{},"payload":{}}"#] {
        assert!(parse_event(bad).is_none());
    }
    assert_eq!(twitch_msg_type(&event("x", EventKind::Unknown(String::new()))), "unknown");
}

#[test]
fn other_notifications_are_told_apart() {
    let raid = r#"{"from_broadcaster_user_id":"1","from_broadcaster_user_login":"a","from_broadcaster_user_name":"A","to_broadcaster_user_id":"2","to_broadcaster_user_login":"b","to_broadcaster_user_name":"B","viewers":3}"#;
    let text = notification("channel.raid", raid)
        .replace(r#"{"broadcaster_user_id":"1337"}"#, r#"{"to_broadcaster_user_id":"2"}"#);
    let other = parse_event(&text).unwrap();
    match &other.kind {
        EventKind::OtherNotification(said) => assert!(said.starts_with("ChannelRaidV1(Payload {")),
        kind => panic!("{kind:?}"),
    }
    assert_eq!(twitch_msg_type(&other), "EventsubWebsocketData::Notification");
    let r = connection(false).handle_websocket_msg(&mut client(), Message::Text(text), now(), 1);
    assert!(r.err().unwrap().text().starts_with("Unknown event ChannelRaidV1(Payload {"));
}

#[test]
fn a_message_is_read_before_it_is_dealt_with() {
    let read = read_msg(Message::Text(notification("stream.online", ONLINE)));
    match read {
        Ok(Some(e)) => assert!(matches!(&e.kind, EventKind::Online(user) if user == "1337")),
        other => panic!("{other:?}"),
    }
    assert!(matches!(read_msg(Message::Ping), Ok(None)));
    assert!(matches!(read_msg(Message::Pong), Ok(None)));
    assert!(matches!(read_msg(Message::Binary), Err(WsError::Binary)));
    assert!(matches!(read_msg(Message::Text("{}".to_string())), Err(WsError::Unreadable)));
    let closed = read_msg(Message::Close(Some("bye".to_string())));
    assert!(matches!(closed, Err(WsError::Closed(why)) if why == "bye"));
}

#[test]
fn old_events_are_refused() {
    let e = event("x", EventKind::Keepalive);
    assert!(!is_old(&e, utc(1_700_000_600)));
    assert!(is_old(&e, UtcTime::new(1_700_000_600, 1).unwrap()));
    assert!(!is_old(&e, utc(0)));
    let unknown = event("x", EventKind::Unknown("?".to_string()));
    assert!(!is_old(&unknown, utc(1_800_000_000)));
    let undated = EventData { message_timestamp: "?".to_string(), ..event("x", EventKind::Revocation) };
    assert!(!is_old(&undated, utc(1_800_000_000)));
    assert!(is_long_ago(ZonedTime::new(0, 0, 0), utc(601)));
    assert!(!is_long_ago(None, utc(601)));
    let mut conn = connection(false);
    let mut client = client();
    let r = conn.handle_event_data(&mut client, e, utc(1_700_000_601), 5);
    assert!(matches!(&r, Err(WsError::TooOld)));
    assert_eq!(r.err().unwrap().text(), "Incoming message was too old to process.");
    assert_eq!(conn.last_keepalive, 0);
}

#[test]
fn a_welcome_subscribes() {
    let mut conn = connection(false);
    let mut client = client();
    let text = frame("session_welcome", "", &session("10", "null"));
    let r = conn.handle_websocket_msg(&mut client, Message::Text(text.clone()), now(), 7);
    assert!(matches!(r, Ok(Reaction::Subscribe(id)) if id == "s1"));
    assert_eq!(client.curr_client_id(), Some("s1"));
    assert_eq!(conn.keepalive, 10);
    let r = conn.handle_websocket_msg(&mut client, Message::Text(text), now(), 8);
    assert_eq!(r.err().unwrap().text(), "ID previously seen");
}

#[test]
fn a_second_welcome_does_not_subscribe() {
    let mut conn = connection(true);
    let mut client = client();
    client.set_client_id("s0".to_string());
    let welcome = event("x", EventKind::Welcome("s1".to_string(), None));
    let r = conn.handle_event_data(&mut client, welcome, now(), 7);
    assert!(matches!(r, Ok(Reaction::Welcomed)));
    assert_eq!(client.curr_client_id(), Some("s0"));
    assert_eq!(conn.keepalive, 0);
}

#[test]
fn a_sign_of_life_counts_even_twice() {
    let mut conn = connection(false);
    let mut client = client();
    let r = conn.handle_event_data(&mut client, event("x", EventKind::Keepalive), now(), 7);
    assert!(matches!(r, Ok(Reaction::CheckToken)));
    let r = conn.handle_event_data(&mut client, event("x", EventKind::Keepalive), now(), 9);
    assert!(matches!(r, Err(WsError::PreviouslySeen)));
    assert_eq!(conn.last_keepalive, 9);
}

#[test]
fn events_have_consequences() {
    let mut conn = connection(false);
    let mut client = client();
    let r = conn.handle_event_data(&mut client, event("1", EventKind::Online("u1".to_string())), now(), 1);
    assert!(matches!(&r, Ok(Reaction::Look(sync)) if sync.keys().as_slice() == ["u1"]));
    assert!(r.unwrap().stays_connected());
    let r = conn.handle_event_data(&mut client, event("2", EventKind::Offline("u2".to_string())), now(), 1);
    assert!(matches!(&r, Ok(Reaction::Look(sync)) if sync.keys().as_slice() == ["u2"]));
    let r = conn.handle_event_data(&mut client, event("3", EventKind::Revocation), now(), 1);
    assert!(matches!(&r, Ok(Reaction::Disconnect)));
    assert!(!r.unwrap().stays_connected());
    let there = EventKind::Reconnect(Some("wss://there".to_string()));
    let r = conn.handle_event_data(&mut client, event("4", there), now(), 1);
    assert!(matches!(r, Ok(Reaction::Reconnect(url)) if url == "wss://there"));
    let r = conn.handle_event_data(&mut client, event("5", EventKind::Reconnect(None)), now(), 1);
    assert_eq!(r.err().unwrap().text(), "Reconnect data did not have reconnect address?");
    let other = EventKind::OtherNotification("Raid(3)".to_string());
    let r = conn.handle_event_data(&mut client, event("6", other), now(), 1);
    assert_eq!(r.err().unwrap().text(), "Unknown event Raid(3)");
    let unknown = EventKind::Unknown("Riddle { n: 1 }".to_string());
    let r = conn.handle_event_data(&mut client, event("7", unknown), now(), 1);
    assert_eq!(r.err().unwrap().text(), "Got unknown event type Riddle { n: 1 }??");
    assert_eq!(client.dedupe("7".to_string(), 1), Ok(()));
    assert_eq!(client.dedupe("6".to_string(), 1), Err(PreviouslySeen));
}

#[test]
fn messages_that_are_no_events() {
    let mut conn = connection(false);
    let mut client = client();
    let cases = [
        (Message::Text("?".to_string()), Some("parsing failure"), "Message::Text"),
        (Message::Binary, Some("Got binary message, but we don't support that"), "Message::Binary"),
        (Message::Ping, None, "Message::Ping"),
        (Message::Pong, None, "Message::Pong"),
        (Message::Close(None), Some("Websocket closed? <no reason provided>"), "Message::Close"),
        (Message::Close(Some("bye".to_string())), Some("Websocket closed? bye"), "Message::Close"),
    ];
    for (msg, error, name) in cases {
        assert_eq!(msg_type(&msg), name);
        let r = conn.handle_websocket_msg(&mut client, msg, now(), 1);
        match error {
            Some(text) => assert_eq!(r.err().unwrap().text(), text),
            None => assert!(matches!(r, Ok(Reaction::Nothing))),
        }
    }
    assert_eq!(msg_type(&Message::Frame), "Message::Frame");
}

#[test]
fn silence_is_suspicious() {
    let mut conn = connection(false);
    assert!(!conn.is_likely_dead(u64::MAX));
    conn.keepalive = 10;
    conn.last_keepalive = 5;
    assert!(!conn.is_likely_dead(20_000_000_005));
    assert!(conn.is_likely_dead(20_000_000_006));
    assert!(!conn.is_likely_dead(0));
    conn.keepalive = -1;
    assert!(!conn.is_likely_dead(u64::MAX));
    conn.keepalive = i64::MAX;
    assert!(!conn.is_likely_dead(u64::MAX));
}

#[test]
fn failed_subscriptions_are_listed() {
    let none: (Option<String>, Option<String>) = (None, None);
    assert!(subscriptions_outcome(&vec![]).is_ok());
    assert!(subscriptions_outcome(&vec![none.clone(), none.clone()]).is_ok());
    let some = |s: &str| Some(s.to_string());
    let results = vec![none, (some("a"), some("b")), (None, some("c"))];
    let e = subscriptions_outcome(&results).err().unwrap();
    assert_eq!(e.text(), "Multiple errors occured:\n- a\n- b\n- c");
}

#[test]
fn a_connection_goes_on_until_it_ends() {
    assert_eq!(run_websocket_inner(SocketInput::Closing), SocketStep::Stop);
    assert_eq!(run_websocket_inner(SocketInput::Replaced), SocketStep::Stop);
    assert_eq!(run_websocket_inner(SocketInput::Ended), SocketStep::Stop);
    assert_eq!(run_websocket_inner(SocketInput::Failed), SocketStep::Stop);
    assert_eq!(run_websocket_inner(SocketInput::Handled(true)), SocketStep::Continue);
    assert_eq!(run_websocket_inner(SocketInput::Handled(false)), SocketStep::CloseAndStop);
    assert_eq!(run_websocket_inner(SocketInput::NotHandled), SocketStep::Continue);
}

#[test]
fn a_connection_is_replaced_after_its_successor_was_welcomed() {
    let (mut runner, first) = WebsocketRunner::new(None);
    assert_eq!(first.url, "wss://eventsub.wss.twitch.tv/ws");
    assert_eq!((first.id, first.is_reconnect), (1, false));
    assert!(matches!(runner.run(RunnerEvent::Tick(false), None), RunnerAction::Wait));
    let action = runner.run(RunnerEvent::Reconnect("wss://there".to_string(), true), None);
    match action {
        RunnerAction::Open(socket) => {
            assert_eq!((socket.url.as_str(), socket.is_reconnect, socket.id), ("wss://there", true, 2))
        }
        other => panic!("{other:?}"),
    }
    assert!(runner.is_replacing());
    assert!(matches!(runner.replace(ReplacementEvent::Welcomed), RunnerAction::Retire(1, 300)));
    assert!(!runner.is_replacing());
    assert!(matches!(runner.run(RunnerEvent::Tick(true), None), RunnerAction::Retire(2, 0)));
    assert!(matches!(runner.run(RunnerEvent::Close, None), RunnerAction::Stop));
}

#[test]
fn a_successor_that_is_lost_is_asked_for_again() {
    let (mut runner, _) = WebsocketRunner::new(None);
    runner.run(RunnerEvent::Reconnect("wss://there".to_string(), true), None);
    assert!(matches!(runner.replace(ReplacementEvent::SocketClosed), RunnerAction::Wait));
    let action = runner.run(RunnerEvent::SocketClosed, Some("ws://localhost".to_string()));
    assert!(matches!(action, RunnerAction::AskAgain(url, 5) if url == "ws://localhost"));
    let action = runner.run(RunnerEvent::Reconnect("ws://localhost".to_string(), false), None);
    assert!(matches!(action, RunnerAction::Open(socket) if socket.id == 3));
    assert!(matches!(runner.replace(ReplacementEvent::Close), RunnerAction::Stop));
}
