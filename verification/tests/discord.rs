use carrot_cake::config::{derive_by_guild_id, Config, NotifyConfig, StreamConfig};
use carrot_cake::discord::cache::{sort_by_time, CacheRead, MessageCache};
use carrot_cake::discord::connection::{GuildInfo, InnerConnection};
use carrot_cake::discord::info::StreamInfo;
use carrot_cake::discord::messaging::{Message, ReceivedEmbed, StreamNotifMessage};
use carrot_cake::discord::reconcile::reconcile_updates;
use carrot_cake::discord::update::{Action, Outcome, Phase, Post, UpdateEvent};
use carrot_cake::time::UtcTime;
use carrot_cake::twitch::types::{Broadcasters, Channel, Live, Notification, Stream, Video};

const BOT: u64 = 99;

fn utc(secs: i64) -> UtcTime {
    UtcTime::new(secs, 0).unwrap()
}

fn stream(id: &str) -> Stream {
    Stream {
        game_id: "game".to_string(),
        game_name: "Game".to_string(),
        id: id.to_string(),
        language: "en".to_string(),
        is_mature: false,
        started_at: "2023-11-14T22:13:20Z".to_string(),
        tag_ids: vec![],
        tags: vec![],
        thumbnail_url: "https://example.com/{width}x{height}".to_string(),
        title: "Title".to_string(),
        type_: "live".to_string(),
        user_id: "u1".to_string(),
        user_name: "Bunny".to_string(),
        user_login: "bunny".to_string(),
        viewer_count: 5,
    }
}

fn video(id: &str) -> Video {
    Video {
        created_at: String::new(),
        description: String::new(),
        duration: String::new(),
        id: id.to_string(),
        language: String::new(),
        muted_segments: vec![],
        published_at: String::new(),
        stream_id: None,
        thumbnail_url: String::new(),
        title: String::new(),
        type_: String::new(),
        url: String::new(),
        user_id: String::new(),
        user_name: String::new(),
        user_login: String::new(),
        view_count: 0,
        viewable: String::new(),
    }
}

fn cfg() -> NotifyConfig {
    NotifyConfig {
        guild_id: "1".to_string(),
        channel_id: "10".to_string(),
        ping: Some("p".to_string()),
        format_online: None,
        format_offline: None,
    }
}

fn connection() -> InnerConnection {
    let mut bcids = Broadcasters::new();
    bcids.insert(Channel {
        id: "u1".to_string(),
        broadcaster_login: "bunny".to_string(),
        thumbnail_url: "https://example.com/icon".to_string(),
    });
    InnerConnection::new(BOT, bcids)
}

fn info(stream_id: &str, offline: bool) -> StreamInfo {
    let notif = if offline {
        Notification::Offline(stream(stream_id), None)
    } else {
        Notification::Online(stream(stream_id), None)
    };
    connection().info_from_notif(&notif, &cfg())
}

fn shown(id: u64, channel_id: u64, sent: i64, edited: Option<i64>, post: &Post) -> Message {
    Message {
        id,
        channel_id,
        author_id: BOT,
        timestamp: utc(sent),
        edited_timestamp: edited.map(utc),
        embeds: vec![ReceivedEmbed {
            thumbnail_url: Some(post.embed.thumbnail.clone()),
            image_url: Some(post.embed.image.clone()),
            author_icon_url: post.embed.author_icon.clone(),
        }],
    }
}

fn sent_for(id: u64, channel_id: u64, sent: i64, edited: Option<i64>, info: &StreamInfo) -> Message {
    let post = Post {
        content: String::new(),
        embed: info.stream_embed(utc(sent)),
        components: vec![],
    };
    shown(id, channel_id, sent, edited, &post)
}

fn notif(id: u64, sent: i64, edited: Option<i64>, stream_id: &str) -> StreamNotifMessage {
    StreamNotifMessage {
        channel_id: 10,
        message_id: id,
        timestamp: utc(sent),
        edited_timestamp: edited.map(utc),
        info: info(stream_id, false),
    }
}

fn ids(list: &[StreamNotifMessage]) -> Vec<u64> {
    list.iter().map(|n| n.message_id).collect()
}

#[test]
fn news_become_information() {
    let made = connection()
        .info_from_notif(&Notification::Update(stream("s"), Some(video("v"))), &cfg());
    assert_eq!(made.user_icon.as_deref(), Some("https://example.com/icon"));
    assert_eq!(made.video_id.as_deref(), Some("v"));
    assert!(!made.offline);
    let stranger = Stream { user_id: "u2".to_string(), ..stream("s") };
    let made = connection().info_from_notif(&Notification::Offline(stranger, None), &cfg());
    assert!(made.user_icon.is_none());
    assert!(made.offline);
}

#[test]
fn sorting_keeps_equals_in_place() {
    let list =
        vec![notif(1, 30, None, "a"), notif(2, 10, None, "a"), notif(3, 30, None, "b"),
            notif(4, 20, None, "a"), notif(5, 10, None, "c")];
    assert_eq!(ids(&sort_by_time(&list)), [2, 5, 4, 1, 3]);
    assert!(sort_by_time(&vec![]).is_empty());
}

#[test]
fn a_cache_keeps_the_latest() {
    let mut cache = MessageCache::new();
    assert!(!cache.is_ready(10));
    let reads = cache.merge(
        10,
        &vec![notif(1, 10, None, "a"), notif(2, 20, None, "a"), notif(5, 5, None, "c")],
    );
    assert_eq!(reads, [CacheRead::Miss, CacheRead::Miss, CacheRead::Hit]);
    cache.remove(10, "c");
    assert!(cache.is_ready(10) && !cache.is_ready(11));
    assert_eq!(cache.get(10, "a").unwrap().message_id, 2);
    let reads = cache.merge(10, &vec![notif(3, 20, None, "a")]);
    assert_eq!(reads, [CacheRead::Hit]);
    assert_eq!(cache.get(10, "a").unwrap().message_id, 2);
    let reads = cache.merge(10, &vec![notif(1, 10, Some(21), "a")]);
    assert_eq!(reads, [CacheRead::Update]);
    let names = [CacheRead::Miss, CacheRead::Update, CacheRead::Hit].map(|read| read.text());
    assert_eq!(names, ["miss", "update", "hit"]);
    assert_eq!(cache.get(10, "a").unwrap().message_id, 1);
    assert!(cache.get(11, "a").is_none() && cache.get(10, "b").is_none());
    cache.insert(11, "a".to_string(), notif(9, 1, None, "a"));
    assert_eq!(cache.get(11, "a").unwrap().message_id, 9);
    cache.remove(10, "a");
    assert!(cache.get(10, "a").is_none());
    assert_eq!(cache.entries().len(), 1);
}

#[test]
fn reading_twice_changes_nothing() {
    let list = vec![notif(1, 10, None, "a"), notif(2, 10, Some(15), "b"), notif(3, 12, None, "a")];
    let mut cache = MessageCache::new();
    cache.merge(10, &list);
    let once: Vec<u64> = ["a", "b"].map(|s| cache.get(10, s).unwrap().message_id).to_vec();
    assert_eq!(cache.merge(10, &list), [CacheRead::Hit; 3]);
    let twice: Vec<u64> = ["a", "b"].map(|s| cache.get(10, s).unwrap().message_id).to_vec();
    assert_eq!(once, [3, 2]);
    assert_eq!(once, twice);
}

#[test]
fn a_cache_survives_a_restart() {
    let mut first = MessageCache::new();
    first.insert(10, "a".to_string(), notif(1, 10, None, "a"));
    first.insert(10, "b".to_string(), notif(2, 10, None, "b"));
    first.insert(11, "a".to_string(), notif(3, 10, None, "a"));
    let mut second = MessageCache::new();
    second.load(first.entries());
    assert_eq!(second.entries().len(), 3);
    for (channel, id) in [(10, "a"), (10, "b"), (11, "a")] {
        assert_eq!(
            second.get(channel, id).unwrap().message_id,
            first.get(channel, id).unwrap().message_id
        );
    }
    let mut conn = connection();
    conn.load_cache(first.entries());
    assert_eq!(conn.cache_entries().len(), 3);
    assert!(!conn.is_ready(10));
}

#[test]
fn only_own_notifications_are_read() {
    let mut conn = connection();
    let mut foreign = sent_for(2, 10, 20, None, &info("s", false));
    foreign.author_id = 1;
    let mut empty = sent_for(3, 10, 20, None, &info("s", false));
    empty.embeds.clear();
    let own = sent_for(1, 10, 30, None, &info("s", false));
    let older = sent_for(4, 10, 5, None, &info("s", true));
    let fetched = vec![foreign, own, empty, older];
    assert_eq!(ids(&conn.get_channel_messages(&fetched)), [1, 4]);
    assert_eq!(ids(&conn.sync_channel_messages(10, &fetched)), [4, 1]);
    assert!(conn.is_ready(10));
    assert_eq!(conn.cached_message(10, "s").unwrap().message_id, 1);
}

#[test]
fn a_stream_is_told_about_in_its_channels() {
    let config = Config {
        streams: vec![StreamConfig { streamer_login: "bunny".to_string(), notify: vec![cfg()] }],
    };
    let routes = derive_by_guild_id(&config);
    let mut conn = connection();
    conn.set_guilds(vec![
        GuildInfo { id: 2, name: "two".to_string() },
        GuildInfo { id: 1, name: "one".to_string() },
    ]);
    assert_eq!(conn.guilds().len(), 2);
    let targets = conn.update_stream(&routes, &Notification::Online(stream("s"), None));
    assert_eq!(targets.len(), 2);
    assert_eq!((targets[0].0.id, targets[0].1.len()), (2, 0));
    assert_eq!(targets[1].0.name, "one");
    assert_eq!(targets[1].1[0].0, 10);
    let other = Stream { user_login: "other".to_string(), ..stream("s") };
    let targets = conn.update_stream(&routes, &Notification::Online(other, None));
    assert!(targets.iter().all(|t| t.1.is_empty()));
}

#[test]
fn a_new_stream_is_sent_once() {
    let mut conn = connection();
    let online = Notification::Online(stream("s"), None);
    let (mut update, action) =
        conn.update_stream_for_channel(10, cfg(), online.clone(), false, utc(50));
    assert!(matches!(action, Action::Fetch(10, 50)));
    assert_eq!(update.phase(), Phase::Fetching);
    let action = update.step(&mut conn, UpdateEvent::Fetched(vec![]), utc(50));
    let post = match action {
        Action::Send(10, post) => post,
        other => panic!("{other:?}"),
    };
    assert_eq!(post.content, "<@p>, **Bunny** is streaming! :tada:");
    assert_eq!(post.components[0].buttons.len(), 1);
    assert_eq!(update.phase(), Phase::Sending);
    let reply = shown(5, 10, 51, None, &post);
    let action = update.step(&mut conn, UpdateEvent::Sent(reply), utc(51));
    assert!(matches!(&action, Action::Done(Outcome::Sent)));
    assert_eq!(update.phase(), Phase::Finished);

    let (again, action) = conn.update_stream_for_channel(10, cfg(), online, false, utc(60));
    assert_eq!(again.phase(), Phase::EditingCached);
    match action {
        Action::Edit(edit) => {
            assert_eq!((edit.channel_id, edit.message_id, edit.stream_id.as_str()), (10, 5, "s"))
        }
        other => panic!("{other:?}"),
    }
    let elsewhere = Notification::Online(stream("s"), None);
    let (_, action) = conn.update_stream_for_channel(11, cfg(), elsewhere, false, utc(60));
    assert!(matches!(action, Action::Fetch(11, 50)));
}

#[test]
fn a_message_in_the_channel_is_found() {
    let mut conn = connection();
    let update = Notification::Update(stream("s"), None);
    let (mut run, _) = conn.update_stream_for_channel(10, cfg(), update, false, utc(50));
    let with_video = StreamInfo { video_id: Some("v".to_string()), ..info("s", false) };
    let fetched = vec![
        sent_for(1, 10, 30, None, &info("s", false)),
        sent_for(2, 10, 40, None, &with_video),
        sent_for(3, 10, 45, None, &info("t", false)),
    ];
    let action = run.step(&mut conn, UpdateEvent::Fetched(fetched), utc(50));
    let edit = match action {
        Action::Edit(edit) => edit,
        other => panic!("{other:?}"),
    };
    assert_eq!(conn.last_read().as_slice(), [CacheRead::Miss, CacheRead::Miss, CacheRead::Hit]);
    assert_eq!(edit.message_id, 2);
    assert!(!edit.ended);
    assert_eq!(edit.post.components[0].buttons.len(), 2);
    assert_eq!(run.phase(), Phase::EditingFound);
    let reply = shown(2, 10, 40, Some(51), &edit.post);
    let action = run.step(&mut conn, UpdateEvent::Edited(reply), utc(51));
    assert!(matches!(action, Action::Done(Outcome::Edited)));
    assert_eq!(conn.cached_message(10, "s").unwrap().touched_timestamp().secs(), 51);
    assert_eq!(conn.cached_message(10, "t").unwrap().message_id, 3);
}

#[test]
fn an_edit_that_fails_is_followed_up() {
    let mut conn = connection();
    conn.remember(10, "s".to_string(), &sent_for(1, 10, 30, None, &info("s", false)));
    let update = Notification::Update(stream("s"), None);
    let (mut run, action) = conn.update_stream_for_channel(10, cfg(), update, false, utc(50));
    assert!(matches!(action, Action::Edit(_)));
    let action = run.step(&mut conn, UpdateEvent::EditFailed("gone".to_string()), utc(50));
    assert!(matches!(action, Action::Backoff(5)));
    assert_eq!(run.phase(), Phase::BackingOff);
    let action = run.step(&mut conn, UpdateEvent::BackedOff, utc(55));
    assert!(matches!(action, Action::Fetch(10, 50)));
    let fetched = vec![sent_for(1, 10, 30, None, &info("s", false))];
    let action = run.step(&mut conn, UpdateEvent::Fetched(fetched), utc(55));
    assert!(matches!(action, Action::Edit(_)));
    let action = run.step(&mut conn, UpdateEvent::EditFailed("gone".to_string()), utc(55));
    match action {
        Action::Done(outcome) => {
            assert_eq!(outcome.edit_type(), "error");
            assert!(matches!(outcome, Outcome::Failed(e) if e == "gone"));
        }
        other => panic!("{other:?}"),
    }
}

#[test]
fn failures_end_an_update() {
    let mut conn = connection();
    let online = Notification::Online(stream("s"), None);
    let (mut run, _) = conn.update_stream_for_channel(10, cfg(), online.clone(), false, utc(0));
    let action = run.step(&mut conn, UpdateEvent::FetchFailed("no".to_string()), utc(0));
    assert!(matches!(action, Action::Done(Outcome::Failed(e)) if e == "Channel sync error: no"));
    let (mut run, _) = conn.update_stream_for_channel(10, cfg(), online, false, utc(0));
    run.step(&mut conn, UpdateEvent::Fetched(vec![]), utc(0));
    let action = run.step(&mut conn, UpdateEvent::SendFailed("no".to_string()), utc(0));
    assert!(matches!(action, Action::Done(Outcome::Failed(e)) if e == "no"));
    assert!(conn.cached_message(10, "s").is_none());
}

#[test]
fn nothing_is_sent_where_only_edits_were_asked_for() {
    let mut conn = connection();
    let online = Notification::Online(stream("s"), None);
    let (mut run, _) = conn.update_stream_for_channel(10, cfg(), online, true, utc(0));
    let action = run.step(&mut conn, UpdateEvent::Fetched(vec![]), utc(0));
    assert!(matches!(&action, Action::Done(o) if o.edit_type() == "none"));
    let offline = Notification::Offline(stream("s"), None);
    let (mut run, _) = conn.update_stream_for_channel(10, cfg(), offline, false, utc(0));
    let action = run.step(&mut conn, UpdateEvent::Fetched(vec![]), utc(0));
    assert!(matches!(&action, Action::Done(o) if o.edit_type() == "none"));
}

#[test]
fn the_end_of_a_stream_is_told_once() {
    let mut conn = connection();
    conn.remember(10, "s".to_string(), &sent_for(1, 10, 30, None, &info("s", false)));
    let offline = Notification::Offline(stream("s"), Some(video("v")));
    let (mut run, action) =
        conn.update_stream_for_channel(10, cfg(), offline.clone(), false, utc(50));
    let edit = match action {
        Action::Edit(edit) => edit,
        other => panic!("{other:?}"),
    };
    assert!(edit.ended);
    assert_eq!(edit.post.content, "<@p>, **Bunny** streamed :projector:");
    assert_eq!(edit.post.components[0].buttons[0].label, "Watch the VOD!");
    let reply = shown(1, 10, 30, Some(51), &edit.post);
    run.step(&mut conn, UpdateEvent::Edited(reply), utc(51));
    assert!(conn.cached_message(10, "s").unwrap().info.offline);
    let (run, action) = conn.update_stream_for_channel(10, cfg(), offline, false, utc(60));
    assert!(matches!(&action, Action::Done(Outcome::Skipped(10))));
    assert!(matches!(&action, Action::Done(o) if o.edit_type() == "edit"));
    assert_eq!(run.phase(), Phase::Finished);
}

#[test]
fn an_answer_that_is_no_notification_is_not_remembered() {
    let mut conn = connection();
    let mut reply = sent_for(1, 10, 30, None, &info("s", false));
    reply.embeds.clear();
    conn.remember(10, "s".to_string(), &reply);
    assert!(conn.cached_message(10, "s").is_none());
}

#[test]
fn live_streams_are_only_edited() {
    let live = vec![
        Live { stream: stream("a"), video: Some(video("v")) },
        Live { stream: stream("b"), video: None },
    ];
    let plan = reconcile_updates(&live);
    assert!(plan.edit_only);
    let told: Vec<(&str, Option<&str>)> = plan
        .updates
        .iter()
        .map(|n| match n {
            Notification::Update(s, v) => (s.id.as_str(), v.as_ref().map(|v| v.id.as_str())),
            other => panic!("{other:?}"),
        })
        .collect();
    assert_eq!(told, [("a", Some("v")), ("b", None)]);
}

#[test]
fn streams_that_ended_unnoticed_are_ended() {
    let mut conn = connection();
    conn.remember(10, "on".to_string(), &sent_for(1, 10, 30, None, &info("on", false)));
    conn.remember(10, "gone".to_string(), &sent_for(2, 10, 30, None, &info("gone", false)));
    conn.remember(10, "old".to_string(), &sent_for(3, 10, 30, Some(100), &info("old", true)));
    conn.remember(10, "new".to_string(), &sent_for(4, 10, 30, Some(101), &info("new", true)));
    let live = vec![Live { stream: stream("on"), video: None }];
    let plan = conn.reconcile(&live, utc(3701));
    assert_eq!(plan.edits.len(), 1);
    assert_eq!((plan.edits[0].message_id, plan.edits[0].stream_id.as_str()), (2, "gone"));
    assert_eq!(plan.edits[0].post.content, "<@p>, **Bunny** streamed :projector:");
    assert!(plan.edits[0].post.components.is_empty());
    assert!(plan.edits[0].ended);
    assert_eq!(plan.skipped, [10, 10]);
    assert_eq!(plan.clear, [(10, "old".to_string())]);
    conn.remember(10, "gone".to_string(), &shown(2, 10, 30, Some(3701), &plan.edits[0].post));
    conn.clear_messages(&plan.clear);
    assert!(conn.cached_message(10, "old").is_none());
    assert_eq!(conn.cache_entries().len(), 3);
    let plan = conn.reconcile(&live, utc(3701));
    assert!(plan.edits.is_empty() && plan.clear.is_empty());
    conn.forget(10, "on");
    assert!(conn.cached_message(10, "on").is_none());
}
