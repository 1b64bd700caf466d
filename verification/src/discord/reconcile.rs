//! Bringing what the bot wrote in line with who is live.

use vstd::prelude::*;

use crate::config::NotifyModel;
use crate::discord::cache::{entries_model, CacheKey, CacheModel};
use crate::discord::connection::{DiscordModel, InnerConnection};
use crate::discord::embed::{
    embed_fields, law_buttons_once_over, law_game_and_viewers_are_shown, law_headlines,
    law_the_embed_shows_the_stream, rows_model, sent_thumbnail, FieldModel,
};
use crate::discord::format::rendered;
use crate::discord::info::InfoModel;
use crate::discord::messaging::{NotifModel, StreamNotifMessage};
use crate::discord::update::{
    awaits, edit_ended, mention, next_intent, Edit, Phase, UpdateEventModel, UpdateModel,
};
use crate::maps::{lemma_push_contains, lists_entries};
use crate::text::{blank, decimal, replaced, same};
use crate::time::{elapsed_nanos, UtcModel, UtcTime};
use crate::twitch::client::lives;
use crate::twitch::types::{copy_video, Live, LiveModel, Notification, NotificationModel};

verus! {

/// An hour, in nanoseconds: how long the notification of a stream that is over
/// is remembered.
pub const FORGET_NANOS: i128 = 3_600_000_000_000;

/// The streams that are live.
pub open spec fn stream_ids(live: Seq<LiveModel>) -> Set<Seq<char>> {
    live.map_values(|l: LiveModel| l.stream.id).to_set()
}

/// Whether a notification tells that a stream is on which is not.
pub open spec fn outdated(key: CacheKey, n: NotifModel, live: Set<Seq<char>>) -> bool {
    !live.contains(key.1) && !n.info.offline
}

/// Whether a notification tells that a stream is over which is not on.
pub open spec fn settled(key: CacheKey, n: NotifModel, live: Set<Seq<char>>) -> bool {
    !live.contains(key.1) && n.info.offline
}

/// Whether a notification has told for an hour that its stream is over.
pub open spec fn forgettable(n: NotifModel, now: UtcModel) -> bool {
    n.info.offline && elapsed_nanos(now, n.touched()) > FORGET_NANOS
}

/// The information about a stream that turned out to be over.
pub open spec fn ended(info: InfoModel) -> InfoModel {
    InfoModel { offline: true, ..info }
}

/// What is to be done: notifications that are written anew, and notifications
/// that are forgotten. `skipped` has the channel of each notification for which
/// there is nothing to write.
#[derive(Debug)]
pub struct Reconciliation {
    pub edits: Vec<Edit>,
    pub skipped: Vec<u64>,
    pub clear: Vec<(u64, String)>,
}

/// What keys hold.
pub open spec fn keys_model(keys: Seq<(u64, String)>) -> Seq<CacheKey> {
    keys.map_values(|k: (u64, String)| (k.0, k.1@))
}

/// Whether `edits` makes each outdated notification tell that its stream is
/// over; `keys` says which edit is for which.
pub open spec fn ends_outdated(
    edits: Seq<Edit>,
    keys: Seq<CacheKey>,
    messages: Map<CacheKey, NotifModel>,
    live: Set<Seq<char>>,
    now: UtcModel,
) -> bool {
    &&& edits.len() == keys.len()
    &&& forall|i: int|
        0 <= i < keys.len() ==> messages.contains_key(#[trigger] keys[i]) && outdated(
            keys[i],
            messages[keys[i]],
            live,
        ) && edit_ended(
            edits[i],
            messages[keys[i]].channel_id,
            messages[keys[i]].message_id,
            ended(messages[keys[i]].info),
            now,
        )
    &&& keys.no_duplicates()
    &&& forall|k: CacheKey| #[trigger]
        messages.contains_key(k) && outdated(k, messages[k], live) ==> keys.contains(k)
}

/// Whether `channels` has the channel of each notification that is settled;
/// `keys` says which is of which.
pub open spec fn lists_settled(
    channels: Seq<u64>,
    keys: Seq<CacheKey>,
    messages: Map<CacheKey, NotifModel>,
    live: Set<Seq<char>>,
) -> bool {
    &&& channels.len() == keys.len()
    &&& forall|i: int|
        0 <= i < keys.len() ==> messages.contains_key(#[trigger] keys[i]) && settled(
            keys[i],
            messages[keys[i]],
            live,
        ) && channels[i] == messages[keys[i]].channel_id
    &&& keys.no_duplicates()
    &&& forall|k: CacheKey| #[trigger]
        messages.contains_key(k) && settled(k, messages[k], live) ==> keys.contains(k)
}

/// Whether `clear` lists the notifications that can be forgotten, each once.
pub open spec fn lists_forgettable(
    clear: Seq<CacheKey>,
    messages: Map<CacheKey, NotifModel>,
    now: UtcModel,
) -> bool {
    &&& forall|k: CacheKey| #[trigger]
        clear.contains(k) <==> messages.contains_key(k) && forgettable(messages[k], now)
    &&& clear.no_duplicates()
}

/// What the bot knows once it has forgotten some notifications.
pub open spec fn forgetting(conn: DiscordModel, keys: Seq<CacheKey>) -> DiscordModel {
    DiscordModel {
        cache: CacheModel {
            messages: conn.cache.messages.remove_keys(keys.to_set()),
            ..conn.cache
        },
        ..conn
    }
}

fn is_live(live: &Vec<Live>, stream_id: &str) -> (r: bool)
    ensures
        r == stream_ids(lives(live@)).contains(stream_id@),
{
    let ghost ids = lives(live@).map_values(|l: LiveModel| l.stream.id);
    let mut i: usize = 0;
    while i < live.len()
        invariant
            i <= live.len(),
            ids == lives(live@).map_values(|l: LiveModel| l.stream.id),
            forall|j: int| 0 <= j < i ==> ids[j] != stream_id@,
        decreases live.len() - i,
    {
        assert(ids[i as int] == live@[i as int]@.stream.id);
        if same(live[i].stream.id.as_str(), stream_id) {
            return true;
        }
        i += 1;
    }
    false
}

/// What channels are told of the streams that are live.
#[derive(Debug)]
pub struct LiveUpdates {
    pub updates: Vec<Notification>,
    /// Whether only notifications that are there already are edited.
    pub edit_only: bool,
}

/// Whether each stream that is live is told of as it is, and only edits are made.
pub open spec fn tells_live(r: LiveUpdates, live: Seq<LiveModel>) -> bool {
    &&& r.edit_only
    &&& r.updates@.len() == live.len()
    &&& forall|i: int|
        0 <= i < live.len() ==> (#[trigger] r.updates@[i])@ == NotificationModel::Update(live[i])
}

/// What channels are told of the streams that are live, before the rest is
/// brought in line: each stream as it is, where it was told of before.
pub fn reconcile_updates(live: &Vec<Live>) -> (r: LiveUpdates)
    ensures
        tells_live(r, lives(live@)),
        r.edit_only,
        r.updates@.len() == live@.len(),
        forall|i: int|
            0 <= i < live@.len() ==> (#[trigger] r.updates@[i])@ == NotificationModel::Update(
                live@[i]@,
            ),
{
    let mut updates: Vec<Notification> = Vec::new();
    let mut i: usize = 0;
    while i < live.len()
        invariant
            i <= live.len(),
            updates@.len() == i,
            forall|j: int|
                0 <= j < i ==> (#[trigger] updates@[j])@ == NotificationModel::Update(live@[j]@),
        decreases live.len() - i,
    {
        updates.push(Notification::Update(live[i].stream.clone(), copy_video(&live[i].video)));
        i += 1;
    }
    LiveUpdates { updates, edit_only: true }
}

impl InnerConnection {
    /// What is to be done so that every notification of a stream that is not
    /// live tells so, and those that have told so for an hour are forgotten.
    pub fn reconcile(&self, live: &Vec<Live>, now: UtcTime) -> (r: Reconciliation)
        ensures
            exists|keys: Seq<CacheKey>|
                ends_outdated(
                    r.edits@,
                    keys,
                    self@.cache.messages,
                    stream_ids(lives(live@)),
                    now@,
                ),
            exists|keys: Seq<CacheKey>|
                lists_settled(
                    r.skipped@,
                    keys,
                    self@.cache.messages,
                    stream_ids(lives(live@)),
                ),
            lists_forgettable(keys_model(r.clear@), self@.cache.messages, now@),
    {
        let entries = self.cache_entries();
        let ghost list = entries_model(entries@);
        let ghost messages = self@.cache.messages;
        let ghost ids = stream_ids(lives(live@));
        let ghost mut keys: Seq<CacheKey> = seq![];
        let ghost mut done: Seq<CacheKey> = seq![];
        let mut edits: Vec<Edit> = Vec::new();
        let mut skipped: Vec<u64> = Vec::new();
        let mut clear: Vec<(u64, String)> = Vec::new();
        let mut i: usize = 0;
        while i < entries.len()
            invariant
                i <= entries.len(),
                list == entries_model(entries@),
                messages == self@.cache.messages,
                ids == stream_ids(lives(live@)),
                lists_entries(list, messages),
                edits@.len() == keys.len(),
                forall|j: int|
                    0 <= j < keys.len() ==> messages.contains_key(#[trigger] keys[j]) && outdated(
                        keys[j],
                        messages[keys[j]],
                        ids,
                    ) && edit_ended(
                        edits@[j],
                        messages[keys[j]].channel_id,
                        messages[keys[j]].message_id,
                        ended(messages[keys[j]].info),
                        now@,
                    ),
                keys.no_duplicates(),
                forall|k: CacheKey| #[trigger]
                    keys.contains(k) <==> exists|j: int|
                        0 <= j < i && (#[trigger] list[j]).0 == k && outdated(k, list[j].1, ids),
                skipped@.len() == done.len(),
                forall|j: int|
                    0 <= j < done.len() ==> messages.contains_key(#[trigger] done[j]) && settled(
                        done[j],
                        messages[done[j]],
                        ids,
                    ) && skipped@[j] == messages[done[j]].channel_id,
                done.no_duplicates(),
                forall|k: CacheKey| #[trigger]
                    done.contains(k) <==> exists|j: int|
                        0 <= j < i && (#[trigger] list[j]).0 == k && settled(k, list[j].1, ids),
                keys_model(clear@).no_duplicates(),
                forall|k: CacheKey| #[trigger]
                    keys_model(clear@).contains(k) <==> exists|j: int|
                        0 <= j < i && (#[trigger] list[j]).0 == k && forgettable(
                            list[j].1,
                            now@,
                        ),
            decreases entries.len() - i,
        {
            let key = &entries[i].0;
            let message: &StreamNotifMessage = &entries[i].1;
            let ghost k0: CacheKey = (key.0, key.1@);
            let ghost keys0 = keys;
            let ghost done0 = done;
            let ghost clear0 = keys_model(clear@);
            proof {
                assert(list[i as int] == (k0, message@));
                assert(messages.contains_pair(k0, message@));
                assert forall|j: int| 0 <= j < i implies (#[trigger] list[j]).0 != k0 by {
                    assert(list[j].0 != list[i as int].0);
                }
                assert(!keys0.contains(k0));
                assert(!done0.contains(k0));
                assert(!clear0.contains(k0));
            }
            if !is_live(live, key.1.as_str()) {
                let mut info = message.info.clone();
                info.offline = true;
                assert(info@ =~= ended(message@.info));
                match self.set_offline(message, &info, now) {
                    Some(edit) => {
                        edits.push(edit);
                        proof {
                            keys = keys.push(k0);
                        }
                    },
                    None => {
                        skipped.push(message.channel_id);
                        proof {
                            done = done.push(k0);
                        }
                    },
                }
            }
            if message.info.offline && now.nanos_since(&message.touched_timestamp())
                > FORGET_NANOS {
                clear.push((key.0, key.1.clone()));
                assert(keys_model(clear@) =~= clear0.push(k0));
            }
            proof {
                assert(keys == (if outdated(k0, message@, ids) {
                    keys0.push(k0)
                } else {
                    keys0
                }));
                assert forall|k: CacheKey| #[trigger] keys.contains(k) <==> exists|j: int|
                    0 <= j < i + 1 && (#[trigger] list[j]).0 == k && outdated(
                        k,
                        list[j].1,
                        ids,
                    ) by {
                    lemma_push_contains(keys0, k0, k);
                    if k == k0 && outdated(k0, message@, ids) {
                        assert(list[i as int].0 == k);
                    }
                    if keys0.contains(k) {
                        let j = choose|j: int|
                            0 <= j < i && (#[trigger] list[j]).0 == k && outdated(
                                k,
                                list[j].1,
                                ids,
                            );
                        assert(list[j].0 == k);
                    }
                }
                assert(done == (if settled(k0, message@, ids) {
                    done0.push(k0)
                } else {
                    done0
                }));
                assert forall|k: CacheKey| #[trigger] done.contains(k) <==> exists|j: int|
                    0 <= j < i + 1 && (#[trigger] list[j]).0 == k && settled(
                        k,
                        list[j].1,
                        ids,
                    ) by {
                    lemma_push_contains(done0, k0, k);
                    if k == k0 && settled(k0, message@, ids) {
                        assert(list[i as int].0 == k);
                    }
                    if done0.contains(k) {
                        let j = choose|j: int|
                            0 <= j < i && (#[trigger] list[j]).0 == k && settled(
                                k,
                                list[j].1,
                                ids,
                            );
                        assert(list[j].0 == k);
                    }
                }
                let clear1 = keys_model(clear@);
                assert(clear1 == (if forgettable(message@, now@) {
                    clear0.push(k0)
                } else {
                    clear0
                }));
                assert forall|k: CacheKey| #[trigger] clear1.contains(k) <==> exists|j: int|
                    0 <= j < i + 1 && (#[trigger] list[j]).0 == k && forgettable(
                        list[j].1,
                        now@,
                    ) by {
                    lemma_push_contains(clear0, k0, k);
                    if k == k0 && forgettable(message@, now@) {
                        assert(list[i as int].0 == k);
                    }
                    if clear0.contains(k) {
                        let j = choose|j: int|
                            0 <= j < i && (#[trigger] list[j]).0 == k && forgettable(
                                list[j].1,
                                now@,
                            );
                        assert(list[j].0 == k);
                    }
                }
            }
            i += 1;
        }
        proof {
            assert forall|k: CacheKey| #[trigger] messages.contains_key(k) && outdated(
                k,
                messages[k],
                ids,
            ) implies keys.contains(k) by {
                let j = choose|j: int| 0 <= j < list.len() && (#[trigger] list[j]).0 == k;
                assert(messages.contains_pair(list[j].0, list[j].1));
            }
            assert forall|k: CacheKey| #[trigger] messages.contains_key(k) && settled(
                k,
                messages[k],
                ids,
            ) implies done.contains(k) by {
                let j = choose|j: int| 0 <= j < list.len() && (#[trigger] list[j]).0 == k;
                assert(messages.contains_pair(list[j].0, list[j].1));
            }
            let forgotten = keys_model(clear@);
            assert forall|k: CacheKey| #[trigger] forgotten.contains(k) <==> messages.contains_key(k)
                && forgettable(messages[k], now@) by {
                if messages.contains_key(k) {
                    let j = choose|j: int| 0 <= j < list.len() && (#[trigger] list[j]).0 == k;
                    assert(messages.contains_pair(list[j].0, list[j].1));
                }
                if forgotten.contains(k) {
                    let j = choose|j: int|
                        0 <= j < list.len() && (#[trigger] list[j]).0 == k && forgettable(
                            list[j].1,
                            now@,
                        );
                    assert(messages.contains_pair(list[j].0, list[j].1));
                }
            }
        }
        let r = Reconciliation { edits, skipped, clear };
        assert(ends_outdated(
            r.edits@,
            keys,
            self@.cache.messages,
            stream_ids(lives(live@)),
            now@,
        ));
        assert(lists_settled(
            r.skipped@,
            done,
            self@.cache.messages,
            stream_ids(lives(live@)),
        ));
        r
    }

    /// Forgets some notifications.
    pub fn clear_messages(&mut self, keys: &Vec<(u64, String)>)
        ensures
            final(self)@ == forgetting(old(self)@, keys_model(keys@)),
    {
        let ghost before = self@;
        let ghost all = keys_model(keys@);
        let mut i: usize = 0;
        assert(self@.cache.messages =~= forgetting(before, all.take(0)).cache.messages);
        while i < keys.len()
            invariant
                i <= keys.len(),
                all == keys_model(keys@),
                self@ == forgetting(before, all.take(i as int)),
            decreases keys.len() - i,
        {
            let ghost was = self@;
            self.forget(keys[i].0, keys[i].1.as_str());
            proof {
                let done = all.take(i as int);
                let now = all.take(i + 1);
                let k0 = all[i as int];
                assert(now =~= done.push(k0));
                assert forall|k: CacheKey| now.to_set().contains(k) <==> done.to_set().contains(k)
                    || k == k0 by {
                    lemma_push_contains(done, k0, k);
                }
                assert(self@.cache.messages =~= forgetting(before, now).cache.messages);
            }
            i += 1;
        }
        assert(all.take(i as int) =~= all);
    }
}

// ---------------------------------------------------------------------------
// Laws
// ---------------------------------------------------------------------------

/// Nothing that tells of a stream that is on is forgotten, and nothing that was
/// written within the last hour.
pub proof fn law_what_matters_is_kept(
    conn: DiscordModel,
    clear: Seq<CacheKey>,
    key: CacheKey,
    now: UtcModel,
)
    requires
        lists_forgettable(clear, conn.cache.messages, now),
        conn.cache.messages.contains_key(key),
        !conn.cache.messages[key].info.offline || elapsed_nanos(
            now,
            conn.cache.messages[key].touched(),
        ) <= FORGET_NANOS,
    ensures
        forgetting(conn, clear).cache.messages.contains_pair(key, conn.cache.messages[key]),
{
    assert(!clear.contains(key));
}

/// A stream is live if it is among those that are.
pub proof fn law_live_streams_count(live: Seq<LiveModel>, id: Seq<char>)
    ensures
        stream_ids(live).contains(id) <==> exists|i: int|
            0 <= i < live.len() && (#[trigger] live[i]).stream.id == id,
{
    let ids = live.map_values(|l: LiveModel| l.stream.id);
    if stream_ids(live).contains(id) {
        let i = choose|i: int| 0 <= i < ids.len() && ids[i] == id;
        assert(live[i].stream.id == id);
    }
    if exists|i: int| 0 <= i < live.len() && (#[trigger] live[i]).stream.id == id {
        let i = choose|i: int| 0 <= i < live.len() && (#[trigger] live[i]).stream.id == id;
        assert(ids[i] == id);
    }
}

/// Each stream that is live is told of as it is now, and no channel is pinged for it: what
/// such an update does is edit, or nothing.
pub proof fn law_reconciling_pings_nobody(
    r: LiveUpdates,
    live: Seq<LiveModel>,
    i: int,
    conn: DiscordModel,
    channel_id: u64,
    cfg: NotifyModel,
    phase: Phase,
    event: UpdateEventModel,
)
    requires
        tells_live(r, live),
        0 <= i < live.len(),
        awaits(phase, event),
    ensures
        r.updates@.len() == live.len(),
        r.updates@[i]@ is Update,
        r.updates@[i]@.live().stream == live[i].stream,
        r.updates@[i]@.live().video == live[i].video,
        next_intent(
            conn,
            UpdateModel {
                channel_id,
                cfg,
                notif: r.updates@[i]@,
                edit_only: r.edit_only,
                phase,
            },
            event,
        ) !is Send,
{
    assert(r.updates@[i]@ == NotificationModel::Update(live[i]));
}

/// The notifications that are made to tell the end are those that tell of a stream that is
/// on and is not: each of them, once, and no others.
pub proof fn law_who_is_ended(
    edits: Seq<Edit>,
    keys: Seq<CacheKey>,
    messages: Map<CacheKey, NotifModel>,
    live: Seq<LiveModel>,
    now: UtcModel,
    key: CacheKey,
)
    requires
        ends_outdated(edits, keys, messages, stream_ids(live), now),
    ensures
        edits.len() == keys.len(),
        keys.contains(key) <==> messages.contains_key(key) && !messages[key].info.offline
            && forall|i: int| 0 <= i < live.len() ==> (#[trigger] live[i]).stream.id != key.1,
        keys.no_duplicates(),
{
    law_live_streams_count(live, key.1);
    if keys.contains(key) {
        let i = choose|i: int| 0 <= i < keys.len() && keys[i] == key;
        assert(outdated(keys[i], messages[keys[i]], stream_ids(live)));
    }
    if messages.contains_key(key) && !messages[key].info.offline && forall|i: int|
        0 <= i < live.len() ==> (#[trigger] live[i]).stream.id != key.1 {
        assert(outdated(key, messages[key], stream_ids(live)));
    }
}

/// A notification that is made to tell the end keeps all that it told, but that the stream
/// is over now: the game, the title, how many watched, who streamed, and the button to the
/// recording where there is one. The message carries it all, and it is the same message.
pub proof fn law_the_ended_keep_what_they_told(
    edits: Seq<Edit>,
    keys: Seq<CacheKey>,
    messages: Map<CacheKey, NotifModel>,
    live: Set<Seq<char>>,
    now: UtcModel,
    i: int,
)
    requires
        ends_outdated(edits, keys, messages, live, now),
        0 <= i < keys.len(),
    ensures
        ({
            let e = edits[i];
            let before = messages[keys[i]];
            let info = before.info;
            let embed = e.post.embed@;
            let rows = rows_model(e.post.components@);
            &&& e.ended
            &&& e.channel_id == before.channel_id
            &&& e.message_id == before.message_id
            &&& e.stream_id@ == info.stream_id
            &&& sent_thumbnail(embed.thumbnail, InfoModel { offline: true, ..info })
            &&& info.video_id is None ==> rows.len() == 0
            &&& info.video_id matches Some(v) ==> rows.len() == 1 && rows[0].len() == 1
                && rows[0][0].url == "https://twitch.tv/videos/"@ + v && rows[0][0].label
                == "Watch the VOD!"@
            &&& info.format_offline is None ==> e.post.content@ == mention(info.ping) + "**"@
                + info.user_name + "** streamed :projector:"@
            &&& info.format_offline matches Some(f) ==> e.post.content@ == rendered(
                f,
                InfoModel { offline: true, ..info },
            )
            &&& !blank(info.stream_title) ==> embed.title == info.stream_title
            &&& embed.author_name == info.user_name
            &&& embed.author_icon == info.user_icon
            &&& embed.url == "https://twitch.tv/"@ + info.user_login
            &&& embed.image == replaced(
                replaced(info.stream_thumbnail, "{width}"@, "1080"@),
                "{height}"@,
                "720"@,
            )
            &&& info.game_name.len() > 0 ==> embed.fields.len() >= 2 && embed.fields[0] == (
            FieldModel { name: "**Game name**"@, value: info.game_name, inline: true })
                && embed.fields[1].value == decimal(info.viewer_count)
            &&& info.game_name.len() == 0 ==> embed.fields.len() >= 1 && embed.fields[0].value
                == decimal(info.viewer_count)
            &&& embed.fields == embed_fields(InfoModel { offline: true, ..info }, now)
            &&& embed.footer == Some("Last online"@)
            &&& embed.timestamp == Some(now)
        }),
{
    let info = InfoModel { offline: true, ..messages[keys[i]].info };
    assert(messages.contains_key(keys[i]));
    assert(ended(messages[keys[i]].info) =~= info);
    law_headlines(info);
    law_buttons_once_over(info);
    law_game_and_viewers_are_shown(info, now);
    law_the_embed_shows_the_stream(info, now, edits[i].post.embed@.thumbnail);
}

/// There is nothing to write for a notification that tells the end already, of a stream that
/// is not live; each of them is counted, in its channel, and no others are.
pub proof fn law_who_is_skipped(
    channels: Seq<u64>,
    keys: Seq<CacheKey>,
    messages: Map<CacheKey, NotifModel>,
    live: Seq<LiveModel>,
    key: CacheKey,
    i: int,
)
    requires
        lists_settled(channels, keys, messages, stream_ids(live)),
    ensures
        channels.len() == keys.len(),
        keys.no_duplicates(),
        keys.contains(key) <==> messages.contains_key(key) && messages[key].info.offline
            && forall|j: int| 0 <= j < live.len() ==> (#[trigger] live[j]).stream.id != key.1,
        0 <= i < keys.len() ==> channels[i] == messages[keys[i]].channel_id,
{
    law_live_streams_count(live, key.1);
    if keys.contains(key) {
        let j = choose|j: int| 0 <= j < keys.len() && keys[j] == key;
        assert(settled(keys[j], messages[keys[j]], stream_ids(live)));
    }
    if messages.contains_key(key) && messages[key].info.offline && forall|j: int|
        0 <= j < live.len() ==> (#[trigger] live[j]).stream.id != key.1 {
        assert(settled(key, messages[key], stream_ids(live)));
    }
}

/// What can be forgotten has told for more than an hour that its stream is over; all of that
/// is listed, and nothing else.
pub proof fn law_what_can_be_forgotten(
    clear: Seq<CacheKey>,
    messages: Map<CacheKey, NotifModel>,
    now: UtcModel,
    key: CacheKey,
)
    requires
        lists_forgettable(clear, messages, now),
    ensures
        clear.contains(key) <==> messages.contains_key(key) && messages[key].info.offline
            && elapsed_nanos(now, messages[key].touched()) > 3600 * 1_000_000_000,
        messages.contains_key(key) && messages[key].touched().nanos < 1_000_000_000 && now.nanos
            < 1_000_000_000 ==> (clear.contains(key) <==> messages[key].info.offline && (now.secs
            - messages[key].touched().secs) * 1_000_000_000 + now.nanos
            - messages[key].touched().nanos > 3600 * 1_000_000_000),
{
}

/// What is forgotten is gone, and nothing else changes.
pub proof fn law_only_the_listed_are_forgotten(
    conn: DiscordModel,
    keys: Seq<CacheKey>,
    key: CacheKey,
)
    ensures
        ({
            let after = forgetting(conn, keys);
            &&& keys.contains(key) ==> !after.cache.messages.contains_key(key)
            &&& !keys.contains(key) ==> after.cache.messages.get(key) == conn.cache.messages.get(
                key,
            )
            &&& after.cache.ready == conn.cache.ready
            &&& after.guilds == conn.guilds
            &&& after.user_id == conn.user_id
            &&& after.bcids == conn.bcids
        }),
{
}

} // verus!
