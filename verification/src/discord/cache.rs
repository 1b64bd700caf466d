//! The notifications that the bot knows of, by channel and stream.

use dashmap::{DashMap, DashSet};
use vstd::prelude::*;

use crate::discord::messaging::{NotifModel, StreamNotifMessage};
use crate::maps::lists_entries;
use crate::time::UtcModel;

verus! {

/// The file in which the cache is kept, unless told otherwise.
pub const CACHE_FILE: &'static str = "carrot-cake-cache.json";

/// A channel and a stream.
pub type CacheKey = (u64, Seq<char>);

// ---------------------------------------------------------------------------
// The maps
// ---------------------------------------------------------------------------

/// The notifications that a map holds.
pub uninterp spec fn cached(m: DashMap<(u64, String), StreamNotifMessage>) -> Map<
    (u64, Seq<char>),
    NotifModel,
>;

/// What an optional notification holds.
pub open spec fn opt_notif(r: Option<StreamNotifMessage>) -> Option<NotifModel> {
    match r {
        Some(n) => Some(n@),
        None => None,
    }
}

/// What entries of notifications hold.
pub open spec fn entries_model(list: Seq<((u64, String), StreamNotifMessage)>) -> Seq<
    (CacheKey, NotifModel),
> {
    list.map_values(|e: ((u64, String), StreamNotifMessage)| ((e.0.0, e.0.1@), e.1@))
}

/// `dashmap::DashMap::new`, for notifications.
///
/// Trusted: the map is empty.
#[verifier::external_body]
fn new_messages() -> (r: DashMap<(u64, String), StreamNotifMessage>)
    ensures
        cached(r).dom().is_empty(),
{
    DashMap::new()
}

/// `dashmap::DashMap::get`, for notifications.
///
/// Trusted: it is the value under the key, if there is one.
#[verifier::external_body]
fn get_message(
    m: &DashMap<(u64, String), StreamNotifMessage>,
    channel_id: u64,
    stream_id: &str,
) -> (r: Option<StreamNotifMessage>)
    ensures
        opt_notif(r) == cached(*m).get((channel_id, stream_id@)),
{
    m.get(&(channel_id, stream_id.to_owned())).map(|e| e.value().clone())
}

/// `dashmap::DashMap::insert`, for notifications.
///
/// Trusted: the key maps to the value afterwards, and nothing else changes.
#[verifier::external_body]
fn insert_message(
    m: &mut DashMap<(u64, String), StreamNotifMessage>,
    channel_id: u64,
    stream_id: String,
    message: StreamNotifMessage,
)
    ensures
        cached(*final(m)) == cached(*old(m)).insert((channel_id, stream_id@), message@),
{
    m.insert((channel_id, stream_id), message);
}

/// `dashmap::DashMap::remove`, for notifications.
///
/// Trusted: the key is gone afterwards, and nothing else changes.
#[verifier::external_body]
fn remove_message(
    m: &mut DashMap<(u64, String), StreamNotifMessage>,
    channel_id: u64,
    stream_id: &str,
)
    ensures
        cached(*final(m)) == cached(*old(m)).remove((channel_id, stream_id@)),
{
    m.remove(&(channel_id, stream_id.to_owned()));
}

/// `dashmap::DashMap::iter`, for notifications.
///
/// Trusted: it gives each entry once. The order is left unsaid.
#[verifier::external_body]
fn message_entries(m: &DashMap<(u64, String), StreamNotifMessage>) -> (r: Vec<
    ((u64, String), StreamNotifMessage),
>)
    ensures
        lists_entries(entries_model(r@), cached(*m)),
{
    m.iter().map(|e| (e.key().clone(), e.value().clone())).collect()
}

/// The channels that a set holds.
pub uninterp spec fn ready_channels(s: DashSet<u64>) -> Set<u64>;

/// `dashmap::DashSet::new`, for channels.
///
/// Trusted: the set is empty.
#[verifier::external_body]
fn new_ready() -> (r: DashSet<u64>)
    ensures
        ready_channels(r).is_empty(),
{
    DashSet::new()
}

/// `dashmap::DashSet::insert`, for channels.
///
/// Trusted: the channel is in the set afterwards, and nothing else changes.
#[verifier::external_body]
fn insert_ready(s: &mut DashSet<u64>, channel_id: u64)
    ensures
        ready_channels(*final(s)) == ready_channels(*old(s)).insert(channel_id),
{
    s.insert(channel_id);
}

/// `dashmap::DashSet::contains`, for channels.
///
/// Trusted: it says whether the channel is in the set.
#[verifier::external_body]
fn contains_ready(s: &DashSet<u64>, channel_id: u64) -> (r: bool)
    ensures
        r == ready_channels(*s).contains(channel_id),
{
    s.contains(&channel_id)
}

// ---------------------------------------------------------------------------
// The cache
// ---------------------------------------------------------------------------

/// The notifications, and the channels that they have been read from.
#[verifier::ext_equal]
pub struct CacheModel {
    pub messages: Map<CacheKey, NotifModel>,
    pub ready: Set<u64>,
}

/// Keeps track of the messages that are being updated. It is read back from
/// the latest messages of a channel where something is missing.
pub struct MessageCache {
    messages: DashMap<(u64, String), StreamNotifMessage>,
    ready: DashSet<u64>,
}

impl View for MessageCache {
    type V = CacheModel;

    closed spec fn view(&self) -> CacheModel {
        CacheModel { messages: cached(self.messages), ready: ready_channels(self.ready) }
    }
}

/// Entries set one after the other, the later over the earlier.
pub open spec fn loaded(
    messages: Map<CacheKey, NotifModel>,
    entries: Seq<(CacheKey, NotifModel)>,
) -> Map<CacheKey, NotifModel>
    decreases entries.len(),
{
    if entries.len() == 0 {
        messages
    } else {
        loaded(messages, entries.drop_last()).insert(entries.last().0, entries.last().1)
    }
}

/// Where a notification stands in the cache.
pub open spec fn key_of(n: NotifModel) -> CacheKey {
    (n.channel_id, n.info.stream_id)
}

/// The cache with a notification that was read from its channel: it counts if
/// it was written after the one that is known.
pub open spec fn with_read(messages: Map<CacheKey, NotifModel>, n: NotifModel) -> Map<
    CacheKey,
    NotifModel,
> {
    if messages.contains_key(key_of(n)) && !n.touched().after(messages[key_of(n)].touched()) {
        messages
    } else {
        messages.insert(key_of(n), n)
    }
}

/// The cache with notifications that were read from a channel, the last first.
pub open spec fn merged(
    messages: Map<CacheKey, NotifModel>,
    list: Seq<NotifModel>,
) -> Map<CacheKey, NotifModel>
    decreases list.len(),
{
    if list.len() == 0 {
        messages
    } else {
        with_read(merged(messages, list.skip(1)), list[0])
    }
}

/// What the cache made of a notification that was read from its channel.
#[derive(Clone, Copy, Debug, PartialEq, Eq, Structural)]
pub enum CacheRead {
    /// There was none of that stream.
    Miss,
    /// The one that was known had been written before.
    Update,
    /// The one that was known is as good.
    Hit,
}

/// The name under which such notifications are counted.
pub open spec fn read_text(read: CacheRead) -> Seq<char> {
    match read {
        CacheRead::Miss => "miss"@,
        CacheRead::Update => "update"@,
        CacheRead::Hit => "hit"@,
    }
}

impl CacheRead {
    /// The name under which such a notification is counted.
    pub fn text(&self) -> (r: &'static str)
        ensures
            r@ == read_text(*self),
    {
        match self {
            CacheRead::Miss => "miss",
            CacheRead::Update => "update",
            CacheRead::Hit => "hit",
        }
    }
}

/// What the cache makes of a notification that is read from its channel.
pub open spec fn read_of(messages: Map<CacheKey, NotifModel>, n: NotifModel) -> CacheRead {
    if !messages.contains_key(key_of(n)) {
        CacheRead::Miss
    } else if n.touched().after(messages[key_of(n)].touched()) {
        CacheRead::Update
    } else {
        CacheRead::Hit
    }
}

/// What the cache makes of notifications that are read from a channel, the last
/// first.
pub open spec fn reads(messages: Map<CacheKey, NotifModel>, list: Seq<NotifModel>) -> Seq<CacheRead>
    decreases list.len(),
{
    if list.len() == 0 {
        seq![]
    } else {
        reads(messages, list.skip(1)).push(read_of(merged(messages, list.skip(1)), list[0]))
    }
}

/// What a list of notifications holds.
pub open spec fn notifs(list: Seq<StreamNotifMessage>) -> Seq<NotifModel> {
    list.map_values(|n: StreamNotifMessage| n@)
}

impl MessageCache {
    /// A cache that knows nothing.
    pub fn new() -> (r: MessageCache)
        ensures
            r@ == (CacheModel { messages: Map::empty(), ready: Set::empty() }),
    {
        let r = MessageCache { messages: new_messages(), ready: new_ready() };
        assert(r@.messages =~= Map::empty());
        assert(r@.ready =~= Set::empty());
        r
    }

    /// Takes in what another run of the bot knew.
    pub fn load(&mut self, entries: Vec<((u64, String), StreamNotifMessage)>)
        ensures
            final(self)@ == (CacheModel {
                messages: loaded(old(self)@.messages, entries_model(entries@)),
                ..old(self)@
            }),
    {
        let ghost before = self@;
        let ghost all = entries_model(entries@);
        let mut i: usize = 0;
        while i < entries.len()
            invariant
                i <= entries.len(),
                all == entries_model(entries@),
                self@ == (CacheModel {
                    messages: loaded(before.messages, all.take(i as int)),
                    ..before
                }),
            decreases entries.len() - i,
        {
            proof {
                assert(all.take(i + 1).drop_last() =~= all.take(i as int));
                assert(all.take(i + 1).last() == all[i as int]);
            }
            let entry = &entries[i];
            insert_message(&mut self.messages, entry.0.0, entry.0.1.clone(), entry.1.clone());
            i += 1;
        }
        assert(all.take(i as int) =~= all);
    }

    /// What the cache knows, in no order.
    pub fn entries(&self) -> (r: Vec<((u64, String), StreamNotifMessage)>)
        ensures
            lists_entries(entries_model(r@), self@.messages),
    {
        message_entries(&self.messages)
    }

    /// The notification of a stream in a channel.
    pub fn get(&self, channel_id: u64, stream_id: &str) -> (r: Option<StreamNotifMessage>)
        ensures
            opt_notif(r) == self@.messages.get((channel_id, stream_id@)),
    {
        get_message(&self.messages, channel_id, stream_id)
    }

    /// Remembers the notification of a stream in a channel.
    pub fn insert(&mut self, channel_id: u64, stream_id: String, message: StreamNotifMessage)
        ensures
            final(self)@ == (CacheModel {
                messages: old(self)@.messages.insert((channel_id, stream_id@), message@),
                ..old(self)@
            }),
    {
        insert_message(&mut self.messages, channel_id, stream_id, message);
    }

    /// Forgets the notification of a stream in a channel.
    pub fn remove(&mut self, channel_id: u64, stream_id: &str)
        ensures
            final(self)@ == (CacheModel {
                messages: old(self)@.messages.remove((channel_id, stream_id@)),
                ..old(self)@
            }),
    {
        remove_message(&mut self.messages, channel_id, stream_id);
    }

    /// Whether a channel has been read.
    pub fn is_ready(&self, channel_id: u64) -> (r: bool)
        ensures
            r == self@.ready.contains(channel_id),
    {
        contains_ready(&self.ready, channel_id)
    }

    /// Takes in the notifications that were read from a channel. One that was
    /// written later than the one that is known takes its place. Gives back what
    /// became of each, the last first.
    pub fn merge(&mut self, channel_id: u64, list: &Vec<StreamNotifMessage>) -> (r: Vec<CacheRead>)
        ensures
            r@ == reads(old(self)@.messages, notifs(list@)),
            final(self)@ == (CacheModel {
                messages: merged(old(self)@.messages, notifs(list@)),
                ready: old(self)@.ready.insert(channel_id),
            }),
    {
        let ghost before = self@;
        let ghost all = notifs(list@);
        let mut found: Vec<CacheRead> = Vec::new();
        let mut i: usize = list.len();
        assert(all.skip(i as int) =~= seq![]);
        while i > 0
            invariant
                i <= list.len(),
                all == notifs(list@),
                found@ == reads(before.messages, all.skip(i as int)),
                self@ == (CacheModel {
                    messages: merged(before.messages, all.skip(i as int)),
                    ..before
                }),
            decreases i,
        {
            i -= 1;
            let message = &list[i];
            proof {
                assert(all.skip(i as int).skip(1) =~= all.skip(i + 1));
                assert(all.skip(i as int)[0] == message@);
            }
            let known = get_message(
                &self.messages,
                message.channel_id,
                message.info.stream_id.as_str(),
            );
            let read = match &known {
                Some(k) => if message.touched_timestamp().is_after(&k.touched_timestamp()) {
                    CacheRead::Update
                } else {
                    CacheRead::Hit
                },
                None => CacheRead::Miss,
            };
            found.push(read);
            if read != CacheRead::Hit {
                insert_message(
                    &mut self.messages,
                    message.channel_id,
                    message.info.stream_id.clone(),
                    message.clone(),
                );
            }
        }
        assert(all.skip(0) =~= all);
        insert_ready(&mut self.ready, channel_id);
        found
    }
}

// ---------------------------------------------------------------------------
// Sorting
// ---------------------------------------------------------------------------

/// Whether no notification was sent before the one in front of it.
pub open spec fn in_order(list: Seq<NotifModel>) -> bool {
    forall|i: int, j: int|
        0 <= i < j < list.len() ==> !(#[trigger] list[i]).timestamp.after(
            (#[trigger] list[j]).timestamp,
        )
}

/// The notifications that were sent at a moment.
pub open spec fn sent_at(list: Seq<NotifModel>, t: UtcModel) -> Seq<NotifModel> {
    list.filter(|n: NotifModel| n.timestamp == t)
}

/// Whether `sorted` is `list` in the order in which the notifications were
/// sent; those of the same moment stay in the order in which they stood.
pub open spec fn sorted_by_time(sorted: Seq<NotifModel>, list: Seq<NotifModel>) -> bool {
    &&& in_order(sorted)
    &&& forall|t: UtcModel| #[trigger] sent_at(sorted, t) == sent_at(list, t)
}

proof fn lemma_sent_at_push(list: Seq<NotifModel>, n: NotifModel, t: UtcModel)
    ensures
        sent_at(list.push(n), t) == (if n.timestamp == t {
            sent_at(list, t).push(n)
        } else {
            sent_at(list, t)
        }),
{
    reveal(Seq::filter);
    assert(list.push(n).drop_last() =~= list);
}

proof fn lemma_sent_at_insert(list: Seq<NotifModel>, at: int, n: NotifModel, t: UtcModel)
    requires
        0 <= at <= list.len(),
        forall|j: int| at <= j < list.len() ==> (#[trigger] list[j]).timestamp.after(n.timestamp),
    ensures
        sent_at(list.insert(at, n), t) == (if n.timestamp == t {
            sent_at(list, t).push(n)
        } else {
            sent_at(list, t)
        }),
    decreases list.len() - at,
{
    if at == list.len() {
        assert(list.insert(at, n) =~= list.push(n));
        lemma_sent_at_push(list, n, t);
    } else {
        let init = list.drop_last();
        let last = list.last();
        assert(list[list.len() - 1] == last);
        assert forall|j: int| at <= j < init.len() implies (#[trigger] init[j]).timestamp.after(
            n.timestamp,
        ) by {
            assert(list[j] == init[j]);
        }
        lemma_sent_at_insert(init, at, n, t);
        assert(list.insert(at, n) =~= init.insert(at, n).push(last));
        assert(list =~= init.push(last));
        lemma_sent_at_push(init.insert(at, n), last, t);
        lemma_sent_at_push(init, last, t);
    }
}

proof fn lemma_sent_at_contains(list: Seq<NotifModel>, n: NotifModel)
    requires
        list.contains(n),
    ensures
        sent_at(list, n.timestamp).contains(n),
{
    let i = choose|i: int| 0 <= i < list.len() && list[i] == n;
    list.lemma_filter_contains(|m: NotifModel| m.timestamp == n.timestamp, i);
}

proof fn lemma_sent_at_from(list: Seq<NotifModel>, t: UtcModel, i: int)
    requires
        0 <= i < sent_at(list, t).len(),
    ensures
        list.contains(sent_at(list, t)[i]),
        sent_at(list, t)[i].timestamp == t,
    decreases list.len(),
{
    if list.len() == 0 {
        reveal(Seq::filter);
    } else {
        let init = list.drop_last();
        assert(list =~= init.push(list.last()));
        lemma_sent_at_push(init, list.last(), t);
        if i < sent_at(init, t).len() {
            lemma_sent_at_from(init, t, i);
            let n = sent_at(init, t)[i];
            let j = choose|j: int| 0 <= j < init.len() && init[j] == n;
            assert(list[j] == n);
        } else {
            assert(list[list.len() - 1] == list.last());
        }
    }
}

proof fn lemma_last_not_before(a: Seq<NotifModel>, b: Seq<NotifModel>)
    requires
        in_order(b),
        a.len() > 0,
        forall|t: UtcModel| #[trigger] sent_at(a, t) == sent_at(b, t),
    ensures
        b.len() > 0,
        !a.last().timestamp.after(b.last().timestamp),
{
    let n = a.last();
    assert(a[a.len() - 1] == n);
    lemma_sent_at_contains(a, n);
    let s = sent_at(b, n.timestamp);
    assert(sent_at(a, n.timestamp) == s);
    let i = choose|i: int| 0 <= i < s.len() && s[i] == n;
    lemma_sent_at_from(b, n.timestamp, i);
    let j = choose|j: int| 0 <= j < b.len() && b[j] == n;
    if j < b.len() - 1 {
        assert(!b[j].timestamp.after(b[b.len() - 1].timestamp));
    }
}

/// There is one way to sort.
proof fn lemma_one_order(a: Seq<NotifModel>, b: Seq<NotifModel>)
    requires
        in_order(a),
        in_order(b),
        forall|t: UtcModel| #[trigger] sent_at(a, t) == sent_at(b, t),
    ensures
        a == b,
    decreases a.len(),
{
    if a.len() == 0 {
        if b.len() > 0 {
            lemma_last_not_before(b, a);
        }
        assert(a =~= b);
    } else {
        lemma_last_not_before(a, b);
        lemma_last_not_before(b, a);
        let t = a.last().timestamp;
        assert(b.last().timestamp == t);
        let a0 = a.drop_last();
        let b0 = b.drop_last();
        assert(a =~= a0.push(a.last()));
        assert(b =~= b0.push(b.last()));
        lemma_sent_at_push(a0, a.last(), t);
        lemma_sent_at_push(b0, b.last(), t);
        assert(sent_at(a, t) == sent_at(b, t));
        assert(sent_at(a, t).last() == a.last());
        assert(sent_at(b, t).last() == b.last());
        assert forall|u: UtcModel| #[trigger] sent_at(a0, u) == sent_at(b0, u) by {
            lemma_sent_at_push(a0, a.last(), u);
            lemma_sent_at_push(b0, b.last(), u);
            assert(sent_at(a, u) == sent_at(b, u));
            if u == t {
                assert(sent_at(a, u).drop_last() =~= sent_at(a0, u));
                assert(sent_at(b, u).drop_last() =~= sent_at(b0, u));
            }
        }
        assert forall|i: int, j: int| 0 <= i < j < a0.len() implies !(#[trigger]
        a0[i]).timestamp.after((#[trigger] a0[j]).timestamp) by {
            assert(!a[i].timestamp.after(a[j].timestamp));
        }
        assert forall|i: int, j: int| 0 <= i < j < b0.len() implies !(#[trigger]
        b0[i]).timestamp.after((#[trigger] b0[j]).timestamp) by {
            assert(!b[i].timestamp.after(b[j].timestamp));
        }
        lemma_one_order(a0, b0);
    }
}

/// Notifications in the order in which they were sent.
pub open spec fn time_order(list: Seq<NotifModel>) -> Seq<NotifModel> {
    choose|sorted: Seq<NotifModel>| sorted_by_time(sorted, list)
}

/// What is sorted is the list in the order of time.
pub proof fn lemma_time_order(sorted: Seq<NotifModel>, list: Seq<NotifModel>)
    requires
        sorted_by_time(sorted, list),
    ensures
        sorted == time_order(list),
        forall|n: NotifModel| #[trigger] sorted.contains(n) <==> list.contains(n),
{
    let chosen = time_order(list);
    assert(sorted_by_time(chosen, list));
    assert forall|t: UtcModel| #[trigger] sent_at(sorted, t) == sent_at(chosen, t) by {
        assert(sent_at(chosen, t) == sent_at(list, t));
    }
    lemma_one_order(sorted, chosen);
    assert forall|n: NotifModel| #[trigger] sorted.contains(n) <==> list.contains(n) by {
        assert(sent_at(sorted, n.timestamp) == sent_at(list, n.timestamp));
        if sorted.contains(n) {
            lemma_sent_at_contains(sorted, n);
            let s = sent_at(list, n.timestamp);
            let i = choose|i: int| 0 <= i < s.len() && s[i] == n;
            lemma_sent_at_from(list, n.timestamp, i);
        }
        if list.contains(n) {
            lemma_sent_at_contains(list, n);
            let s = sent_at(sorted, n.timestamp);
            let i = choose|i: int| 0 <= i < s.len() && s[i] == n;
            lemma_sent_at_from(sorted, n.timestamp, i);
        }
    }
}

/// One more notification goes behind those that were not sent after it.
proof fn lemma_sorted_insert(
    sorted: Seq<NotifModel>,
    list: Seq<NotifModel>,
    at: int,
    n: NotifModel,
)
    requires
        sorted_by_time(sorted, list),
        0 <= at <= sorted.len(),
        forall|j: int|
            at <= j < sorted.len() ==> (#[trigger] sorted[j]).timestamp.after(n.timestamp),
        at > 0 ==> !sorted[at - 1].timestamp.after(n.timestamp),
    ensures
        sorted_by_time(sorted.insert(at, n), list.push(n)),
{
    let after = sorted.insert(at, n);
    assert forall|a: int, b: int| 0 <= a < b < after.len() implies !(#[trigger]
    after[a]).timestamp.after((#[trigger] after[b]).timestamp) by {
        let a0 = if a < at {
            a
        } else {
            a - 1
        };
        let b0 = if b < at {
            b
        } else {
            b - 1
        };
        if a != at && b != at {
            assert(!sorted[a0].timestamp.after(sorted[b0].timestamp));
        } else if b == at {
            if a < at - 1 {
                assert(!sorted[a].timestamp.after(sorted[at - 1].timestamp));
            }
        } else {
            assert(sorted[b0].timestamp.after(n.timestamp));
        }
    }
    assert forall|t: UtcModel| #[trigger] sent_at(after, t) == sent_at(list.push(n), t) by {
        assert(sent_at(sorted, t) == sent_at(list, t));
        lemma_sent_at_insert(sorted, at, n, t);
        lemma_sent_at_push(list, n, t);
    }
}

/// Where one more notification goes.
spec fn place(sorted: Seq<NotifModel>, n: NotifModel) -> int
    decreases sorted.len(),
{
    if sorted.len() > 0 && sorted.last().timestamp.after(n.timestamp) {
        place(sorted.drop_last(), n)
    } else {
        sorted.len() as int
    }
}

proof fn lemma_place(sorted: Seq<NotifModel>, n: NotifModel)
    ensures
        0 <= place(sorted, n) <= sorted.len(),
        forall|j: int|
            place(sorted, n) <= j < sorted.len() ==> (#[trigger] sorted[j]).timestamp.after(
                n.timestamp,
            ),
        place(sorted, n) > 0 ==> !sorted[place(sorted, n) - 1].timestamp.after(n.timestamp),
    decreases sorted.len(),
{
    if sorted.len() > 0 && sorted.last().timestamp.after(n.timestamp) {
        let init = sorted.drop_last();
        lemma_place(init, n);
        assert forall|j: int| place(sorted, n) <= j < sorted.len() implies (#[trigger]
        sorted[j]).timestamp.after(n.timestamp) by {
            if j < init.len() {
                assert(init[j] == sorted[j]);
            }
        }
    }
}

/// Every list can be sorted.
pub proof fn lemma_sortable(list: Seq<NotifModel>)
    ensures
        sorted_by_time(time_order(list), list),
    decreases list.len(),
{
    if list.len() == 0 {
        assert(sorted_by_time(list, list));
    } else {
        let init = list.drop_last();
        let n = list.last();
        lemma_sortable(init);
        let sorted = time_order(init);
        lemma_place(sorted, n);
        lemma_sorted_insert(sorted, init, place(sorted, n), n);
        assert(init.push(n) =~= list);
    }
}

/// Sorts notifications by when they were sent.
pub fn sort_by_time(list: &Vec<StreamNotifMessage>) -> (r: Vec<StreamNotifMessage>)
    ensures
        sorted_by_time(notifs(r@), notifs(list@)),
        notifs(r@) == time_order(notifs(list@)),
{
    let mut out: Vec<StreamNotifMessage> = Vec::new();
    let ghost all = notifs(list@);
    let mut i: usize = 0;
    assert(notifs(out@) =~= all.take(0));
    while i < list.len()
        invariant
            i <= list.len(),
            all == notifs(list@),
            sorted_by_time(notifs(out@), all.take(i as int)),
        decreases list.len() - i,
    {
        let message = list[i].clone();
        let ghost before = notifs(out@);
        let mut at: usize = out.len();
        while at > 0 && out[at - 1].timestamp.is_after(&message.timestamp)
            invariant
                at <= out.len(),
                before == notifs(out@),
                forall|j: int|
                    at <= j < before.len() ==> (#[trigger] before[j]).timestamp.after(
                        message@.timestamp,
                    ),
            decreases at,
        {
            at -= 1;
            assert(before[at as int] == out@[at as int]@);
        }
        proof {
            if at > 0 {
                assert(before[at - 1] == out@[at - 1]@);
                assert(!before[at - 1].timestamp.after(message@.timestamp));
            }
        }
        let ghost model = message@;
        out.insert(at, message);
        proof {
            let after = notifs(out@);
            assert(after =~= before.insert(at as int, model));
            assert(all.take(i + 1) =~= all.take(i as int).push(model));
            lemma_sorted_insert(before, all.take(i as int), at as int, model);
        }
        i += 1;
    }
    proof {
        assert(all.take(i as int) =~= all);
        lemma_time_order(notifs(out@), all);
    }
    out
}

// ---------------------------------------------------------------------------
// Laws
// ---------------------------------------------------------------------------

proof fn lemma_loaded(entries: Seq<(CacheKey, NotifModel)>, i: int)
    requires
        0 <= i < entries.len(),
        forall|a: int, b: int|
            0 <= a < b < entries.len() ==> (#[trigger] entries[a]).0 != (#[trigger] entries[b]).0,
    ensures
        loaded(Map::empty(), entries).contains_pair(entries[i].0, entries[i].1),
    decreases entries.len(),
{
    if i < entries.len() - 1 {
        let init = entries.drop_last();
        assert forall|a: int, b: int| 0 <= a < b < init.len() implies (#[trigger] init[a]).0 != (
        #[trigger] init[b]).0 by {
            assert(entries[a].0 != entries[b].0);
        }
        lemma_loaded(init, i);
        assert(entries[i].0 != entries[entries.len() - 1].0);
    }
}

proof fn lemma_loaded_only(entries: Seq<(CacheKey, NotifModel)>, key: CacheKey)
    requires
        loaded(Map::empty(), entries).contains_key(key),
    ensures
        exists|i: int| 0 <= i < entries.len() && (#[trigger] entries[i]).0 == key,
    decreases entries.len(),
{
    if entries.len() > 0 {
        let init = entries.drop_last();
        if key == entries.last().0 {
            assert(entries[entries.len() - 1].0 == key);
        } else {
            lemma_loaded_only(init, key);
            let i = choose|i: int| 0 <= i < init.len() && (#[trigger] init[i]).0 == key;
            assert(entries[i].0 == key);
        }
    }
}

/// A cache that takes in what another one gave out knows what that one knew.
pub proof fn law_cache_survives_a_restart(
    messages: Map<CacheKey, NotifModel>,
    entries: Seq<(CacheKey, NotifModel)>,
)
    requires
        lists_entries(entries, messages),
    ensures
        loaded(Map::empty(), entries) == messages,
{
    let after = loaded(Map::empty(), entries);
    assert forall|k: CacheKey| #[trigger] messages.contains_key(k) implies after.contains_pair(
        k,
        messages[k],
    ) by {
        let i = choose|i: int| 0 <= i < entries.len() && (#[trigger] entries[i]).0 == k;
        assert(messages.contains_pair(entries[i].0, entries[i].1));
        lemma_loaded(entries, i);
    }
    assert forall|k: CacheKey| #[trigger] after.contains_key(k) implies messages.contains_key(
        k,
    ) by {
        lemma_loaded_only(entries, k);
        let i = choose|i: int| 0 <= i < entries.len() && (#[trigger] entries[i]).0 == k;
        assert(messages.contains_pair(entries[i].0, entries[i].1));
    }
    assert(after =~= messages);
}

/// Reading a channel loses nothing: what was known stays known, or gives way
/// to something that was written later.
pub proof fn law_merging_moves_forward(
    messages: Map<CacheKey, NotifModel>,
    list: Seq<NotifModel>,
    key: CacheKey,
)
    requires
        messages.contains_key(key),
    ensures
        merged(messages, list).contains_key(key),
        merged(messages, list)[key] == messages[key] || merged(
            messages,
            list,
        )[key].touched().after(messages[key].touched()),
    decreases list.len(),
{
    if list.len() > 0 {
        law_merging_moves_forward(messages, list.skip(1), key);
    }
}

/// After a channel was read, each notification in it is known, or one of the
/// same stream that was not written earlier.
pub proof fn law_merging_takes_all_in(
    messages: Map<CacheKey, NotifModel>,
    list: Seq<NotifModel>,
    i: int,
)
    requires
        0 <= i < list.len(),
    ensures
        merged(messages, list).contains_key(key_of(list[i])),
        !list[i].touched().after(merged(messages, list)[key_of(list[i])].touched()),
    decreases list.len(),
{
    if i > 0 {
        assert(list.skip(1)[i - 1] == list[i]);
        law_merging_takes_all_in(messages, list.skip(1), i - 1);
    }
}

/// Whether a cache knows something at least as late as each notification.
pub open spec fn knows_all(messages: Map<CacheKey, NotifModel>, list: Seq<NotifModel>) -> bool {
    forall|i: int|
        0 <= i < list.len() ==> messages.contains_key(key_of(#[trigger] list[i]))
            && !list[i].touched().after(messages[key_of(list[i])].touched())
}

proof fn lemma_nothing_to_merge(messages: Map<CacheKey, NotifModel>, list: Seq<NotifModel>)
    requires
        knows_all(messages, list),
    ensures
        merged(messages, list) == messages,
        reads(messages, list) == Seq::new(list.len(), |i: int| CacheRead::Hit),
    decreases list.len(),
{
    if list.len() > 0 {
        let rest = list.skip(1);
        assert forall|i: int| 0 <= i < rest.len() implies messages.contains_key(
            key_of(#[trigger] rest[i]),
        ) && !rest[i].touched().after(messages[key_of(rest[i])].touched()) by {
            assert(rest[i] == list[i + 1]);
        }
        lemma_nothing_to_merge(messages, rest);
        assert(messages.contains_key(key_of(list[0])));
    }
    assert(reads(messages, list) =~= Seq::new(list.len(), |i: int| CacheRead::Hit));
}

/// Reading a channel again, where nothing was written, changes nothing, and
/// finds nothing that was not known.
pub proof fn law_merging_settles(messages: Map<CacheKey, NotifModel>, list: Seq<NotifModel>)
    ensures
        merged(merged(messages, list), list) == merged(messages, list),
        reads(merged(messages, list), list) == Seq::new(list.len(), |i: int| CacheRead::Hit),
{
    let once = merged(messages, list);
    assert forall|i: int| 0 <= i < list.len() implies once.contains_key(
        key_of(#[trigger] list[i]),
    ) && !list[i].touched().after(once[key_of(list[i])].touched()) by {
        law_merging_takes_all_in(messages, list, i);
    }
    lemma_nothing_to_merge(once, list);
}

/// Whether each notification stands under its channel and its stream.
pub open spec fn well_keyed(messages: Map<CacheKey, NotifModel>) -> bool {
    forall|k: CacheKey| #[trigger] messages.contains_key(k) ==> key_of(messages[k]) == k
}

/// Reading a channel puts each notification where it belongs.
pub proof fn law_merging_keeps_keys(messages: Map<CacheKey, NotifModel>, list: Seq<NotifModel>)
    requires
        well_keyed(messages),
    ensures
        well_keyed(merged(messages, list)),
    decreases list.len(),
{
    if list.len() > 0 {
        law_merging_keeps_keys(messages, list.skip(1));
    }
}

/// Whether a moment is later than another.
pub open spec fn later(a: UtcModel, b: UtcModel) -> bool {
    a.secs > b.secs || (a.secs == b.secs && a.nanos > b.nanos)
}

/// A notification that is read takes the place of an earlier one of its channel and its
/// stream, or of none; one that is no later than what is known changes nothing. It is
/// counted as what it was.
pub proof fn law_what_reading_does(messages: Map<CacheKey, NotifModel>, n: NotifModel)
    ensures
        ({
            let key = (n.channel_id, n.info.stream_id);
            let after = with_read(messages, n);
            &&& !messages.contains_key(key) ==> read_of(messages, n) is Miss && after
                == messages.insert(key, n)
            &&& messages.contains_key(key) && later(n.touched(), messages[key].touched())
                ==> read_of(messages, n) is Update && after == messages.insert(key, n)
            &&& messages.contains_key(key) && !later(n.touched(), messages[key].touched())
                ==> read_of(messages, n) is Hit && after == messages
        }),
{
}

/// Notifications are read one by one, the last first, and each is counted.
pub proof fn law_the_last_is_read_first(
    messages: Map<CacheKey, NotifModel>,
    n: NotifModel,
    rest: Seq<NotifModel>,
)
    ensures
        merged(messages, seq![]) == messages,
        merged(messages, seq![n] + rest) == with_read(merged(messages, rest), n),
        reads(messages, seq![]) == Seq::<CacheRead>::empty(),
        reads(messages, seq![n] + rest) == reads(messages, rest).push(
            read_of(merged(messages, rest), n),
        ),
{
    assert((seq![n] + rest).skip(1) =~= rest);
}

/// What is known after a channel was read was known before, or was read there.
pub proof fn law_merging_invents_nothing(
    messages: Map<CacheKey, NotifModel>,
    list: Seq<NotifModel>,
    key: CacheKey,
)
    requires
        merged(messages, list).contains_key(key),
    ensures
        messages.contains_pair(key, merged(messages, list)[key]) || (list.contains(
            merged(messages, list)[key],
        ) && merged(messages, list)[key].channel_id == key.0 && merged(
            messages,
            list,
        )[key].info.stream_id == key.1),
    decreases list.len(),
{
    if list.len() > 0 {
        let rest = list.skip(1);
        let before = merged(messages, rest);
        if before.contains_key(key) {
            law_merging_invents_nothing(messages, rest, key);
            if rest.contains(before[key]) {
                let j = choose|j: int| 0 <= j < rest.len() && rest[j] == before[key];
                assert(list[j + 1] == before[key]);
            }
        }
        assert(list[0] == list[0] && list.contains(list[0]));
    }
}

/// Sorted notifications are those that were there, the earlier before the later.
pub proof fn law_sorted_by_time(list: Seq<NotifModel>, n: NotifModel, i: int, j: int)
    ensures
        time_order(list).contains(n) <==> list.contains(n),
        0 <= i < j < time_order(list).len() ==> !later(
            time_order(list)[i].timestamp,
            time_order(list)[j].timestamp,
        ),
{
    lemma_sortable(list);
    lemma_time_order(time_order(list), list);
    assert(time_order(list).contains(n) <==> list.contains(n));
    if 0 <= i < j < time_order(list).len() {
        assert(!time_order(list)[i].timestamp.after(time_order(list)[j].timestamp));
    }
}

/// Notifications of the same moment stay in the order in which they were, and as many
/// as there were.
pub proof fn law_sorting_is_stable(list: Seq<NotifModel>, t: UtcModel)
    ensures
        time_order(list).filter(|n: NotifModel| n.timestamp == t) == list.filter(
            |n: NotifModel| n.timestamp == t,
        ),
{
    lemma_sortable(list);
    assert(sent_at(time_order(list), t) == sent_at(list, t));
}

/// Entries that are taken in stand under their keys, the last one where there are
/// several; what was known of other keys stays.
pub proof fn law_entries_are_taken_in(
    messages: Map<CacheKey, NotifModel>,
    entries: Seq<(CacheKey, NotifModel)>,
    key: CacheKey,
    n: NotifModel,
)
    ensures
        loaded(messages, seq![]) == messages,
        loaded(messages, entries.push((key, n))) == loaded(messages, entries).insert(key, n),
{
    assert(entries.push((key, n)).drop_last() =~= entries);
}

/// What became of notifications is counted under three names.
pub proof fn law_reads_are_counted_apart(a: CacheRead, b: CacheRead)
    ensures
        read_text(a) == read_text(b) <==> a == b,
        read_text(CacheRead::Miss) == "miss"@,
        read_text(CacheRead::Update) == "update"@,
        read_text(CacheRead::Hit) == "hit"@,
{
    reveal_strlit("miss");
    reveal_strlit("update");
    reveal_strlit("hit");
    assert("miss"@.len() == 4);
    assert("update"@.len() == 6);
    assert("hit"@.len() == 3);
}

} // verus!
