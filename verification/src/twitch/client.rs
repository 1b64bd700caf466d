//! Who is live: the state of each streamer, and what to tell when it changes.

use dashmap::DashMap;
use vstd::prelude::*;

use crate::maps::lists_entries;
use crate::text::opt_text;
use crate::twitch::look::{new_look, SyncModel, SyncRun};
use crate::twitch::types::{
    copy_video, lists_keys, opt_notification, opt_video, texts, Broadcasters, ChannelModel, Live,
    LiveModel, Notification, NotificationModel, Stream, Video,
};

verus! {

// ---------------------------------------------------------------------------
// The maps
// ---------------------------------------------------------------------------

/// When each event was last let through, in nanoseconds.
pub uninterp spec fn seen_at(m: DashMap<String, u64>) -> Map<Seq<char>, u64>;

/// What entries of events hold.
pub open spec fn seen_entries_model(list: Seq<(String, u64)>) -> Seq<(Seq<char>, u64)> {
    list.map_values(|e: (String, u64)| (e.0@, e.1))
}

/// `dashmap::DashMap::new`, for events.
///
/// Trusted: the map is empty.
#[verifier::external_body]
fn new_seen() -> (r: DashMap<String, u64>)
    ensures
        seen_at(r).dom().is_empty(),
{
    DashMap::new()
}

/// `dashmap::DashMap::get`, for events.
///
/// Trusted: it is the value under the key, if there is one.
#[verifier::external_body]
fn get_seen(m: &DashMap<String, u64>, id: &str) -> (r: Option<u64>)
    ensures
        r == seen_at(*m).get(id@),
{
    m.get(id).map(|e| *e.value())
}

/// `dashmap::DashMap::insert`, for events.
///
/// Trusted: the key maps to the value afterwards, and nothing else changes.
#[verifier::external_body]
fn insert_seen(m: &mut DashMap<String, u64>, id: String, at: u64)
    ensures
        seen_at(*final(m)) == seen_at(*old(m)).insert(id@, at),
{
    m.insert(id, at);
}

/// `dashmap::DashMap::remove`, for events.
///
/// Trusted: the key is gone afterwards, and nothing else changes.
#[verifier::external_body]
fn remove_seen(m: &mut DashMap<String, u64>, id: &str)
    ensures
        seen_at(*final(m)) == seen_at(*old(m)).remove(id@),
{
    m.remove(id);
}

/// `dashmap::DashMap::iter`, for events.
///
/// Trusted: it gives each entry once. The order is left unsaid.
#[verifier::external_body]
fn seen_entries(m: &DashMap<String, u64>) -> (r: Vec<(String, u64)>)
    ensures
        lists_entries(seen_entries_model(r@), seen_at(*m)),
{
    m.iter().map(|e| (e.key().clone(), *e.value())).collect()
}

/// The streams that are live, by user.
pub uninterp spec fn live_state(m: DashMap<String, Live>) -> Map<Seq<char>, LiveModel>;

/// What optional streams hold.
pub open spec fn opt_live(r: Option<Live>) -> Option<LiveModel> {
    match r {
        Some(live) => Some(live@),
        None => None,
    }
}

/// What entries of live streams hold.
pub open spec fn live_entries_model(list: Seq<(String, Live)>) -> Seq<(Seq<char>, LiveModel)> {
    list.map_values(|e: (String, Live)| (e.0@, e.1@))
}

/// `dashmap::DashMap::new`, for streams.
///
/// Trusted: the map is empty.
#[verifier::external_body]
fn new_state() -> (r: DashMap<String, Live>)
    ensures
        live_state(r).dom().is_empty(),
{
    DashMap::new()
}

/// `dashmap::DashMap::get`, for streams.
///
/// Trusted: it is the value under the key, if there is one.
#[verifier::external_body]
fn get_state(m: &DashMap<String, Live>, user_id: &str) -> (r: Option<Live>)
    ensures
        opt_live(r) == live_state(*m).get(user_id@),
{
    m.get(user_id).map(|e| e.value().clone())
}

/// `dashmap::DashMap::insert`, for streams.
///
/// Trusted: the key maps to the value afterwards, and nothing else changes.
#[verifier::external_body]
fn insert_state(m: &mut DashMap<String, Live>, user_id: String, live: Live)
    ensures
        live_state(*final(m)) == live_state(*old(m)).insert(user_id@, live@),
{
    m.insert(user_id, live);
}

/// `dashmap::DashMap::remove`, for streams.
///
/// Trusted: the key is gone afterwards, nothing else changes, and the value
/// that stood under it is returned.
#[verifier::external_body]
fn remove_state(m: &mut DashMap<String, Live>, user_id: &str) -> (r: Option<Live>)
    ensures
        live_state(*final(m)) == live_state(*old(m)).remove(user_id@),
        opt_live(r) == live_state(*old(m)).get(user_id@),
{
    m.remove(user_id).map(|e| e.1)
}

/// `dashmap::DashMap::iter`, for streams.
///
/// Trusted: it gives each entry once. The order is left unsaid.
#[verifier::external_body]
fn state_entries(m: &DashMap<String, Live>) -> (r: Vec<(String, Live)>)
    ensures
        lists_entries(live_entries_model(r@), live_state(*m)),
{
    m.iter().map(|e| (e.key().clone(), e.value().clone())).collect()
}

// ---------------------------------------------------------------------------
// Events, each once
// ---------------------------------------------------------------------------

/// Ten minutes, in nanoseconds: how long an event is remembered.
pub const SEEN_NANOS: u64 = 600_000_000_000;

/// How often old events are forgotten, in seconds.
pub const PRUNE_SECS: u64 = 600;

/// How often everyone is looked at, in seconds.
pub const FULL_SYNC_SECS: u64 = 600;

/// How often those who are live are looked at, in seconds.
pub const LIVE_SYNC_SECS: u64 = 60;

/// How long ago `at` was, nothing where it lies ahead.
pub open spec fn age(now: u64, at: u64) -> int {
    if now >= at {
        now - at
    } else {
        0
    }
}

/// Whether an event was let through less than ten minutes ago.
pub open spec fn recently_seen(seen: Map<Seq<char>, u64>, id: Seq<char>, now: u64) -> bool {
    seen.contains_key(id) && age(now, seen[id]) < SEEN_NANOS
}

/// The events that were let through no longer than ten minutes ago.
pub open spec fn pruned(seen: Map<Seq<char>, u64>, now: u64) -> Map<Seq<char>, u64> {
    Map::new(
        |id: Seq<char>| seen.contains_key(id) && age(now, seen[id]) <= SEEN_NANOS,
        |id: Seq<char>| seen[id],
    )
}

/// An event that was let through before.
#[derive(Clone, Copy, Debug, PartialEq, Eq, Structural)]
pub struct PreviouslySeen;

fn nanos_between(now: u64, at: u64) -> (r: u64)
    ensures
        r == age(now, at),
{
    if now >= at {
        now - at
    } else {
        0
    }
}

// ---------------------------------------------------------------------------
// Streams
// ---------------------------------------------------------------------------

/// What a stream that was found live makes of the state.
pub open spec fn after_observed(state: Map<Seq<char>, LiveModel>, live: LiveModel) -> Map<
    Seq<char>,
    LiveModel,
> {
    state.insert(live.stream.user_id, live)
}

/// What there is to tell of a stream that was found live: that it began, that
/// it changed, or nothing.
pub open spec fn observed_news(state: Map<Seq<char>, LiveModel>, live: LiveModel) -> Option<
    NotificationModel,
> {
    match state.get(live.stream.user_id) {
        None => Some(NotificationModel::Online(live)),
        Some(before) => if before == live {
            None
        } else {
            Some(NotificationModel::Update(live))
        },
    }
}

/// Whether each stream stands under its user.
pub open spec fn keyed_by_user(state: Map<Seq<char>, LiveModel>) -> bool {
    forall|id: Seq<char>| #[trigger]
        state.contains_key(id) ==> state[id].stream.user_id == id
}

/// Whether `list` holds the streams of the state, each once.
pub open spec fn lists_live(list: Seq<LiveModel>, state: Map<Seq<char>, LiveModel>) -> bool {
    &&& forall|i: int|
        0 <= i < list.len() ==> state.contains_pair(
            (#[trigger] list[i]).stream.user_id,
            list[i],
        )
    &&& forall|i: int, j: int|
        0 <= i < j < list.len() ==> (#[trigger] list[i]).stream.user_id != (#[trigger]
        list[j]).stream.user_id
    &&& forall|id: Seq<char>| #[trigger]
        state.contains_key(id) ==> exists|i: int|
            0 <= i < list.len() && (#[trigger] list[i]).stream.user_id == id
}

/// Users and streams, side by side.
pub open spec fn pairs_up(ids: Seq<Seq<char>>, list: Seq<LiveModel>) -> Seq<
    (Seq<char>, LiveModel),
> {
    Seq::new(list.len(), |i: int| (ids[i], list[i]))
}

/// Whether `list` holds what stands under each user, once.
pub open spec fn lists_values(list: Seq<LiveModel>, state: Map<Seq<char>, LiveModel>) -> bool {
    exists|ids: Seq<Seq<char>>| lists_entries(#[trigger] pairs_up(ids, list), state)
}

proof fn lemma_lists_live(
    ids: Seq<Seq<char>>,
    list: Seq<LiveModel>,
    state: Map<Seq<char>, LiveModel>,
)
    requires
        lists_entries(pairs_up(ids, list), state),
        keyed_by_user(state),
    ensures
        lists_live(list, state),
{
    let entries = pairs_up(ids, list);
    assert forall|i: int| 0 <= i < list.len() implies state.contains_pair(
        (#[trigger] list[i]).stream.user_id,
        list[i],
    ) && list[i].stream.user_id == ids[i] by {
        assert(state.contains_pair(entries[i].0, entries[i].1));
    }
    assert forall|i: int, j: int| 0 <= i < j < list.len() implies (#[trigger]
    list[i]).stream.user_id != (#[trigger] list[j]).stream.user_id by {
        assert(entries[i].0 != entries[j].0);
    }
    assert forall|id: Seq<char>| #[trigger] state.contains_key(id) implies exists|i: int|
        0 <= i < list.len() && (#[trigger] list[i]).stream.user_id == id by {
        let j = choose|j: int| 0 <= j < entries.len() && (#[trigger] entries[j]).0 == id;
        assert(list[j].stream.user_id == id);
    }
}

/// What a list of streams holds.
pub open spec fn lives(list: Seq<Live>) -> Seq<LiveModel> {
    list.map_values(|l: Live| l@)
}

/// Whom the client watches, who of them is live, and what it has heard.
#[verifier::ext_equal]
pub struct ClientModel {
    pub broadcaster_ids: Map<Seq<char>, ChannelModel>,
    pub curr_client_id: Option<Seq<char>>,
    pub seen: Map<Seq<char>, u64>,
    pub state: Map<Seq<char>, LiveModel>,
}

/// What to do about the access token.
#[derive(Clone, Copy, Debug, PartialEq, Eq, Structural)]
pub enum TokenStep {
    Keep,
    Refresh,
}

/// What to do about an access token that is good for so many seconds.
pub open spec fn token_step(expires_in_secs: u64) -> TokenStep {
    if expires_in_secs < 600 {
        TokenStep::Refresh
    } else {
        TokenStep::Keep
    }
}

pub struct InnerOnlineClient {
    broadcaster_ids: Broadcasters,
    curr_client_id: Option<String>,
    /// Twitch does not promise to deliver an event only once, and asks to
    /// tell events apart by their identifier.
    seen: DashMap<String, u64>,
    state: DashMap<String, Live>,
}

impl View for InnerOnlineClient {
    type V = ClientModel;

    closed spec fn view(&self) -> ClientModel {
        ClientModel {
            broadcaster_ids: self.broadcaster_ids@,
            curr_client_id: opt_text(self.curr_client_id),
            seen: seen_at(self.seen),
            state: live_state(self.state),
        }
    }
}

impl ClientModel {
    /// Each stream stands under its user.
    pub open spec fn wf(self) -> bool {
        keyed_by_user(self.state)
    }
}

/// What a client knows that has heard nothing yet.
pub open spec fn new_client(broadcaster_ids: Map<Seq<char>, ChannelModel>) -> ClientModel {
    ClientModel {
        broadcaster_ids,
        curr_client_id: None,
        seen: Map::empty(),
        state: Map::empty(),
    }
}

/// Whether a look that has yet to begin is at everyone whom the client watches.
pub open spec fn looks_at_all(look: SyncModel, client: ClientModel) -> bool {
    lists_keys(look.keys, client.broadcaster_ids.dom()) && look == new_look(look.keys)
}

/// Whether a look that has yet to begin is at everyone who is live.
pub open spec fn looks_at_live(look: SyncModel, client: ClientModel) -> bool {
    lists_keys(look.keys, client.state.dom()) && look == new_look(look.keys)
}

impl InnerOnlineClient {
    /// A client that has heard nothing yet.
    pub fn new(broadcaster_ids: Broadcasters) -> (r: InnerOnlineClient)
        ensures
            r@ == new_client(broadcaster_ids@),
            r@ == (ClientModel {
                broadcaster_ids: broadcaster_ids@,
                curr_client_id: None,
                seen: Map::empty(),
                state: Map::empty(),
            }),
            r@.wf(),
    {
        let r = InnerOnlineClient {
            broadcaster_ids,
            curr_client_id: None,
            seen: new_seen(),
            state: new_state(),
        };
        assert(r@.seen =~= Map::empty());
        assert(r@.state =~= Map::empty());
        r
    }

    /// The channels that the client watches.
    pub fn broadcaster_ids(&self) -> (r: &Broadcasters)
        ensures
            r@ == self@.broadcaster_ids,
    {
        &self.broadcaster_ids
    }

    /// The session that events are delivered to.
    pub fn curr_client_id(&self) -> (r: Option<&str>)
        ensures
            match r {
                Some(s) => self@.curr_client_id == Some(s@),
                None => self@.curr_client_id is None,
            },
    {
        match &self.curr_client_id {
            Some(s) => Some(s.as_str()),
            None => None,
        }
    }

    /// Sets the session that events are delivered to.
    pub fn set_client_id(&mut self, id: String)
        ensures
            final(self)@ == (ClientModel { curr_client_id: Some(id@), ..old(self)@ }),
    {
        self.curr_client_id = Some(id);
    }

    /// Lets an event through, once in ten minutes.
    pub fn dedupe(&mut self, id: String, now: u64) -> (r: Result<(), PreviouslySeen>)
        ensures
            r is Err <==> recently_seen(old(self)@.seen, id@, now),
            r is Err ==> final(self)@ == old(self)@,
            r is Ok ==> final(self)@ == (ClientModel {
                seen: old(self)@.seen.insert(id@, now),
                ..old(self)@
            }),
    {
        if let Some(at) = get_seen(&self.seen, id.as_str()) {
            if nanos_between(now, at) < SEEN_NANOS {
                return Err(PreviouslySeen);
            }
        }
        insert_seen(&mut self.seen, id, now);
        Ok(())
    }

    /// Forgets the events that are older than ten minutes.
    pub fn prune(&mut self, now: u64)
        ensures
            final(self)@ == (ClientModel { seen: pruned(old(self)@.seen, now), ..old(self)@ }),
    {
        let entries = seen_entries(&self.seen);
        let ghost list = seen_entries_model(entries@);
        let ghost before = self@;
        let mut i: usize = 0;
        while i < entries.len()
            invariant
                i <= entries.len(),
                list == seen_entries_model(entries@),
                lists_entries(list, before.seen),
                self@ == (ClientModel { seen: self@.seen, ..before }),
                forall|k: Seq<char>|
                    self@.seen.contains_key(k) <==> before.seen.contains_key(k) && !(exists|j: int|
                        0 <= j < i && (#[trigger] list[j]).0 == k && age(now, list[j].1)
                            > SEEN_NANOS),
                forall|k: Seq<char>| #[trigger]
                    self@.seen.contains_key(k) ==> self@.seen[k] == before.seen[k],
            decreases entries.len() - i,
        {
            assert(list[i as int] == (entries[i as int].0@, entries[i as int].1));
            if nanos_between(now, entries[i].1) > SEEN_NANOS {
                remove_seen(&mut self.seen, entries[i].0.as_str());
            }
            i += 1;
        }
        proof {
            let target = pruned(before.seen, now);
            assert forall|k: Seq<char>|
                self@.seen.contains_key(k) <==> #[trigger] target.contains_key(k) by {
                if before.seen.contains_key(k) {
                    let j = choose|j: int| 0 <= j < list.len() && (#[trigger] list[j]).0 == k;
                    assert(list[j].1 == before.seen[k]);
                }
            }
            assert(self@.seen =~= target);
        }
    }

    /// Whether the access token is to be refreshed: it is once it has less
    /// than ten minutes left.
    pub fn maybe_refresh_token(&self, expires_in_secs: u64) -> (r: TokenStep)
        ensures
            r == token_step(expires_in_secs),
            r == (if expires_in_secs >= 600 {
                TokenStep::Keep
            } else {
                TokenStep::Refresh
            }),
    {
        if expires_in_secs >= 600 {
            TokenStep::Keep
        } else {
            TokenStep::Refresh
        }
    }

    /// Begins a look at one user, about whom an event came in.
    pub fn notify(&self, updated: String) -> (r: SyncRun)
        ensures
            r@ == new_look(seq![updated@]),
    {
        let keys = vec![updated];
        assert(texts(keys@) =~= seq![updated@]);
        self.do_sync(keys)
    }

    /// Begins a look at everyone, in case an event was missed.
    pub fn full_sync(&self) -> (r: SyncRun)
        ensures
            looks_at_all(r@, self@),
            lists_keys(r@.keys, self@.broadcaster_ids.dom()),
            r@ == new_look(r@.keys),
    {
        self.do_sync(self.broadcaster_ids.ids())
    }

    /// Begins a look at those who are live, whose title or game may change.
    pub fn sync_live(&self) -> (r: SyncRun)
        ensures
            looks_at_live(r@, self@),
            lists_keys(r@.keys, self@.state.dom()),
            r@ == new_look(r@.keys),
    {
        let entries = state_entries(&self.state);
        let ghost list = live_entries_model(entries@);
        let mut keys: Vec<String> = Vec::new();
        let mut i: usize = 0;
        while i < entries.len()
            invariant
                i <= entries.len(),
                keys@.len() == i,
                forall|j: int| 0 <= j < i ==> (#[trigger] keys@[j])@ == entries@[j].0@,
            decreases entries.len() - i,
        {
            keys.push(entries[i].0.clone());
            i += 1;
        }
        proof {
            let ids = texts(keys@);
            assert forall|i: int| 0 <= i < ids.len() implies ids[i] == (#[trigger] list[i]).0 by {
                assert(keys@[i]@ == entries@[i].0@);
            }
            assert forall|i: int| 0 <= i < ids.len() implies self@.state.dom().contains(
                #[trigger] ids[i],
            ) by {
                assert(self@.state.contains_pair(list[i].0, list[i].1));
            }
            assert forall|i: int, j: int| 0 <= i < j < ids.len() implies ids[i] != ids[j] by {
                assert(list[i].0 != list[j].0);
            }
            assert forall|k: Seq<char>| #[trigger] self@.state.dom().contains(
                k,
            ) implies ids.contains(k) by {
                assert(self@.state.contains_key(k));
                let j = choose|j: int| 0 <= j < list.len() && (#[trigger] list[j]).0 == k;
                assert(ids[j] == k);
            }
        }
        self.do_sync(keys)
    }

    /// Begins a look at some users.
    pub fn do_sync(&self, keys: Vec<String>) -> (r: SyncRun)
        ensures
            r@ == new_look(texts(keys@)),
    {
        SyncRun::new(keys)
    }

    /// Takes in a stream that was found live, and says what there is to tell.
    pub(crate) fn observe(&mut self, stream: Stream, video: Option<Video>) -> (r: Option<
        Notification,
    >)
        ensures
            ({
                let live = LiveModel { stream: stream@, video: opt_video(video) };
                &&& final(self)@ == (ClientModel {
                    state: after_observed(old(self)@.state, live),
                    ..old(self)@
                })
                &&& opt_notification(r) == observed_news(old(self)@.state, live)
            }),
    {
        let ghost model = LiveModel { stream: stream@, video: opt_video(video) };
        let ghost before = self@;
        match get_state(&self.state, stream.user_id.as_str()) {
            Some(orig) => {
                let live = Live { stream: stream.clone(), video: copy_video(&video) };
                if !orig.equals(&live) {
                    insert_state(&mut self.state, stream.user_id.clone(), live);
                    Some(Notification::Update(stream, video))
                } else {
                    assert(self@.state =~= after_observed(before.state, model));
                    None
                }
            },
            None => {
                let live = Live { stream: stream.clone(), video: copy_video(&video) };
                insert_state(&mut self.state, stream.user_id.clone(), live);
                Some(Notification::Online(stream, video))
            },
        }
    }

    /// Drops a user who is not live any more. Gives back the stream that was.
    pub(crate) fn remove_live(&mut self, user_id: &str) -> (r: Option<Live>)
        ensures
            final(self)@ == (ClientModel {
                state: old(self)@.state.remove(user_id@),
                ..old(self)@
            }),
            opt_live(r) == old(self)@.state.get(user_id@),
    {
        remove_state(&mut self.state, user_id)
    }

    /// The streams that are live, in no order.
    pub fn live_streams(&self) -> (r: Vec<Live>)
        ensures
            lists_values(lives(r@), self@.state),
            self@.wf() ==> lists_live(lives(r@), self@.state),
    {
        let entries = state_entries(&self.state);
        let ghost list = live_entries_model(entries@);
        let mut out: Vec<Live> = Vec::new();
        let mut i: usize = 0;
        while i < entries.len()
            invariant
                i <= entries.len(),
                out@.len() == i,
                forall|j: int| 0 <= j < i ==> (#[trigger] out@[j])@ == entries@[j].1@,
            decreases entries.len() - i,
        {
            out.push(entries[i].1.clone());
            i += 1;
        }
        proof {
            let all = lives(out@);
            let ids = list.map_values(|e: (Seq<char>, LiveModel)| e.0);
            assert forall|i: int| 0 <= i < all.len() implies (#[trigger] all[i]) == list[i].1 by {
                assert(out@[i]@ == entries@[i].1@);
            }
            assert(pairs_up(ids, all) =~= list);
            assert(lists_entries(pairs_up(ids, all), self@.state));
            if self@.wf() {
                lemma_lists_live(ids, all, self@.state);
            }
        }
        out
    }
}

// ---------------------------------------------------------------------------
// Laws
// ---------------------------------------------------------------------------

/// An event that was let through is not let through again for ten minutes,
/// and is after that.
pub proof fn law_once_in_ten_minutes(
    seen: Map<Seq<char>, u64>,
    id: Seq<char>,
    first: u64,
    again: u64,
)
    requires
        first <= again,
    ensures
        recently_seen(seen.insert(id, first), id, again) <==> again - first < 600_000_000_000,
{
}

/// An event that is let through does not touch what is known of the others.
pub proof fn law_events_are_independent(
    seen: Map<Seq<char>, u64>,
    id: Seq<char>,
    other: Seq<char>,
    first: u64,
    again: u64,
)
    requires
        id != other,
    ensures
        recently_seen(seen.insert(id, first), other, again) == recently_seen(seen, other, again),
{
}

/// Forgetting old events lets none through that would have been held back.
pub proof fn law_pruning_is_invisible(
    seen: Map<Seq<char>, u64>,
    id: Seq<char>,
    at: u64,
    later: u64,
)
    requires
        at <= later,
    ensures
        recently_seen(pruned(seen, at), id, later) == recently_seen(seen, id, later),
{
}

/// An event that never came was not seen, and one that was let through at a time
/// that lies ahead was.
pub proof fn law_only_what_came_was_seen(seen: Map<Seq<char>, u64>, id: Seq<char>, now: u64)
    ensures
        !seen.contains_key(id) ==> !recently_seen(seen, id, now),
        seen.contains_key(id) && now <= seen[id] ==> recently_seen(seen, id, now),
{
}

/// What is more than ten minutes old is forgotten, and nothing else is.
pub proof fn law_old_events_are_forgotten(seen: Map<Seq<char>, u64>, id: Seq<char>, now: u64)
    ensures
        pruned(seen, now).contains_key(id) <==> seen.contains_key(id) && now - seen[id]
            <= 600_000_000_000,
        pruned(seen, now).contains_key(id) ==> pruned(seen, now)[id] == seen[id],
{
}

/// A token is refreshed once it has less than ten minutes left, and no sooner.
pub proof fn law_tokens_are_refreshed_in_time(secs: u64)
    ensures
        token_step(secs) is Refresh <==> secs < 10 * 60,
{
}

/// A stream of someone who was not live began; one that was known has changed if
/// anything about it differs, and there is nothing to tell of it otherwise. Whatever
/// there is to tell, it is of that stream as it is now.
pub proof fn law_what_there_is_to_tell(state: Map<Seq<char>, LiveModel>, live: LiveModel)
    ensures
        ({
            let user = live.stream.user_id;
            let news = observed_news(state, live);
            &&& !state.contains_key(user) <==> news == Some(NotificationModel::Online(live))
            &&& state.contains_key(user) && state[user] != live <==> news == Some(
                NotificationModel::Update(live),
            )
            &&& state.contains_key(user) && state[user] == live <==> news is None
        }),
{
}

/// A stream that was found live is what is known of its user, and nothing else
/// changes.
pub proof fn law_a_live_stream_is_known(
    state: Map<Seq<char>, LiveModel>,
    live: LiveModel,
    other: Seq<char>,
)
    ensures
        after_observed(state, live).contains_pair(live.stream.user_id, live),
        other != live.stream.user_id ==> after_observed(state, live).get(other) == state.get(other),
{
}

/// A list of what is live holds each user's stream, and nothing that is not.
pub proof fn law_all_that_is_live_is_listed(
    list: Seq<LiveModel>,
    state: Map<Seq<char>, LiveModel>,
    user: Seq<char>,
    live: LiveModel,
)
    requires
        lists_values(list, state),
    ensures
        state.contains_pair(user, live) ==> list.contains(live),
        list.contains(live) ==> exists|id: Seq<char>| state.contains_pair(id, live),
{
    let ids = choose|ids: Seq<Seq<char>>| lists_entries(#[trigger] pairs_up(ids, list), state);
    let entries = pairs_up(ids, list);
    if state.contains_pair(user, live) {
        let j = choose|j: int| 0 <= j < entries.len() && (#[trigger] entries[j]).0 == user;
        assert(state.contains_pair(entries[j].0, entries[j].1));
        assert(list[j] == live);
    }
    if list.contains(live) {
        let j = choose|j: int| 0 <= j < list.len() && list[j] == live;
        assert(state.contains_pair(entries[j].0, entries[j].1));
    }
}

/// A look at everyone asks about each broadcaster whom the client watches, and a look at
/// the live about each user who is; about nobody else, and about nobody twice.
pub proof fn law_whom_looks_ask_about(
    all: SyncModel,
    live: SyncModel,
    client: ClientModel,
    id: Seq<char>,
)
    requires
        looks_at_all(all, client),
        looks_at_live(live, client),
    ensures
        all.keys.contains(id) <==> client.broadcaster_ids.contains_key(id),
        live.keys.contains(id) <==> client.state.contains_key(id),
        all.keys.no_duplicates(),
        live.keys.no_duplicates(),
        all.observed == Set::<Seq<char>>::empty(),
        live.observed == Set::<Seq<char>>::empty(),
        all.next == 0,
        live.next == 0,
{
    if client.broadcaster_ids.contains_key(id) {
        assert(client.broadcaster_ids.dom().contains(id));
    }
    if client.state.contains_key(id) {
        assert(client.state.dom().contains(id));
    }
}

/// Those who are live are looked at every minute, and everyone every ten minutes; so often
/// are old events forgotten, too.
pub proof fn law_how_often_to_look()
    ensures
        LIVE_SYNC_SECS == 60,
        FULL_SYNC_SECS == 10 * 60,
        PRUNE_SECS == 10 * 60,
        SEEN_NANOS == 10 * 60 * 1_000_000_000,
{
}

/// A client begins with the channels that it watches: nobody is live, no event was seen, and
/// events are delivered to no session.
pub proof fn law_how_clients_begin(
    broadcaster_ids: Map<Seq<char>, ChannelModel>,
    id: Seq<char>,
    now: u64,
)
    ensures
        ({
            let client = new_client(broadcaster_ids);
            &&& client.broadcaster_ids == broadcaster_ids
            &&& client.curr_client_id is None
            &&& !recently_seen(client.seen, id, now)
            &&& !client.state.contains_key(id)
            &&& client.wf()
        }),
{
}

} // verus!
