//! A look at some users: who of them is live, what changed, and whose stream is
//! over.

use vstd::prelude::*;

use crate::maps::lemma_push_contains;
use crate::text::same;
use crate::twitch::client::{
    after_observed, keyed_by_user, observed_news, ClientModel, InnerOnlineClient,
};
use crate::twitch::types::{
    opt_video, texts, LiveModel, Notification, NotificationModel, Stream, StreamModel, Video,
    VideoModel,
};

verus! {

/// How far a look is.
pub enum LookPhaseModel {
    Listing,
    FindingVideo(StreamModel),
    Telling,
    Ending,
    Finished,
}

/// How far a look is.
#[derive(Debug)]
enum LookPhase {
    /// The streams that are live are being listed.
    Listing,
    /// A stream was listed, and its recording is being looked for.
    FindingVideo(Stream),
    /// There is news of a stream that was listed.
    Telling,
    /// There is news of a stream that is over.
    Ending,
    /// It is over.
    Finished,
}

impl View for LookPhase {
    type V = LookPhaseModel;

    closed spec fn view(&self) -> LookPhaseModel {
        match *self {
            LookPhase::Listing => LookPhaseModel::Listing,
            LookPhase::FindingVideo(stream) => LookPhaseModel::FindingVideo(stream@),
            LookPhase::Telling => LookPhaseModel::Telling,
            LookPhase::Ending => LookPhaseModel::Ending,
            LookPhase::Finished => LookPhaseModel::Finished,
        }
    }
}

/// A look at some users: which are asked about, which were found live, how far
/// the others have been gone through, and how far the look is.
#[verifier::ext_equal]
pub struct SyncModel {
    pub keys: Seq<Seq<char>>,
    pub observed: Set<Seq<char>>,
    pub next: int,
    pub phase: LookPhaseModel,
}

/// A look at some users that has yet to begin.
pub open spec fn new_look(keys: Seq<Seq<char>>) -> SyncModel {
    SyncModel { keys, observed: Set::empty(), next: 0, phase: LookPhaseModel::Listing }
}

/// A look at some users.
#[derive(Debug)]
pub struct SyncRun {
    keys: Vec<String>,
    observed: Vec<String>,
    next: usize,
    phase: LookPhase,
}

impl View for SyncRun {
    type V = SyncModel;

    closed spec fn view(&self) -> SyncModel {
        SyncModel {
            keys: texts(self.keys@),
            observed: texts(self.observed@).to_set(),
            next: self.next as int,
            phase: self.phase@,
        }
    }
}

impl SyncRun {
    #[verifier::type_invariant]
    spec fn inv(self) -> bool {
        self.next <= self.keys@.len()
    }

    /// A look at some users that has yet to begin. It begins with the first
    /// stream of the listing.
    pub(crate) fn new(keys: Vec<String>) -> (r: SyncRun)
        ensures
            r@ == new_look(texts(keys@)),
    {
        let r = SyncRun { keys, observed: Vec::new(), next: 0, phase: LookPhase::Listing };
        assert(r@.observed =~= Set::empty());
        r
    }

    /// The users that are asked about.
    pub fn keys(&self) -> (r: &Vec<String>)
        ensures
            texts(r@) == self@.keys,
    {
        &self.keys
    }

    fn was_observed(&self, id: &str) -> (r: bool)
        ensures
            r == self@.observed.contains(id@),
    {
        let mut i: usize = 0;
        while i < self.observed.len()
            invariant
                i <= self.observed.len(),
                forall|j: int| 0 <= j < i ==> (#[trigger] self.observed@[j])@ != id@,
            decreases self.observed.len() - i,
        {
            if same(self.observed[i].as_str(), id) {
                assert(texts(self.observed@)[i as int] == id@);
                return true;
            }
            i += 1;
        }
        proof {
            if self@.observed.contains(id@) {
                let j = choose|j: int|
                    0 <= j < self.observed@.len() && texts(self.observed@)[j] == id@;
                assert(self.observed@[j]@ == id@);
            }
        }
        false
    }
}

// ---------------------------------------------------------------------------
// The steps of a look
// ---------------------------------------------------------------------------

/// What came of the last action.
pub enum LookEventModel {
    Listed(StreamModel),
    ListingFailed(Seq<char>),
    ListingEnded,
    Videos(Seq<VideoModel>),
    VideosFailed,
    Told,
    TellingFailed(Seq<char>),
}

/// What came of the last action.
#[derive(Debug)]
pub enum LookEvent {
    /// The next stream that is live.
    Listed(Stream),
    /// The listing broke off.
    ListingFailed(String),
    /// There are no more streams that are live.
    ListingEnded,
    /// The recordings of the user, the latest first.
    Videos(Vec<Video>),
    /// They could not be had.
    VideosFailed,
    /// The news were told.
    Told,
    /// There is nobody to tell.
    TellingFailed(String),
}

/// What a list of videos holds.
pub open spec fn videos_model(videos: Seq<Video>) -> Seq<VideoModel> {
    videos.map_values(|v: Video| v@)
}

impl View for LookEvent {
    type V = LookEventModel;

    open spec fn view(&self) -> LookEventModel {
        match *self {
            LookEvent::Listed(stream) => LookEventModel::Listed(stream@),
            LookEvent::ListingFailed(e) => LookEventModel::ListingFailed(e@),
            LookEvent::ListingEnded => LookEventModel::ListingEnded,
            LookEvent::Videos(videos) => LookEventModel::Videos(videos_model(videos@)),
            LookEvent::VideosFailed => LookEventModel::VideosFailed,
            LookEvent::Told => LookEventModel::Told,
            LookEvent::TellingFailed(e) => LookEventModel::TellingFailed(e@),
        }
    }
}

/// What a look does next.
pub enum LookActionModel {
    NextStream,
    FindVideo(Seq<char>),
    Tell(NotificationModel),
    Done,
    Failed(Seq<char>),
}

/// What a look does next.
#[derive(Debug)]
pub enum LookAction {
    /// Go on with the listing.
    NextStream,
    /// Ask for the recordings of this user.
    FindVideo(String),
    /// Tell the news.
    Tell(Notification),
    /// Nothing any more.
    Done,
    /// Nothing any more: it did not work out.
    Failed(String),
}

impl View for LookAction {
    type V = LookActionModel;

    open spec fn view(&self) -> LookActionModel {
        match *self {
            LookAction::NextStream => LookActionModel::NextStream,
            LookAction::FindVideo(user_id) => LookActionModel::FindVideo(user_id@),
            LookAction::Tell(news) => LookActionModel::Tell(news@),
            LookAction::Done => LookActionModel::Done,
            LookAction::Failed(e) => LookActionModel::Failed(e@),
        }
    }
}

/// Whether an event answers the action of a phase.
pub open spec fn awaits(phase: LookPhaseModel, event: LookEventModel) -> bool {
    match phase {
        LookPhaseModel::Listing => event is Listed || event is ListingFailed || event
            is ListingEnded,
        LookPhaseModel::FindingVideo(_) => event is Videos || event is VideosFailed,
        LookPhaseModel::Telling => event is Told || event is TellingFailed,
        LookPhaseModel::Ending => event is Told || event is TellingFailed,
        LookPhaseModel::Finished => false,
    }
}

/// The client, the look and its next action, after an event.
pub type LookStep = (ClientModel, SyncModel, LookActionModel);

/// The latest of some recordings.
pub open spec fn latest(videos: Seq<VideoModel>) -> Option<VideoModel> {
    if videos.len() == 0 {
        None
    } else {
        Some(videos[0])
    }
}

/// What is done about a stream that was found live: it is told, where there is
/// something to tell, and the listing goes on.
pub open spec fn observing(client: ClientModel, sync: SyncModel, live: LiveModel) -> LookStep {
    let after = ClientModel { state: after_observed(client.state, live), ..client };
    let found = SyncModel { observed: sync.observed.insert(live.stream.user_id), ..sync };
    match observed_news(client.state, live) {
        Some(news) => (
            after,
            SyncModel { phase: LookPhaseModel::Telling, ..found },
            LookActionModel::Tell(news),
        ),
        None => (
            after,
            SyncModel { phase: LookPhaseModel::Listing, ..found },
            LookActionModel::NextStream,
        ),
    }
}

/// The first user from one on who was not found live, but was live before.
pub open spec fn first_gone(
    state: Map<Seq<char>, LiveModel>,
    keys: Seq<Seq<char>>,
    observed: Set<Seq<char>>,
    from: int,
) -> Option<int>
    decreases keys.len() - from,
{
    if from >= keys.len() {
        None
    } else if !observed.contains(keys[from]) && state.contains_key(keys[from]) {
        Some(from)
    } else {
        first_gone(state, keys, observed, from + 1)
    }
}

/// What is done once the listing ended: the next stream that is over is told,
/// if there is one.
pub open spec fn ending(client: ClientModel, sync: SyncModel) -> LookStep {
    match first_gone(client.state, sync.keys, sync.observed, sync.next) {
        Some(i) => (
            ClientModel { state: client.state.remove(sync.keys[i]), ..client },
            SyncModel { next: i + 1, phase: LookPhaseModel::Ending, ..sync },
            LookActionModel::Tell(NotificationModel::Offline(client.state[sync.keys[i]])),
        ),
        None => (
            client,
            SyncModel {
                next: sync.keys.len() as int,
                phase: LookPhaseModel::Finished,
                ..sync
            },
            LookActionModel::Done,
        ),
    }
}

/// What a look does after an event. A recording that cannot be had is none; a
/// listing that breaks off ends the look, and so does news that nobody hears.
pub open spec fn look_step(
    client: ClientModel,
    sync: SyncModel,
    event: LookEventModel,
) -> LookStep {
    let finished = SyncModel { phase: LookPhaseModel::Finished, ..sync };
    match event {
        LookEventModel::Listed(stream) => (
            client,
            SyncModel { phase: LookPhaseModel::FindingVideo(stream), ..sync },
            LookActionModel::FindVideo(stream.user_id),
        ),
        LookEventModel::ListingFailed(e) => (client, finished, LookActionModel::Failed(e)),
        LookEventModel::ListingEnded => ending(client, sync),
        LookEventModel::Videos(videos) => observing(
            client,
            sync,
            LiveModel { stream: sync.phase->FindingVideo_0, video: latest(videos) },
        ),
        LookEventModel::VideosFailed => observing(
            client,
            sync,
            LiveModel { stream: sync.phase->FindingVideo_0, video: None },
        ),
        LookEventModel::Told => if sync.phase is Telling {
            (
                client,
                SyncModel { phase: LookPhaseModel::Listing, ..sync },
                LookActionModel::NextStream,
            )
        } else {
            ending(client, sync)
        },
        LookEventModel::TellingFailed(e) => (client, finished, LookActionModel::Failed(e)),
    }
}

impl SyncRun {
    fn take_in(&mut self, client: &mut InnerOnlineClient, stream: Stream, video: Option<Video>) -> (r:
        LookAction)
        ensures
            ({
                let live = LiveModel { stream: stream@, video: opt_video(video) };
                (final(client)@, final(self)@, r@) == observing(old(client)@, old(self)@, live)
            }),
    {
        proof {
            use_type_invariant(&*self);
        }
        let ghost observed = texts(self.observed@);
        let ghost user_id = stream@.user_id;
        let mut list: Vec<String> = Vec::new();
        std::mem::swap(&mut list, &mut self.observed);
        list.push(stream.user_id.clone());
        self.observed = list;
        proof {
            assert(texts(self.observed@) =~= observed.push(user_id));
            let after = observed.push(user_id);
            assert forall|id: Seq<char>| #[trigger] after.to_set().contains(id)
                == observed.to_set().insert(user_id).contains(id) by {
                lemma_push_contains(observed, user_id, id);
            }
            assert(self@.observed =~= observed.to_set().insert(user_id));
        }
        match client.observe(stream, video) {
            Some(news) => {
                self.phase = LookPhase::Telling;
                LookAction::Tell(news)
            },
            None => {
                self.phase = LookPhase::Listing;
                LookAction::NextStream
            },
        }
    }

    fn end(&mut self, client: &mut InnerOnlineClient) -> (r: LookAction)
        ensures
            (final(client)@, final(self)@, r@) == ending(old(client)@, old(self)@),
    {
        proof {
            use_type_invariant(&*self);
        }
        let ghost sync0 = self@;
        let ghost before = client@;
        while self.next < self.keys.len()
            invariant
                sync0 == old(self)@,
                before == old(client)@,
                self@ == (SyncModel { next: self@.next, ..sync0 }),
                self@.next <= sync0.keys.len(),
                client@ == before,
                first_gone(before.state, sync0.keys, sync0.observed, sync0.next) == first_gone(
                    before.state,
                    sync0.keys,
                    sync0.observed,
                    self@.next,
                ),
            decreases self.keys.len() - self.next,
        {
            let i: usize = self.next;
            assert(self@.keys[i as int] == self.keys@[i as int]@);
            self.next = i + 1;
            if !self.was_observed(self.keys[i].as_str()) {
                if let Some(live) = client.remove_live(self.keys[i].as_str()) {
                    self.phase = LookPhase::Ending;
                    return LookAction::Tell(Notification::Offline(live.stream, live.video));
                }
                assert(client@.state =~= before.state);
            }
        }
        self.phase = LookPhase::Finished;
        LookAction::Done
    }

    /// Goes on with the look, given what came of its last action. The first is
    /// to go on with the listing.
    ///
    /// That a stream is over is told only once the listing ended. Where it
    /// breaks off, the look ends there.
    pub fn step(&mut self, client: &mut InnerOnlineClient, event: LookEvent) -> (r: LookAction)
        requires
            awaits(old(self)@.phase, event@),
        ensures
            (final(client)@, final(self)@, r@) == look_step(old(client)@, old(self)@, event@),
            old(client)@.wf() ==> final(client)@.wf(),
    {
        proof {
            use_type_invariant(&*self);
        }
        let mut phase = LookPhase::Finished;
        std::mem::swap(&mut phase, &mut self.phase);
        match (phase, event) {
            (_, LookEvent::Listed(stream)) => {
                let user_id = stream.user_id.clone();
                self.phase = LookPhase::FindingVideo(stream);
                LookAction::FindVideo(user_id)
            },
            (_, LookEvent::ListingFailed(e)) => LookAction::Failed(e),
            (_, LookEvent::ListingEnded) => self.end(client),
            (LookPhase::FindingVideo(stream), LookEvent::Videos(videos)) => {
                let video = if videos.len() > 0 {
                    Some(videos[0].clone())
                } else {
                    None
                };
                self.take_in(client, stream, video)
            },
            (LookPhase::FindingVideo(stream), LookEvent::VideosFailed) => {
                self.take_in(client, stream, None)
            },
            (LookPhase::Telling, LookEvent::Told) => {
                self.phase = LookPhase::Listing;
                LookAction::NextStream
            },
            (_, LookEvent::Told) => self.end(client),
            (_, LookEvent::TellingFailed(e)) => LookAction::Failed(e),
            _ => LookAction::Done,
        }
    }
}

// ---------------------------------------------------------------------------
// Looks as a whole
// ---------------------------------------------------------------------------

/// The state once some streams were taken in, one after the other.
pub open spec fn after_observing(
    state: Map<Seq<char>, LiveModel>,
    found: Seq<LiveModel>,
) -> Map<Seq<char>, LiveModel>
    decreases found.len(),
{
    if found.len() == 0 {
        state
    } else {
        after_observed(after_observing(state, found.drop_last()), found.last())
    }
}

/// A sequence with at most one thing more.
pub open spec fn and_maybe(
    news: Seq<NotificationModel>,
    more: Option<NotificationModel>,
) -> Seq<NotificationModel> {
    match more {
        Some(n) => news.push(n),
        None => news,
    }
}

/// What there was to tell while some streams were taken in.
pub open spec fn observing_news(
    state: Map<Seq<char>, LiveModel>,
    found: Seq<LiveModel>,
) -> Seq<NotificationModel>
    decreases found.len(),
{
    if found.len() == 0 {
        seq![]
    } else {
        and_maybe(
            observing_news(state, found.drop_last()),
            observed_news(after_observing(state, found.drop_last()), found.last()),
        )
    }
}

/// The users of some streams.
pub open spec fn users(found: Seq<LiveModel>) -> Set<Seq<char>> {
    found.map_values(|l: LiveModel| l.stream.user_id).to_set()
}

/// The state once the first users of a look were gone through.
pub open spec fn after_gone(
    state: Map<Seq<char>, LiveModel>,
    keys: Seq<Seq<char>>,
    observed: Set<Seq<char>>,
) -> Map<Seq<char>, LiveModel>
    decreases keys.len(),
{
    if keys.len() == 0 {
        state
    } else {
        let before = after_gone(state, keys.drop_last(), observed);
        if observed.contains(keys.last()) {
            before
        } else {
            before.remove(keys.last())
        }
    }
}

/// What there was to tell while the users of a look were gone through.
pub open spec fn gone_news(
    state: Map<Seq<char>, LiveModel>,
    keys: Seq<Seq<char>>,
    observed: Set<Seq<char>>,
) -> Seq<NotificationModel>
    decreases keys.len(),
{
    if keys.len() == 0 {
        seq![]
    } else {
        let before = after_gone(state, keys.drop_last(), observed);
        and_maybe(
            gone_news(state, keys.drop_last(), observed),
            if !observed.contains(keys.last()) && before.contains_key(keys.last()) {
                Some(NotificationModel::Offline(before[keys.last()]))
            } else {
                None
            },
        )
    }
}

/// The state after a whole look at some users, of whom some were found live.
pub open spec fn after_sync(
    state: Map<Seq<char>, LiveModel>,
    keys: Seq<Seq<char>>,
    found: Seq<LiveModel>,
) -> Map<Seq<char>, LiveModel> {
    after_gone(after_observing(state, found), keys, users(found))
}

/// What there is to tell after a whole look.
pub open spec fn sync_news(
    state: Map<Seq<char>, LiveModel>,
    keys: Seq<Seq<char>>,
    found: Seq<LiveModel>,
) -> Seq<NotificationModel> {
    observing_news(state, found) + gone_news(after_observing(state, found), keys, users(found))
}

/// What someone who hears some news knows afterwards.
pub open spec fn told(
    state: Map<Seq<char>, LiveModel>,
    news: Seq<NotificationModel>,
) -> Map<Seq<char>, LiveModel>
    decreases news.len(),
{
    if news.len() == 0 {
        state
    } else {
        let before = told(state, news.drop_last());
        match news.last() {
            NotificationModel::Online(live) => before.insert(live.stream.user_id, live),
            NotificationModel::Update(live) => before.insert(live.stream.user_id, live),
            NotificationModel::Offline(live) => before.remove(live.stream.user_id),
        }
    }
}

// ---------------------------------------------------------------------------
// Laws
// ---------------------------------------------------------------------------

proof fn lemma_users_push(found: Seq<LiveModel>, id: Seq<char>)
    requires
        found.len() > 0,
    ensures
        users(found).contains(id) <==> users(found.drop_last()).contains(id)
            || found.last().stream.user_id == id,
{
    let all = found.map_values(|l: LiveModel| l.stream.user_id);
    let init = found.drop_last().map_values(|l: LiveModel| l.stream.user_id);
    if users(found).contains(id) {
        let j = choose|j: int| 0 <= j < all.len() && all[j] == id;
        if j < init.len() {
            assert(init[j] == id);
        }
    }
    if users(found.drop_last()).contains(id) {
        let j = choose|j: int| 0 <= j < init.len() && init[j] == id;
        assert(all[j] == id);
    }
    assert(all[found.len() - 1] == found.last().stream.user_id);
}

/// Taking streams in changes what is known of their users, and of no others.
proof fn lemma_after_observing(
    state: Map<Seq<char>, LiveModel>,
    found: Seq<LiveModel>,
    id: Seq<char>,
)
    ensures
        users(found).contains(id) ==> after_observing(state, found).contains_key(id),
        !users(found).contains(id) ==> after_observing(state, found).get(id) == state.get(id),
        keyed_by_user(state) ==> keyed_by_user(after_observing(state, found)),
    decreases found.len(),
{
    if found.len() > 0 {
        lemma_after_observing(state, found.drop_last(), id);
        lemma_users_push(found, id);
    } else {
        assert(!users(found).contains(id));
    }
}

/// Taking streams in tells of nobody whose stream ended and drops nobody; what
/// is known of those who were not listed stays. So where a listing breaks off,
/// nobody is taken for gone.
pub proof fn law_a_listing_ends_no_stream(
    state: Map<Seq<char>, LiveModel>,
    found: Seq<LiveModel>,
)
    ensures
        forall|i: int|
            0 <= i < observing_news(state, found).len() ==> (#[trigger] observing_news(
                state,
                found,
            )[i]) !is Offline,
        forall|id: Seq<char>| #[trigger]
            state.contains_key(id) ==> after_observing(state, found).contains_key(id),
        forall|id: Seq<char>|
            !#[trigger] users(found).contains(id) ==> after_observing(state, found).get(id)
                == state.get(id),
    decreases found.len(),
{
    if found.len() > 0 {
        law_a_listing_ends_no_stream(state, found.drop_last());
    }
    assert forall|id: Seq<char>| !#[trigger] users(found).contains(id) implies after_observing(
        state,
        found,
    ).get(id) == state.get(id) by {
        lemma_after_observing(state, found, id);
    }
}

/// Going through users drops those who were not found live, and no others.
proof fn lemma_after_gone(
    state: Map<Seq<char>, LiveModel>,
    keys: Seq<Seq<char>>,
    observed: Set<Seq<char>>,
    id: Seq<char>,
)
    ensures
        after_gone(state, keys, observed).get(id) == (if keys.contains(id) && !observed.contains(
            id,
        ) {
            None
        } else {
            state.get(id)
        }),
    decreases keys.len(),
{
    if keys.len() > 0 {
        let init = keys.drop_last();
        lemma_after_gone(state, init, observed, id);
        if keys.contains(id) && id != keys.last() {
            let j = choose|j: int| 0 <= j < keys.len() && keys[j] == id;
            assert(init[j] == id);
        }
        if init.contains(id) {
            let j = choose|j: int| 0 <= j < init.len() && init[j] == id;
            assert(keys[j] == id);
        }
        assert(keys[keys.len() - 1] == keys.last());
    }
}

/// Users can be gone through in parts, one behind the other.
pub proof fn law_gone_in_parts(
    state: Map<Seq<char>, LiveModel>,
    a: Seq<Seq<char>>,
    b: Seq<Seq<char>>,
    observed: Set<Seq<char>>,
)
    ensures
        after_gone(state, a + b, observed) == after_gone(
            after_gone(state, a, observed),
            b,
            observed,
        ),
        gone_news(state, a + b, observed) == gone_news(state, a, observed) + gone_news(
            after_gone(state, a, observed),
            b,
            observed,
        ),
    decreases b.len(),
{
    if b.len() == 0 {
        assert(a + b =~= a);
    } else {
        law_gone_in_parts(state, a, b.drop_last(), observed);
        assert((a + b).drop_last() =~= a + b.drop_last());
    }
}

/// A look leaves alone those who were neither asked about nor found.
pub proof fn law_sync_leaves_others_alone(
    state: Map<Seq<char>, LiveModel>,
    keys: Seq<Seq<char>>,
    found: Seq<LiveModel>,
    id: Seq<char>,
)
    requires
        !keys.contains(id),
        !users(found).contains(id),
    ensures
        after_sync(state, keys, found).get(id) == state.get(id),
{
    lemma_after_observing(state, found, id);
    lemma_after_gone(after_observing(state, found), keys, users(found), id);
}

/// After a look, those of the users asked about who were found are live, and
/// the others are not.
pub proof fn law_sync_is_exact(
    state: Map<Seq<char>, LiveModel>,
    keys: Seq<Seq<char>>,
    found: Seq<LiveModel>,
    id: Seq<char>,
)
    requires
        keys.contains(id),
    ensures
        after_sync(state, keys, found).contains_key(id) <==> users(found).contains(id),
{
    lemma_after_observing(state, found, id);
    lemma_after_gone(after_observing(state, found), keys, users(found), id);
}

/// Whether no user has two streams that differ.
pub open spec fn one_stream_each(found: Seq<LiveModel>) -> bool {
    forall|i: int, j: int|
        0 <= i < j < found.len() && (#[trigger] found[i]).stream.user_id == (#[trigger]
        found[j]).stream.user_id ==> found[i] == found[j]
}

proof fn lemma_found_stays(
    state: Map<Seq<char>, LiveModel>,
    found: Seq<LiveModel>,
    i: int,
)
    requires
        one_stream_each(found),
        0 <= i < found.len(),
    ensures
        after_observing(state, found).get(found[i].stream.user_id) == Some(found[i]),
    decreases found.len(),
{
    if i < found.len() - 1 {
        let init = found.drop_last();
        assert forall|a: int, b: int|
            0 <= a < b < init.len() && (#[trigger] init[a]).stream.user_id == (#[trigger]
            init[b]).stream.user_id implies init[a] == init[b] by {
            assert(found[a] == init[a] && found[b] == init[b]);
        }
        assert(init[i] == found[i]);
        lemma_found_stays(state, init, i);
        assert(found[found.len() - 1] == found.last());
    }
}

/// After a look, each stream that was found is what is known of its user, unless
/// the user has another one that differs.
pub proof fn law_sync_keeps_what_was_found(
    state: Map<Seq<char>, LiveModel>,
    keys: Seq<Seq<char>>,
    found: Seq<LiveModel>,
    i: int,
)
    requires
        one_stream_each(found),
        0 <= i < found.len(),
    ensures
        after_sync(state, keys, found).get(found[i].stream.user_id) == Some(found[i]),
{
    let id = found[i].stream.user_id;
    let all = found.map_values(|l: LiveModel| l.stream.user_id);
    assert(all[i] == id);
    lemma_found_stays(state, found, i);
    lemma_after_gone(after_observing(state, found), keys, users(found), id);
}

proof fn lemma_nothing_new(state: Map<Seq<char>, LiveModel>, found: Seq<LiveModel>)
    requires
        forall|i: int|
            0 <= i < found.len() ==> state.get((#[trigger] found[i]).stream.user_id) == Some(
                found[i],
            ),
    ensures
        after_observing(state, found) == state,
        observing_news(state, found) == Seq::<NotificationModel>::empty(),
    decreases found.len(),
{
    if found.len() > 0 {
        let init = found.drop_last();
        assert forall|i: int| 0 <= i < init.len() implies state.get(
            (#[trigger] init[i]).stream.user_id,
        ) == Some(init[i]) by {
            assert(init[i] == found[i]);
        }
        lemma_nothing_new(state, init);
        assert(found[found.len() - 1] == found.last());
        assert(after_observing(state, found) =~= state);
    }
}

proof fn lemma_nobody_gone(
    state: Map<Seq<char>, LiveModel>,
    keys: Seq<Seq<char>>,
    observed: Set<Seq<char>>,
)
    requires
        forall|i: int|
            0 <= i < keys.len() && !observed.contains(#[trigger] keys[i]) ==> !state.contains_key(
                keys[i],
            ),
    ensures
        after_gone(state, keys, observed) == state,
        gone_news(state, keys, observed) == Seq::<NotificationModel>::empty(),
    decreases keys.len(),
{
    if keys.len() > 0 {
        let init = keys.drop_last();
        assert forall|i: int|
            0 <= i < init.len() && !observed.contains(#[trigger] init[i]) implies !state.contains_key(
            init[i],
        ) by {
            assert(init[i] == keys[i]);
        }
        lemma_nobody_gone(state, init, observed);
        assert(keys[keys.len() - 1] == keys.last());
        assert(after_gone(state, keys, observed) =~= state);
    }
}

/// A second look that finds what the first found changes nothing, and there is
/// nothing to tell, unless a user has two streams that differ.
pub proof fn law_sync_settles(
    state: Map<Seq<char>, LiveModel>,
    keys: Seq<Seq<char>>,
    found: Seq<LiveModel>,
)
    requires
        one_stream_each(found),
    ensures
        after_sync(after_sync(state, keys, found), keys, found) == after_sync(state, keys, found),
        sync_news(after_sync(state, keys, found), keys, found) == Seq::<
            NotificationModel,
        >::empty(),
{
    let once = after_sync(state, keys, found);
    assert forall|i: int| 0 <= i < found.len() implies once.get(
        (#[trigger] found[i]).stream.user_id,
    ) == Some(found[i]) by {
        law_sync_keeps_what_was_found(state, keys, found, i);
    }
    lemma_nothing_new(once, found);
    assert forall|i: int|
        0 <= i < keys.len() && !users(found).contains(#[trigger] keys[i]) implies !once.contains_key(
        keys[i],
    ) by {
        law_sync_is_exact(state, keys, found, keys[i]);
    }
    lemma_nobody_gone(once, keys, users(found));
}

proof fn lemma_told_append(
    state: Map<Seq<char>, LiveModel>,
    a: Seq<NotificationModel>,
    b: Seq<NotificationModel>,
)
    ensures
        told(state, a + b) == told(told(state, a), b),
    decreases b.len(),
{
    if b.len() == 0 {
        assert(a + b =~= a);
    } else {
        lemma_told_append(state, a, b.drop_last());
        assert((a + b).drop_last() =~= a + b.drop_last());
    }
}

proof fn lemma_told_observing(state: Map<Seq<char>, LiveModel>, found: Seq<LiveModel>)
    ensures
        told(state, observing_news(state, found)) == after_observing(state, found),
    decreases found.len(),
{
    if found.len() > 0 {
        let init = found.drop_last();
        lemma_told_observing(state, init);
        let before = observing_news(state, init);
        let known = after_observing(state, init);
        match observed_news(known, found.last()) {
            Some(n) => {
                assert(before.push(n).drop_last() =~= before);
            },
            None => {
                assert(after_observing(state, found) =~= known);
            },
        }
    }
}

proof fn lemma_told_gone(
    state: Map<Seq<char>, LiveModel>,
    keys: Seq<Seq<char>>,
    observed: Set<Seq<char>>,
)
    requires
        keyed_by_user(state),
    ensures
        told(state, gone_news(state, keys, observed)) == after_gone(state, keys, observed),
        keyed_by_user(after_gone(state, keys, observed)),
    decreases keys.len(),
{
    if keys.len() > 0 {
        let init = keys.drop_last();
        lemma_told_gone(state, init, observed);
        let news = gone_news(state, init, observed);
        let known = after_gone(state, init, observed);
        if !observed.contains(keys.last()) {
            if known.contains_key(keys.last()) {
                let n = NotificationModel::Offline(known[keys.last()]);
                assert(news.push(n).drop_last() =~= news);
            } else {
                assert(known.remove(keys.last()) =~= known);
            }
        }
    }
}

/// Someone who knew what the client knew, and hears what it tells, knows what
/// it knows now.
pub proof fn law_news_say_everything(
    state: Map<Seq<char>, LiveModel>,
    keys: Seq<Seq<char>>,
    found: Seq<LiveModel>,
)
    requires
        keyed_by_user(state),
    ensures
        told(state, sync_news(state, keys, found)) == after_sync(state, keys, found),
{
    let between = after_observing(state, found);
    lemma_after_observing(state, found, seq![]);
    lemma_told_observing(state, found);
    lemma_told_gone(between, keys, users(found));
    lemma_told_append(
        state,
        observing_news(state, found),
        gone_news(between, keys, users(found)),
    );
}

/// Where a listing breaks off, the look ends and says why. Nobody is dropped, and
/// there is nothing to tell.
pub proof fn law_a_failed_listing_ends_the_look(
    client: ClientModel,
    sync: SyncModel,
    e: Seq<char>,
)
    ensures
        look_step(client, sync, LookEventModel::ListingFailed(e)) == (
            client,
            SyncModel { phase: LookPhaseModel::Finished, ..sync },
            LookActionModel::Failed(e),
        ),
{
}

/// That a stream is over is told only once the listing ended; and from then on
/// nothing else is told.
pub proof fn law_ends_are_told_last(
    client: ClientModel,
    sync: SyncModel,
    event: LookEventModel,
)
    requires
        awaits(sync.phase, event),
    ensures
        ({
            let (_, after, action) = look_step(client, sync, event);
            &&& (action matches LookActionModel::Tell(news) && news is Offline) <==> after.phase
                is Ending
            &&& after.phase is Ending ==> event is ListingEnded || sync.phase is Ending
            &&& event is ListingEnded || sync.phase is Ending ==> after.phase is Ending
                || after.phase is Finished
        }),
{
}

/// The streams that were found live, after an event.
pub open spec fn found_after(
    sync: SyncModel,
    found: Seq<LiveModel>,
    event: LookEventModel,
) -> Seq<LiveModel> {
    match event {
        LookEventModel::Videos(videos) => found.push(
            LiveModel { stream: sync.phase->FindingVideo_0, video: latest(videos) },
        ),
        LookEventModel::VideosFailed => found.push(
            LiveModel { stream: sync.phase->FindingVideo_0, video: None },
        ),
        _ => found,
    }
}

/// What a look has told, after an action.
pub open spec fn news_after(
    news: Seq<NotificationModel>,
    action: LookActionModel,
) -> Seq<NotificationModel> {
    match action {
        LookActionModel::Tell(more) => news.push(more),
        _ => news,
    }
}

/// Whether the client is where a look has brought it that began at `state` and
/// found some streams live, and `news` is what it told.
pub open spec fn follows(
    client: ClientModel,
    sync: SyncModel,
    state: Map<Seq<char>, LiveModel>,
    found: Seq<LiveModel>,
    news: Seq<NotificationModel>,
) -> bool {
    let known = after_observing(state, found);
    let passed = sync.keys.take(sync.next);
    &&& 0 <= sync.next <= sync.keys.len()
    &&& sync.observed == users(found)
    &&& sync.phase is Listing || sync.phase is FindingVideo || sync.phase is Telling ==> sync.next
        == 0
    &&& client.state == after_gone(known, passed, users(found))
    &&& news == observing_news(state, found) + gone_news(known, passed, users(found))
}

/// A look that has yet to begin has changed nothing and told nothing.
pub proof fn law_looks_begin(client: ClientModel, keys: Seq<Seq<char>>)
    ensures
        follows(client, new_look(keys), client.state, seq![], seq![]),
{
    assert(users(seq![]) =~= Set::empty());
    assert(keys.take(0) =~= seq![]);
    assert(observing_news(client.state, seq![]) + gone_news(client.state, seq![], Set::empty())
        =~= seq![]);
}

/// Of the users in front of the first who is gone, nobody is.
proof fn lemma_first_gone(
    state: Map<Seq<char>, LiveModel>,
    keys: Seq<Seq<char>>,
    observed: Set<Seq<char>>,
    from: int,
)
    requires
        0 <= from <= keys.len(),
    ensures
        ({
            let to = match first_gone(state, keys, observed, from) {
                Some(i) => i,
                None => keys.len() as int,
            };
            &&& from <= to <= keys.len()
            &&& first_gone(state, keys, observed, from) is Some ==> to < keys.len()
                && !observed.contains(keys[to]) && state.contains_key(keys[to])
            &&& after_gone(state, keys.subrange(from, to), observed) == state
            &&& gone_news(state, keys.subrange(from, to), observed) == Seq::<
                NotificationModel,
            >::empty()
        }),
    decreases keys.len() - from,
{
    let to = match first_gone(state, keys, observed, from) {
        Some(i) => i,
        None => keys.len() as int,
    };
    if from < keys.len() && (observed.contains(keys[from]) || !state.contains_key(keys[from])) {
        lemma_first_gone(state, keys, observed, from + 1);
        let one = seq![keys[from]];
        let rest = keys.subrange(from + 1, to);
        assert(keys.subrange(from, to) =~= one + rest);
        lemma_nobody_gone(state, one, observed);
        law_gone_in_parts(state, one, rest, observed);
    }
}

proof fn lemma_ending_follows(
    client: ClientModel,
    sync: SyncModel,
    state: Map<Seq<char>, LiveModel>,
    found: Seq<LiveModel>,
    news: Seq<NotificationModel>,
)
    requires
        follows(client, sync, state, found, news),
    ensures
        ({
            let (after, then, action) = ending(client, sync);
            &&& follows(after, then, state, found, news_after(news, action))
            &&& action is Done ==> then.next == sync.keys.len()
        }),
{
    let (after, then, action) = ending(client, sync);
    let known = after_observing(state, found);
    let observed = users(found);
    let a = sync.keys.take(sync.next);
    let b = sync.keys.subrange(sync.next, then.next);
    lemma_first_gone(client.state, sync.keys, observed, sync.next);
    assert(sync.keys.take(then.next) =~= a + b);
    law_gone_in_parts(known, a, b, observed);
    if let Some(i) = first_gone(client.state, sync.keys, observed, sync.next) {
        assert(b.drop_last() =~= sync.keys.subrange(sync.next, i));
    }
    assert(news_after(news, action) =~= observing_news(state, found) + gone_news(
        known,
        a + b,
        observed,
    ));
}

proof fn lemma_observing_follows(
    client: ClientModel,
    sync: SyncModel,
    state: Map<Seq<char>, LiveModel>,
    found: Seq<LiveModel>,
    news: Seq<NotificationModel>,
    live: LiveModel,
)
    requires
        follows(client, sync, state, found, news),
        sync.next == 0,
    ensures
        ({
            let (after, then, action) = observing(client, sync, live);
            follows(after, then, state, found.push(live), news_after(news, action))
        }),
{
    let (after, then, action) = observing(client, sync, live);
    let more = found.push(live);
    assert(more.drop_last() =~= found);
    assert(sync.keys.take(0) =~= seq![]);
    assert(users(more) =~= users(found).insert(live.stream.user_id)) by {
        assert forall|id: Seq<char>| #[trigger] users(more).contains(id) <==> users(found).insert(
            live.stream.user_id,
        ).contains(id) by {
            lemma_users_push(more, id);
        }
    }
    assert(news =~= observing_news(state, found));
    assert(news_after(news, action) =~= observing_news(state, more) + seq![]);
}

/// Each step of a look brings the client on: when nothing else comes between,
/// it always stands where the streams that were found live so far lead, and
/// what was told is what that comes to.
pub proof fn law_looks_go_on(
    client: ClientModel,
    sync: SyncModel,
    state: Map<Seq<char>, LiveModel>,
    found: Seq<LiveModel>,
    news: Seq<NotificationModel>,
    event: LookEventModel,
)
    requires
        follows(client, sync, state, found, news),
        awaits(sync.phase, event),
    ensures
        ({
            let (after, then, action) = look_step(client, sync, event);
            follows(
                after,
                then,
                state,
                found_after(sync, found, event),
                news_after(news, action),
            )
        }),
{
    match event {
        LookEventModel::Videos(_) => {
            lemma_observing_follows(
                client,
                sync,
                state,
                found,
                news,
                found_after(sync, found, event).last(),
            );
        },
        LookEventModel::VideosFailed => {
            lemma_observing_follows(
                client,
                sync,
                state,
                found,
                news,
                found_after(sync, found, event).last(),
            );
        },
        LookEventModel::ListingEnded => {
            lemma_ending_follows(client, sync, state, found, news);
        },
        LookEventModel::Told => {
            if sync.phase is Ending {
                lemma_ending_follows(client, sync, state, found, news);
            }
        },
        _ => {},
    }
}

/// When a look is done, the client knows what a whole look comes to, and has
/// told all of it.
pub proof fn law_looks_end(
    client: ClientModel,
    sync: SyncModel,
    state: Map<Seq<char>, LiveModel>,
    found: Seq<LiveModel>,
    news: Seq<NotificationModel>,
    event: LookEventModel,
)
    requires
        follows(client, sync, state, found, news),
        awaits(sync.phase, event),
        look_step(client, sync, event).2 is Done,
    ensures
        look_step(client, sync, event).0 == (ClientModel {
            state: after_sync(state, sync.keys, found),
            ..client
        }),
        news == sync_news(state, sync.keys, found),
{
    lemma_ending_follows(client, sync, state, found, news);
    assert(sync.keys.take(sync.keys.len() as int) =~= sync.keys);
}

/// A look begins with nobody found and nobody gone through, and asks about whom it
/// was told to.
pub proof fn law_looks_ask_about_their_users(keys: Seq<Seq<char>>)
    ensures
        new_look(keys).keys == keys,
        new_look(keys).observed == Set::<Seq<char>>::empty(),
        new_look(keys).next == 0,
        new_look(keys).phase is Listing,
{
}

/// Of a stream that was listed the recordings are asked for, those of its user.
/// Nothing is known or told before they are there.
pub proof fn law_recordings_are_asked_for(
    client: ClientModel,
    sync: SyncModel,
    stream: StreamModel,
)
    ensures
        ({
            let (after, then, action) = look_step(client, sync, LookEventModel::Listed(stream));
            &&& action == LookActionModel::FindVideo(stream.user_id)
            &&& after == client
            &&& then.phase == LookPhaseModel::FindingVideo(stream)
            &&& then.observed == sync.observed
        }),
{
}

/// A stream that was listed is known with the first of its recordings, or without
/// one where there is none or they could not be had. That it began is told where its
/// user was not live, that it changed where anything differs, and else the listing
/// goes on.
pub proof fn law_listed_streams_are_told(
    client: ClientModel,
    sync: SyncModel,
    stream: StreamModel,
    videos: Seq<VideoModel>,
    failed: bool,
)
    requires
        sync.phase == LookPhaseModel::FindingVideo(stream),
    ensures
        ({
            let event = if failed {
                LookEventModel::VideosFailed
            } else {
                LookEventModel::Videos(videos)
            };
            let live = LiveModel {
                stream,
                video: if failed || videos.len() == 0 {
                    None
                } else {
                    Some(videos[0])
                },
            };
            let user = stream.user_id;
            let (after, then, action) = look_step(client, sync, event);
            &&& after.state == client.state.insert(user, live)
            &&& then.observed == sync.observed.insert(user)
            &&& then.keys == sync.keys
            &&& then.next == sync.next
            &&& !client.state.contains_key(user) ==> action == LookActionModel::Tell(
                NotificationModel::Online(live),
            )
            &&& client.state.contains_key(user) && client.state[user] != live ==> action
                == LookActionModel::Tell(NotificationModel::Update(live))
            &&& client.state.contains_key(user) && client.state[user] == live ==> action
                is NextStream
        }),
{
}

/// Once the news of a stream that was listed were told, the listing goes on; and
/// where nobody hears them the look ends, with what went wrong.
pub proof fn law_after_the_news(client: ClientModel, sync: SyncModel, e: Seq<char>)
    ensures
        sync.phase is Telling ==> ({
            let (after, then, action) = look_step(client, sync, LookEventModel::Told);
            &&& action is NextStream
            &&& then.phase is Listing
            &&& after == client
            &&& then.observed == sync.observed
        }),
        ({
            let (after, then, action) = look_step(client, sync, LookEventModel::TellingFailed(e));
            &&& action == LookActionModel::Failed(e)
            &&& then.phase is Finished
            &&& after == client
        }),
{
}

/// Whose end is told once the listing ended: someone who was asked about, was not
/// found and was live before, with the stream that was known. They are dropped and
/// nobody else is. When the look is done, nobody of those is left.
pub proof fn law_who_is_gone(client: ClientModel, sync: SyncModel)
    requires
        0 <= sync.next <= sync.keys.len(),
    ensures
        ({
            let (after, then, action) = look_step(client, sync, LookEventModel::ListingEnded);
            &&& action is Tell || action is Done
            &&& action matches LookActionModel::Tell(news) ==> exists|i: int| #![auto]
                sync.next <= i < sync.keys.len() && then.next == i + 1 && !sync.observed.contains(
                    sync.keys[i],
                ) && client.state.contains_key(sync.keys[i]) && news == NotificationModel::Offline(
                    client.state[sync.keys[i]],
                ) && after.state == client.state.remove(sync.keys[i])
            &&& action is Done ==> after == client && forall|i: int|
                sync.next <= i < sync.keys.len() && !sync.observed.contains(#[trigger] sync.keys[i])
                    ==> !client.state.contains_key(sync.keys[i])
            &&& then.keys == sync.keys
            &&& then.observed == sync.observed
        }),
{
    lemma_first_gone_is_first(client.state, sync.keys, sync.observed, sync.next);
}

proof fn lemma_first_gone_is_first(
    state: Map<Seq<char>, LiveModel>,
    keys: Seq<Seq<char>>,
    observed: Set<Seq<char>>,
    from: int,
)
    requires
        0 <= from <= keys.len(),
    ensures
        match first_gone(state, keys, observed, from) {
            Some(i) => from <= i < keys.len() && !observed.contains(keys[i])
                && state.contains_key(keys[i]),
            None => forall|i: int|
                from <= i < keys.len() && !observed.contains(#[trigger] keys[i])
                    ==> !state.contains_key(keys[i]),
        },
    decreases keys.len() - from,
{
    if from < keys.len() && (observed.contains(keys[from]) || !state.contains_key(keys[from])) {
        lemma_first_gone_is_first(state, keys, observed, from + 1);
    }
}

/// The ends are gone through one behind the other: after each that was told, as at
/// the first.
pub proof fn law_ends_are_told_one_by_one(client: ClientModel, sync: SyncModel)
    requires
        sync.phase is Ending,
    ensures
        look_step(client, sync, LookEventModel::Told) == look_step(
            client,
            sync,
            LookEventModel::ListingEnded,
        ),
{
}

/// A look changes what is known of streams, and nothing else about the client.
pub proof fn law_looks_are_about_streams(
    client: ClientModel,
    sync: SyncModel,
    event: LookEventModel,
)
    ensures
        ({
            let (after, then, _) = look_step(client, sync, event);
            &&& after.broadcaster_ids == client.broadcaster_ids
            &&& after.curr_client_id == client.curr_client_id
            &&& after.seen == client.seen
            &&& then.keys == sync.keys
        }),
{
}

/// What came in and what is to be done are what was said, each thing in its place.
pub proof fn law_nothing_looked_at_is_left_out(event: LookEvent, action: LookAction, i: int)
    ensures
        event matches LookEvent::Listed(s) ==> event@ == LookEventModel::Listed(s@),
        event matches LookEvent::ListingFailed(e) ==> event@ == LookEventModel::ListingFailed(e@),
        event is ListingEnded <==> event@ is ListingEnded,
        event matches LookEvent::Videos(list) ==> (event@ matches LookEventModel::Videos(videos)
            && videos.len() == list@.len() && (0 <= i < list@.len() ==> videos[i] == list@[i]@)),
        event is VideosFailed <==> event@ is VideosFailed,
        event is Told <==> event@ is Told,
        event matches LookEvent::TellingFailed(e) ==> event@ == LookEventModel::TellingFailed(e@),
        action is NextStream <==> action@ is NextStream,
        action matches LookAction::FindVideo(user) ==> action@ == LookActionModel::FindVideo(
            user@,
        ),
        action matches LookAction::Tell(news) ==> action@ == LookActionModel::Tell(news@),
        action is Done <==> action@ is Done,
        action matches LookAction::Failed(e) ==> action@ == LookActionModel::Failed(e@),
{
}

/// What a look waits for: the next of the listing, the recordings that it asked for, or that
/// the news were told; and nothing once it is over.
pub proof fn law_what_looks_wait_for(phase: LookPhaseModel, event: LookEventModel)
    ensures
        phase is Listing ==> (awaits(phase, event) <==> event is Listed || event is ListingFailed
            || event is ListingEnded),
        phase is FindingVideo ==> (awaits(phase, event) <==> event is Videos || event
            is VideosFailed),
        phase is Telling || phase is Ending ==> (awaits(phase, event) <==> event is Told || event
            is TellingFailed),
        phase is Finished ==> !awaits(phase, event),
{
}

} // verus!
