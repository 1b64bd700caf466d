//! What Twitch says about streams, videos and channels.

use vstd::prelude::*;

use crate::text::{opt_text, same, same_opt};

verus! {

/// What a list of strings holds.
pub open spec fn texts(v: Seq<String>) -> Seq<Seq<char>> {
    v.map_values(|s: String| s@)
}

fn same_texts(a: &Vec<String>, b: &Vec<String>) -> (r: bool)
    ensures
        r == (texts(a@) == texts(b@)),
{
    if a.len() != b.len() {
        assert(texts(a@).len() != texts(b@).len());
        return false;
    }
    let mut i: usize = 0;
    while i < a.len()
        invariant
            i <= a.len(),
            a.len() == b.len(),
            forall|j: int| 0 <= j < i ==> texts(a@)[j] == texts(b@)[j],
        decreases a.len() - i,
    {
        if !same(a[i].as_str(), b[i].as_str()) {
            assert(texts(a@)[i as int] != texts(b@)[i as int]);
            return false;
        }
        i += 1;
    }
    assert(texts(a@) =~= texts(b@));
    true
}

/// A live stream.
#[verifier::ext_equal]
pub struct StreamModel {
    pub game_id: Seq<char>,
    pub game_name: Seq<char>,
    pub id: Seq<char>,
    pub language: Seq<char>,
    pub is_mature: bool,
    pub started_at: Seq<char>,
    pub tag_ids: Seq<Seq<char>>,
    pub tags: Seq<Seq<char>>,
    pub thumbnail_url: Seq<char>,
    pub title: Seq<char>,
    pub type_: Seq<char>,
    pub user_id: Seq<char>,
    pub user_name: Seq<char>,
    pub user_login: Seq<char>,
    pub viewer_count: nat,
}

/// A live stream.
#[derive(Debug)]
pub struct Stream {
    pub game_id: String,
    pub game_name: String,
    pub id: String,
    pub language: String,
    pub is_mature: bool,
    pub started_at: String,
    pub tag_ids: Vec<String>,
    pub tags: Vec<String>,
    pub thumbnail_url: String,
    pub title: String,
    pub type_: String,
    pub user_id: String,
    pub user_name: String,
    pub user_login: String,
    pub viewer_count: usize,
}

impl View for Stream {
    type V = StreamModel;

    open spec fn view(&self) -> StreamModel {
        StreamModel {
            game_id: self.game_id@,
            game_name: self.game_name@,
            id: self.id@,
            language: self.language@,
            is_mature: self.is_mature,
            started_at: self.started_at@,
            tag_ids: texts(self.tag_ids@),
            tags: texts(self.tags@),
            thumbnail_url: self.thumbnail_url@,
            title: self.title@,
            type_: self.type_@,
            user_id: self.user_id@,
            user_name: self.user_name@,
            user_login: self.user_login@,
            viewer_count: self.viewer_count as nat,
        }
    }
}

impl Clone for Stream {
    fn clone(&self) -> (r: Stream)
        ensures
            r@ == self@,
    {
        Stream {
            game_id: self.game_id.clone(),
            game_name: self.game_name.clone(),
            id: self.id.clone(),
            language: self.language.clone(),
            is_mature: self.is_mature,
            started_at: self.started_at.clone(),
            tag_ids: self.tag_ids.clone(),
            tags: self.tags.clone(),
            thumbnail_url: self.thumbnail_url.clone(),
            title: self.title.clone(),
            type_: self.type_.clone(),
            user_id: self.user_id.clone(),
            user_name: self.user_name.clone(),
            user_login: self.user_login.clone(),
            viewer_count: self.viewer_count,
        }
    }
}

impl Stream {
    /// Whether nothing differs between two streams.
    pub fn equals(&self, other: &Stream) -> (r: bool)
        ensures
            r == (self@ == other@),
    {
        same(self.game_id.as_str(), other.game_id.as_str()) && same(
            self.game_name.as_str(),
            other.game_name.as_str(),
        ) && same(self.id.as_str(), other.id.as_str()) && same(
            self.language.as_str(),
            other.language.as_str(),
        ) && self.is_mature == other.is_mature && same(
            self.started_at.as_str(),
            other.started_at.as_str(),
        ) && same_texts(&self.tag_ids, &other.tag_ids) && same_texts(&self.tags, &other.tags)
            && same(self.thumbnail_url.as_str(), other.thumbnail_url.as_str()) && same(
            self.title.as_str(),
            other.title.as_str(),
        ) && same(self.type_.as_str(), other.type_.as_str()) && same(
            self.user_id.as_str(),
            other.user_id.as_str(),
        ) && same(self.user_name.as_str(), other.user_name.as_str()) && same(
            self.user_login.as_str(),
            other.user_login.as_str(),
        ) && self.viewer_count == other.viewer_count
    }
}

/// A stretch of a video without sound.
#[derive(Clone, Copy, Debug, PartialEq, Eq, Structural)]
pub struct MutedSegment {
    pub duration: i64,
    pub offset: i64,
}

/// A recording.
#[verifier::ext_equal]
pub struct VideoModel {
    pub created_at: Seq<char>,
    pub description: Seq<char>,
    pub duration: Seq<char>,
    pub id: Seq<char>,
    pub language: Seq<char>,
    pub muted_segments: Seq<MutedSegment>,
    pub published_at: Seq<char>,
    pub stream_id: Option<Seq<char>>,
    pub thumbnail_url: Seq<char>,
    pub title: Seq<char>,
    pub type_: Seq<char>,
    pub url: Seq<char>,
    pub user_id: Seq<char>,
    pub user_name: Seq<char>,
    pub user_login: Seq<char>,
    pub view_count: int,
    pub viewable: Seq<char>,
}

/// A recording.
#[derive(Debug)]
pub struct Video {
    pub created_at: String,
    pub description: String,
    pub duration: String,
    pub id: String,
    pub language: String,
    pub muted_segments: Vec<MutedSegment>,
    pub published_at: String,
    pub stream_id: Option<String>,
    pub thumbnail_url: String,
    pub title: String,
    pub type_: String,
    pub url: String,
    pub user_id: String,
    pub user_name: String,
    pub user_login: String,
    pub view_count: i64,
    pub viewable: String,
}

impl View for Video {
    type V = VideoModel;

    open spec fn view(&self) -> VideoModel {
        VideoModel {
            created_at: self.created_at@,
            description: self.description@,
            duration: self.duration@,
            id: self.id@,
            language: self.language@,
            muted_segments: self.muted_segments@,
            published_at: self.published_at@,
            stream_id: opt_text(self.stream_id),
            thumbnail_url: self.thumbnail_url@,
            title: self.title@,
            type_: self.type_@,
            url: self.url@,
            user_id: self.user_id@,
            user_name: self.user_name@,
            user_login: self.user_login@,
            view_count: self.view_count as int,
            viewable: self.viewable@,
        }
    }
}

impl Clone for Video {
    fn clone(&self) -> (r: Video)
        ensures
            r@ == self@,
    {
        Video {
            created_at: self.created_at.clone(),
            description: self.description.clone(),
            duration: self.duration.clone(),
            id: self.id.clone(),
            language: self.language.clone(),
            muted_segments: self.muted_segments.clone(),
            published_at: self.published_at.clone(),
            stream_id: self.stream_id.clone(),
            thumbnail_url: self.thumbnail_url.clone(),
            title: self.title.clone(),
            type_: self.type_.clone(),
            url: self.url.clone(),
            user_id: self.user_id.clone(),
            user_name: self.user_name.clone(),
            user_login: self.user_login.clone(),
            view_count: self.view_count,
            viewable: self.viewable.clone(),
        }
    }
}

fn same_segments(a: &Vec<MutedSegment>, b: &Vec<MutedSegment>) -> (r: bool)
    ensures
        r == (a@ == b@),
{
    if a.len() != b.len() {
        return false;
    }
    let mut i: usize = 0;
    while i < a.len()
        invariant
            i <= a.len(),
            a.len() == b.len(),
            forall|j: int| 0 <= j < i ==> a@[j] == b@[j],
        decreases a.len() - i,
    {
        if a[i] != b[i] {
            return false;
        }
        i += 1;
    }
    assert(a@ =~= b@);
    true
}

impl Video {
    /// Whether nothing differs between two videos.
    pub fn equals(&self, other: &Video) -> (r: bool)
        ensures
            r == (self@ == other@),
    {
        same(self.created_at.as_str(), other.created_at.as_str()) && same(
            self.description.as_str(),
            other.description.as_str(),
        ) && same(self.duration.as_str(), other.duration.as_str()) && same(
            self.id.as_str(),
            other.id.as_str(),
        ) && same(self.language.as_str(), other.language.as_str()) && same_segments(
            &self.muted_segments,
            &other.muted_segments,
        ) && same(self.published_at.as_str(), other.published_at.as_str()) && same_opt(
            &self.stream_id,
            &other.stream_id,
        ) && same(self.thumbnail_url.as_str(), other.thumbnail_url.as_str()) && same(
            self.title.as_str(),
            other.title.as_str(),
        ) && same(self.type_.as_str(), other.type_.as_str()) && same(
            self.url.as_str(),
            other.url.as_str(),
        ) && same(self.user_id.as_str(), other.user_id.as_str()) && same(
            self.user_name.as_str(),
            other.user_name.as_str(),
        ) && same(self.user_login.as_str(), other.user_login.as_str()) && self.view_count
            == other.view_count && same(self.viewable.as_str(), other.viewable.as_str())
    }
}

/// What an optional video holds.
pub open spec fn opt_video(v: Option<Video>) -> Option<VideoModel> {
    match v {
        Some(v) => Some(v@),
        None => None,
    }
}

/// A copy of an optional video.
pub fn copy_video(v: &Option<Video>) -> (r: Option<Video>)
    ensures
        opt_video(r) == opt_video(*v),
{
    match v {
        Some(v) => Some(v.clone()),
        None => None,
    }
}

/// Whether nothing differs between two optional videos.
pub fn same_video(a: &Option<Video>, b: &Option<Video>) -> (r: bool)
    ensures
        r == (opt_video(*a) == opt_video(*b)),
{
    match (a, b) {
        (Some(x), Some(y)) => x.equals(y),
        (None, None) => true,
        _ => false,
    }
}

/// A live stream and its recording, if there is one.
#[verifier::ext_equal]
pub struct LiveModel {
    pub stream: StreamModel,
    pub video: Option<VideoModel>,
}

/// A live stream and its recording, if there is one.
#[derive(Debug)]
pub struct Live {
    pub stream: Stream,
    pub video: Option<Video>,
}

impl View for Live {
    type V = LiveModel;

    open spec fn view(&self) -> LiveModel {
        LiveModel { stream: self.stream@, video: opt_video(self.video) }
    }
}

impl Clone for Live {
    fn clone(&self) -> (r: Live)
        ensures
            r@ == self@,
    {
        Live { stream: self.stream.clone(), video: copy_video(&self.video) }
    }
}

impl Live {
    /// Whether nothing differs between two.
    pub fn equals(&self, other: &Live) -> (r: bool)
        ensures
            r == (self@ == other@),
    {
        self.stream.equals(&other.stream) && same_video(&self.video, &other.video)
    }
}

// ---------------------------------------------------------------------------
// News about a stream
// ---------------------------------------------------------------------------

/// News about a stream.
pub enum NotificationModel {
    Online(LiveModel),
    Update(LiveModel),
    Offline(LiveModel),
}

impl NotificationModel {
    /// The stream that the news is about, with its recording.
    pub open spec fn live(self) -> LiveModel {
        match self {
            NotificationModel::Online(live) => live,
            NotificationModel::Update(live) => live,
            NotificationModel::Offline(live) => live,
        }
    }
}

/// News about a stream.
#[derive(Debug)]
pub enum Notification {
    Online(Stream, Option<Video>),
    Update(Stream, Option<Video>),
    Offline(Stream, Option<Video>),
}

impl View for Notification {
    type V = NotificationModel;

    open spec fn view(&self) -> NotificationModel {
        match *self {
            Notification::Online(s, v) => NotificationModel::Online(
                LiveModel { stream: s@, video: opt_video(v) },
            ),
            Notification::Update(s, v) => NotificationModel::Update(
                LiveModel { stream: s@, video: opt_video(v) },
            ),
            Notification::Offline(s, v) => NotificationModel::Offline(
                LiveModel { stream: s@, video: opt_video(v) },
            ),
        }
    }
}

/// What optional news holds.
pub open spec fn opt_notification(n: Option<Notification>) -> Option<NotificationModel> {
    match n {
        Some(n) => Some(n@),
        None => None,
    }
}

impl Clone for Notification {
    fn clone(&self) -> (r: Notification)
        ensures
            r@ == self@,
    {
        match self {
            Notification::Online(s, v) => Notification::Online(s.clone(), copy_video(v)),
            Notification::Update(s, v) => Notification::Update(s.clone(), copy_video(v)),
            Notification::Offline(s, v) => Notification::Offline(s.clone(), copy_video(v)),
        }
    }
}

impl Notification {
    /// The stream that the news is about.
    pub fn stream(&self) -> (r: &Stream)
        ensures
            r@ == self@.live().stream,
    {
        match self {
            Notification::Online(stream, _) => stream,
            Notification::Update(stream, _) => stream,
            Notification::Offline(stream, _) => stream,
        }
    }

    /// The recording of the stream that the news is about.
    pub fn video(&self) -> (r: Option<&Video>)
        ensures
            match r {
                Some(v) => self@.live().video == Some(v@),
                None => self@.live().video is None,
            },
    {
        match self {
            Notification::Online(_, video) => video.as_ref(),
            Notification::Update(_, video) => video.as_ref(),
            Notification::Offline(_, video) => video.as_ref(),
        }
    }
}

// ---------------------------------------------------------------------------
// Channels
// ---------------------------------------------------------------------------

/// A channel that was found for a login.
#[verifier::ext_equal]
pub struct ChannelModel {
    pub id: Seq<char>,
    pub broadcaster_login: Seq<char>,
    pub thumbnail_url: Seq<char>,
}

/// A channel that was found for a login.
#[derive(Debug)]
pub struct Channel {
    pub id: String,
    pub broadcaster_login: String,
    pub thumbnail_url: String,
}

impl View for Channel {
    type V = ChannelModel;

    open spec fn view(&self) -> ChannelModel {
        ChannelModel {
            id: self.id@,
            broadcaster_login: self.broadcaster_login@,
            thumbnail_url: self.thumbnail_url@,
        }
    }
}

impl Clone for Channel {
    fn clone(&self) -> (r: Channel)
        ensures
            r == *self,
    {
        Channel {
            id: self.id.clone(),
            broadcaster_login: self.broadcaster_login.clone(),
            thumbnail_url: self.thumbnail_url.clone(),
        }
    }
}

/// Channels by their identifier. No two have the same.
#[derive(Debug)]
pub struct Broadcasters {
    channels: Vec<Channel>,
}

pub closed spec fn distinct_channels(channels: Seq<Channel>) -> bool {
    forall|i: int, j: int|
        0 <= i < j < channels.len() ==> (#[trigger] channels[i]).id@ != (#[trigger]
        channels[j]).id@
}

pub closed spec fn channel_at(channels: Seq<Channel>, id: Seq<char>, i: int) -> bool {
    0 <= i < channels.len() && channels[i].id@ == id
}

impl View for Broadcasters {
    type V = Map<Seq<char>, ChannelModel>;

    closed spec fn view(&self) -> Map<Seq<char>, ChannelModel> {
        Map::new(
            |id: Seq<char>| exists|i: int| channel_at(self.channels@, id, i),
            |id: Seq<char>|
                self.channels@[choose|i: int| channel_at(self.channels@, id, i)]@,
        )
    }
}

impl Broadcasters {
    #[verifier::type_invariant]
    spec fn inv(self) -> bool {
        distinct_channels(self.channels@)
    }

    /// No channels.
    pub fn new() -> (r: Broadcasters)
        ensures
            r@ == Map::<Seq<char>, ChannelModel>::empty(),
    {
        let r = Broadcasters { channels: Vec::new() };
        assert(r@ =~= Map::<Seq<char>, ChannelModel>::empty());
        r
    }

    proof fn lemma_at(&self, i: int)
        requires
            distinct_channels(self.channels@),
            0 <= i < self.channels@.len(),
        ensures
            self@.contains_pair(self.channels@[i].id@, self.channels@[i]@),
    {
        let id = self.channels@[i].id@;
        assert(channel_at(self.channels@, id, i));
        let j = choose|j: int| channel_at(self.channels@, id, j);
        if i < j {
            assert(self.channels@[i].id@ != self.channels@[j].id@);
        }
        if j < i {
            assert(self.channels@[j].id@ != self.channels@[i].id@);
        }
    }

    /// Adds a channel, over an earlier one with the same identifier.
    pub fn insert(&mut self, channel: Channel)
        ensures
            final(self)@ == old(self)@.insert(channel@.id, channel@),
    {
        proof {
            use_type_invariant(&*self);
        }
        let ghost before = *self;
        let ghost start = self.channels@;
        let ghost added = channel@;
        let mut old_channels: Vec<Channel> = Vec::new();
        std::mem::swap(&mut old_channels, &mut self.channels);
        let mut channels: Vec<Channel> = Vec::new();
        let mut i: usize = 0;
        let mut found = false;
        while i < old_channels.len()
            invariant
                i <= old_channels.len(),
                old_channels@ == start,
                distinct_channels(start),
                channel@ == added,
                channels@.len() == i,
                forall|j: int|
                    0 <= j < i ==> (#[trigger] channels@[j])@ == (if start[j].id@ == added.id {
                        added
                    } else {
                        start[j]@
                    }),
                found == (exists|j: int| 0 <= j < i && (#[trigger] start[j]).id@ == added.id),
            decreases old_channels.len() - i,
        {
            if same(old_channels[i].id.as_str(), channel.id.as_str()) {
                found = true;
                channels.push(channel.clone());
            } else {
                channels.push(old_channels[i].clone());
            }
            i += 1;
        }
        if !found {
            channels.push(channel);
        }
        proof {
            assert forall|a: int, b: int| 0 <= a < b < channels@.len() implies (#[trigger]
            channels@[a]).id@ != (#[trigger] channels@[b]).id@ by {
                assert(channels@[a]@.id == channels@[a].id@);
                assert(channels@[b]@.id == channels@[b].id@);
                if b < start.len() {
                    assert(start[a].id@ != start[b].id@);
                } else {
                    assert(start[a].id@ != added.id);
                }
            }
        }
        self.channels = channels;
        proof {
            let m = before@.insert(added.id, added);
            assert forall|i: int| 0 <= i < self.channels@.len() implies self@.contains_pair(
                (#[trigger] self.channels@[i])@.id,
                self.channels@[i]@,
            ) by {
                self.lemma_at(i);
            }
            assert forall|id: Seq<char>| #[trigger] m.contains_key(id) implies self@.contains_pair(
                id,
                m[id],
            ) by {
                if id == added.id {
                    if found {
                        let j = choose|j: int|
                            0 <= j < start.len() && (#[trigger] start[j]).id@ == added.id;
                        assert(self.channels@[j]@ == added);
                    } else {
                        assert(self.channels@[start.len() as int]@ == added);
                    }
                } else {
                    let j = choose|j: int| channel_at(start, id, j);
                    assert(channel_at(start, id, j));
                    assert(self.channels@[j]@ == start[j]@);
                }
            }
            assert forall|id: Seq<char>| #[trigger] self@.contains_key(id) implies m.contains_key(
                id,
            ) by {
                let j = choose|j: int| channel_at(self.channels@, id, j);
                assert(channel_at(self.channels@, id, j));
                assert(self.channels@[j]@.id == id);
                if j < start.len() && start[j].id@ != added.id {
                    assert(channel_at(start, id, j));
                }
            }
            assert(self@ =~= m);
        }
    }

    /// The same channels again.
    pub fn copy(&self) -> (r: Broadcasters)
        ensures
            r@ == self@,
    {
        proof {
            use_type_invariant(self);
        }
        let mut channels: Vec<Channel> = Vec::new();
        let mut i: usize = 0;
        while i < self.channels.len()
            invariant
                i <= self.channels.len(),
                channels@ == self.channels@.take(i as int),
            decreases self.channels.len() - i,
        {
            channels.push(self.channels[i].clone());
            assert(self.channels@.take(i + 1) =~= self.channels@.take(i as int).push(
                self.channels@[i as int],
            ));
            i += 1;
        }
        assert(channels@ =~= self.channels@);
        Broadcasters { channels }
    }

    /// The channel with an identifier.
    pub fn get(&self, id: &str) -> (r: Option<&Channel>)
        ensures
            match r {
                Some(c) => self@.contains_pair(id@, c@),
                None => !self@.contains_key(id@),
            },
    {
        proof {
            use_type_invariant(self);
        }
        let mut i: usize = 0;
        while i < self.channels.len()
            invariant
                i <= self.channels.len(),
                distinct_channels(self.channels@),
                forall|j: int| 0 <= j < i ==> !channel_at(self.channels@, id@, j),
            decreases self.channels.len() - i,
        {
            if same(self.channels[i].id.as_str(), id) {
                proof {
                    self.lemma_at(i as int);
                }
                return Some(&self.channels[i]);
            }
            i += 1;
        }
        None
    }

    /// The identifiers, each once.
    pub fn ids(&self) -> (r: Vec<String>)
        ensures
            lists_keys(texts(r@), self@.dom()),
    {
        proof {
            use_type_invariant(self);
        }
        let mut out: Vec<String> = Vec::new();
        let mut i: usize = 0;
        while i < self.channels.len()
            invariant
                i <= self.channels.len(),
                out@.len() == i,
                forall|j: int| 0 <= j < i ==> (#[trigger] out@[j])@ == self.channels@[j].id@,
            decreases self.channels.len() - i,
        {
            out.push(self.channels[i].id.clone());
            i += 1;
        }
        proof {
            let ids = texts(out@);
            assert forall|i: int| 0 <= i < ids.len() implies self@.dom().contains(
                #[trigger] ids[i],
            ) by {
                assert(out@[i]@ == self.channels@[i].id@);
                self.lemma_at(i);
            }
            assert forall|i: int, j: int| 0 <= i < j < ids.len() implies ids[i] != ids[j] by {
                assert(out@[i]@ == self.channels@[i].id@);
                assert(out@[j]@ == self.channels@[j].id@);
            }
            assert forall|k: Seq<char>| #[trigger] self@.dom().contains(k) implies ids.contains(
                k,
            ) by {
                let j = choose|j: int| channel_at(self.channels@, k, j);
                assert(channel_at(self.channels@, k, j));
                assert(out@[j]@ == self.channels@[j].id@);
                assert(ids[j] == k);
            }
        }
        out
    }
}

/// Whether `list` holds the members of `keys`, each once.
pub open spec fn lists_keys(list: Seq<Seq<char>>, keys: Set<Seq<char>>) -> bool {
    &&& forall|i: int| 0 <= i < list.len() ==> keys.contains(#[trigger] list[i])
    &&& forall|i: int, j: int| 0 <= i < j < list.len() ==> list[i] != list[j]
    &&& forall|k: Seq<char>| #[trigger] keys.contains(k) ==> list.contains(k)
}

// ---------------------------------------------------------------------------
// Laws
// ---------------------------------------------------------------------------


/// What is known of a stream is what Twitch says of it, each thing in its place.
pub proof fn law_nothing_about_a_stream_is_left_out(s: Stream, i: int)
    ensures
        s@.game_id == s.game_id@,
        s@.game_name == s.game_name@,
        s@.id == s.id@,
        s@.language == s.language@,
        s@.started_at == s.started_at@,
        s@.thumbnail_url == s.thumbnail_url@,
        s@.title == s.title@,
        s@.type_ == s.type_@,
        s@.user_id == s.user_id@,
        s@.user_name == s.user_name@,
        s@.user_login == s.user_login@,
        s@.is_mature == s.is_mature,
        s@.viewer_count == s.viewer_count,
        s@.tag_ids.len() == s.tag_ids@.len(),
        0 <= i < s.tag_ids@.len() ==> s@.tag_ids[i] == s.tag_ids@[i]@,
        s@.tags.len() == s.tags@.len(),
        0 <= i < s.tags@.len() ==> s@.tags[i] == s.tags@[i]@,
{
}

/// What is known of a recording is what Twitch says of it, each thing in its place.
pub proof fn law_nothing_about_a_recording_is_left_out(v: Video)
    ensures
        v@.created_at == v.created_at@,
        v@.description == v.description@,
        v@.duration == v.duration@,
        v@.id == v.id@,
        v@.language == v.language@,
        v@.muted_segments == v.muted_segments@,
        v@.published_at == v.published_at@,
        v@.thumbnail_url == v.thumbnail_url@,
        v@.title == v.title@,
        v@.type_ == v.type_@,
        v@.url == v.url@,
        v@.user_id == v.user_id@,
        v@.user_name == v.user_name@,
        v@.user_login == v.user_login@,
        v@.viewable == v.viewable@,
        v@.view_count == v.view_count,
        v.stream_id is None <==> v@.stream_id is None,
        v.stream_id matches Some(id) ==> v@.stream_id == Some(id@),
{
}

/// News is about the stream and the recording that it was made of, whatever it says
/// of them, and different news of them differ.
pub proof fn law_news_is_about_its_stream(s: Stream, v: Option<Video>)
    ensures
        Notification::Online(s, v)@.live().stream == s@,
        Notification::Update(s, v)@.live().stream == s@,
        Notification::Offline(s, v)@.live().stream == s@,
        v matches Some(video) ==> Notification::Online(s, v)@.live().video == Some(video@)
            && Notification::Update(s, v)@.live().video == Some(video@)
            && Notification::Offline(s, v)@.live().video == Some(video@),
        v is None ==> Notification::Online(s, v)@.live().video is None && Notification::Update(
            s,
            v,
        )@.live().video is None && Notification::Offline(s, v)@.live().video is None,
        Notification::Online(s, v)@ is Online,
        Notification::Update(s, v)@ is Update,
        Notification::Offline(s, v)@ is Offline,
{
}

/// A list of the members of a set holds each of them, in one place, and nothing else.
pub proof fn law_members_are_listed_once(
    list: Seq<Seq<char>>,
    keys: Set<Seq<char>>,
    k: Seq<char>,
    i: int,
    j: int,
)
    requires
        lists_keys(list, keys),
    ensures
        list.contains(k) <==> keys.contains(k),
        0 <= i < list.len() && 0 <= j < list.len() && list[i] == list[j] ==> i == j,
{
}

/// What is known of a stream that is live is known of the stream and of its recording, and
/// what is known of a channel is what was found.
pub proof fn law_nothing_known_is_left_out(l: Live, c: Channel)
    ensures
        l@.stream == l.stream@,
        l.video is None <==> l@.video is None,
        l.video matches Some(v) ==> l@.video == Some(v@),
        c@.id == c.id@,
        c@.broadcaster_login == c.broadcaster_login@,
        c@.thumbnail_url == c.thumbnail_url@,
{
}

} // verus!
