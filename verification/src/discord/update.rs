//! Bringing a channel up to date about a stream, without telling it twice.
//!
//! There is no database. What a notification was for stands in its message, so
//! before one is sent the channel is searched for one that can be edited.

use vstd::prelude::*;
use vstd::string::*;

use crate::config::{NotifyConfig, NotifyModel};
use crate::discord::cache::{
    in_order, later, lemma_sortable, lemma_time_order, notifs, time_order, CacheKey,
};
use crate::discord::connection::{
    law_only_own_messages_count, law_own_messages_are_found, messages_model, notif_info,
    own_notifs, own_read_back, remembering, synced, DiscordModel, InnerConnection, MESSAGES_READ,
};
use crate::discord::embed::{
    embed_fields, embed_model, law_buttons_once_over, law_buttons_while_on, law_game_and_viewers_are_shown,
    law_headlines, law_the_embed_shows_the_stream, rows_model, sent_thumbnail,
    streaming_headline, streaming_rows, vod_headline, vod_rows, ActionRow, EmbedModel, FieldModel,
    StreamEmbed,
};
use crate::discord::format::rendered;
use crate::discord::info::{InfoModel, StreamInfo};
use crate::discord::messaging::{
    notif_of, reads_back, shows, Message, MessageModel, NotifModel, StreamNotifMessage,
};
use crate::text::{blank, decimal, join, replaced, same, u64_text};
use crate::time::{rfc3339_parts, UtcModel, UtcTime, ZonedModel};
use crate::twitch::types::{LiveModel, Notification, NotificationModel, StreamModel};

verus! {

// ---------------------------------------------------------------------------
// What is written
// ---------------------------------------------------------------------------

/// What a message is made of.
#[derive(Debug)]
pub struct Post {
    pub content: String,
    pub embed: StreamEmbed,
    pub components: Vec<ActionRow>,
}

/// A message that is to be written anew, the stream it is for, and whether it
/// then tells that the stream is over.
#[derive(Debug)]
pub struct Edit {
    pub channel_id: u64,
    pub message_id: u64,
    pub stream_id: String,
    pub ended: bool,
    pub post: Post,
}

/// Whether an embed shows a stream, at a moment.
pub open spec fn embed_shows(embed: StreamEmbed, info: InfoModel, now: UtcModel) -> bool {
    &&& sent_thumbnail(embed@.thumbnail, info)
    &&& embed@ == embed_model(info, now, embed@.thumbnail)
}

/// Whether a post tells that a stream is on.
pub open spec fn post_streaming(post: Post, info: InfoModel, now: UtcModel) -> bool {
    &&& post.content@ == streaming_headline(info)
    &&& embed_shows(post.embed, info, now)
    &&& rows_model(post.components@) == streaming_rows(info)
}

/// Whether a post tells that a stream is over.
pub open spec fn post_ended(post: Post, info: InfoModel, now: UtcModel) -> bool {
    &&& post.content@ == vod_headline(info)
    &&& embed_shows(post.embed, info, now)
    &&& rows_model(post.components@) == match vod_rows(info) {
        Some(rows) => rows,
        None => seq![],
    }
}

/// Whether an edit makes a notification tell that the stream is on.
pub open spec fn edit_streaming(
    e: Edit,
    channel_id: u64,
    message_id: u64,
    info: InfoModel,
    now: UtcModel,
) -> bool {
    &&& e.channel_id == channel_id
    &&& e.message_id == message_id
    &&& e.stream_id@ == info.stream_id
    &&& !e.ended
    &&& post_streaming(e.post, info, now)
}

/// Whether an edit makes a notification tell that the stream is over.
pub open spec fn edit_ended(
    e: Edit,
    channel_id: u64,
    message_id: u64,
    info: InfoModel,
    now: UtcModel,
) -> bool {
    &&& e.channel_id == channel_id
    &&& e.message_id == message_id
    &&& e.stream_id@ == info.stream_id
    &&& e.ended
    &&& post_ended(e.post, info, now)
}

/// A message that tells that a stream is on.
pub fn streaming_post(info: &StreamInfo, now: UtcTime) -> (r: Post)
    ensures
        post_streaming(r, info@, now@),
{
    Post {
        content: info.headline_streaming(),
        embed: info.stream_embed(now),
        components: info.streaming_components(),
    }
}

/// A message that tells that a stream is over.
pub fn ended_post(info: &StreamInfo, now: UtcTime) -> (r: Post)
    ensures
        post_ended(r, info@, now@),
{
    let components = match info.vod_components() {
        Some(rows) => rows,
        None => {
            let rows: Vec<ActionRow> = Vec::new();
            assert(rows_model(rows@) =~= seq![]);
            rows
        },
    };
    Post { content: info.headline_vod(), embed: info.stream_embed(now), components }
}

// ---------------------------------------------------------------------------
// What is meant
// ---------------------------------------------------------------------------

/// How an update ended.
pub enum OutcomeModel {
    Edited,
    Skipped(u64),
    Nothing,
    Sent,
    Failed(Seq<char>),
}

/// How an update ended.
#[derive(Debug)]
pub enum Outcome {
    /// A notification was brought up to date.
    Edited,
    /// The notification in this channel was up to date: it told already that
    /// the stream is over.
    Skipped(u64),
    /// There was nothing to do.
    Nothing,
    /// A notification was sent.
    Sent,
    /// It did not work out.
    Failed(String),
}

impl View for Outcome {
    type V = OutcomeModel;

    open spec fn view(&self) -> OutcomeModel {
        match *self {
            Outcome::Edited => OutcomeModel::Edited,
            Outcome::Skipped(channel_id) => OutcomeModel::Skipped(channel_id),
            Outcome::Nothing => OutcomeModel::Nothing,
            Outcome::Sent => OutcomeModel::Sent,
            Outcome::Failed(e) => OutcomeModel::Failed(e@),
        }
    }
}

/// The name under which updates with an outcome are counted.
pub open spec fn edit_type_text(o: OutcomeModel) -> Seq<char> {
    match o {
        OutcomeModel::Edited => "edit"@,
        OutcomeModel::Skipped(_) => "edit"@,
        OutcomeModel::Nothing => "none"@,
        OutcomeModel::Sent => "new"@,
        OutcomeModel::Failed(_) => "error"@,
    }
}

impl Outcome {
    /// The name under which an update is counted.
    pub fn edit_type(&self) -> (r: &'static str)
        ensures
            r@ == edit_type_text(self@),
    {
        match self {
            Outcome::Edited => "edit",
            Outcome::Skipped(_) => "edit",
            Outcome::Nothing => "none",
            Outcome::Sent => "new",
            Outcome::Failed(_) => "error",
        }
    }
}

/// What an update does next: it edits the message with this number in this
/// channel, waits, reads a channel, sends to a channel, or ends.
pub enum Intent {
    EditStreaming(u64, u64, InfoModel),
    EditEnded(u64, u64, InfoModel),
    Backoff(u64),
    Fetch(u64, u64),
    Send(u64, InfoModel),
    Done(OutcomeModel),
}

/// What an update does next.
#[derive(Debug)]
pub enum Action {
    /// Write a message anew.
    Edit(Edit),
    /// Wait so many seconds.
    Backoff(u64),
    /// Read the latest messages of a channel, so many of them.
    Fetch(u64, u64),
    /// Send a message to a channel.
    Send(u64, Post),
    /// Nothing any more.
    Done(Outcome),
}

/// Whether an action does what is meant.
pub open spec fn carries_out(action: Action, intent: Intent, now: UtcModel) -> bool {
    match intent {
        Intent::EditStreaming(channel_id, message_id, info) => action matches Action::Edit(e)
            && edit_streaming(e, channel_id, message_id, info, now),
        Intent::EditEnded(channel_id, message_id, info) => action matches Action::Edit(e)
            && edit_ended(e, channel_id, message_id, info, now),
        Intent::Backoff(secs) => action == Action::Backoff(secs),
        Intent::Fetch(channel_id, limit) => action == Action::Fetch(channel_id, limit),
        Intent::Send(channel_id, info) => action matches Action::Send(to, post) && to == channel_id
            && post_streaming(post, info, now),
        Intent::Done(outcome) => action matches Action::Done(o) && o@ == outcome,
    }
}

/// How far an update is.
#[derive(Clone, Copy, Debug, PartialEq, Eq, Structural)]
pub enum Phase {
    /// A notification that is known is being edited.
    EditingCached,
    /// That did not work out, and it is left alone for a while.
    BackingOff,
    /// The channel is being read.
    Fetching,
    /// A notification that was found is being edited.
    EditingFound,
    /// A notification is being sent.
    Sending,
    /// It is over.
    Finished,
}

/// What an update is about, and how far it is.
#[verifier::ext_equal]
pub struct UpdateModel {
    pub channel_id: u64,
    pub cfg: NotifyModel,
    pub notif: NotificationModel,
    pub edit_only: bool,
    pub phase: Phase,
}

impl UpdateModel {
    /// The stream that the update is about.
    pub open spec fn stream_id(self) -> Seq<char> {
        self.notif.live().stream.id
    }

    /// Where its notification stands in the cache.
    pub open spec fn key(self) -> CacheKey {
        (self.channel_id, self.stream_id())
    }
}

/// An update of one channel about one stream.
#[derive(Debug)]
pub struct ChannelUpdate {
    channel_id: u64,
    cfg: NotifyConfig,
    notif: Notification,
    edit_only: bool,
    phase: Phase,
}

impl View for ChannelUpdate {
    type V = UpdateModel;

    closed spec fn view(&self) -> UpdateModel {
        UpdateModel {
            channel_id: self.channel_id,
            cfg: self.cfg@,
            notif: self.notif@,
            edit_only: self.edit_only,
            phase: self.phase,
        }
    }
}

/// What came of the last action.
pub enum UpdateEventModel {
    Edited(MessageModel),
    EditFailed(Seq<char>),
    BackedOff,
    Fetched(Seq<MessageModel>),
    FetchFailed(Seq<char>),
    Sent(MessageModel),
    SendFailed(Seq<char>),
}

/// What came of the last action.
#[derive(Debug)]
pub enum UpdateEvent {
    /// The message as it is now.
    Edited(Message),
    EditFailed(String),
    BackedOff,
    /// The messages that were read.
    Fetched(Vec<Message>),
    FetchFailed(String),
    /// The message that was sent.
    Sent(Message),
    SendFailed(String),
}

impl View for UpdateEvent {
    type V = UpdateEventModel;

    open spec fn view(&self) -> UpdateEventModel {
        match *self {
            UpdateEvent::Edited(m) => UpdateEventModel::Edited(m@),
            UpdateEvent::EditFailed(e) => UpdateEventModel::EditFailed(e@),
            UpdateEvent::BackedOff => UpdateEventModel::BackedOff,
            UpdateEvent::Fetched(ms) => UpdateEventModel::Fetched(messages_model(ms@)),
            UpdateEvent::FetchFailed(e) => UpdateEventModel::FetchFailed(e@),
            UpdateEvent::Sent(m) => UpdateEventModel::Sent(m@),
            UpdateEvent::SendFailed(e) => UpdateEventModel::SendFailed(e@),
        }
    }
}

/// Whether an event answers the action of a phase.
pub open spec fn awaits(phase: Phase, event: UpdateEventModel) -> bool {
    match phase {
        Phase::EditingCached => event is Edited || event is EditFailed,
        Phase::BackingOff => event is BackedOff,
        Phase::Fetching => event is Fetched || event is FetchFailed,
        Phase::EditingFound => event is Edited || event is EditFailed,
        Phase::Sending => event is Sent || event is SendFailed,
        Phase::Finished => false,
    }
}

/// How long to wait before an edit that failed is followed up.
pub const BACKOFF_SECS: u64 = 5;

/// What the notification is to say about the news. Where there is no recording
/// in the news, the one that it told of before stays.
pub open spec fn renewed_info(info: InfoModel, before: InfoModel) -> InfoModel {
    InfoModel {
        video_id: match info.video_id {
            Some(v) => Some(v),
            None => before.video_id,
        },
        ..info
    }
}

/// What is done about a notification that stands in the channel. One that
/// tells already that the stream is over is left alone.
pub open spec fn existing_intent(
    conn: DiscordModel,
    message: NotifModel,
    cfg: NotifyModel,
    notif: NotificationModel,
) -> Intent {
    let info = renewed_info(notif_info(conn.bcids, notif, cfg), message.info);
    if notif is Offline {
        if message.info.offline {
            Intent::Done(OutcomeModel::Skipped(message.channel_id))
        } else {
            Intent::EditEnded(message.channel_id, message.message_id, info)
        }
    } else {
        Intent::EditStreaming(message.channel_id, message.message_id, info)
    }
}

/// What an update does first: it edits the notification that is known, or
/// reads the channel.
pub open spec fn start_intent(conn: DiscordModel, update: UpdateModel) -> Intent {
    match conn.cache.messages.get(update.key()) {
        Some(message) => existing_intent(conn, message, update.cfg, update.notif),
        None => Intent::Fetch(update.channel_id, MESSAGES_READ),
    }
}

/// The last notification of a stream.
pub open spec fn last_of(list: Seq<NotifModel>, stream_id: Seq<char>) -> Option<NotifModel>
    decreases list.len(),
{
    if list.len() == 0 {
        None
    } else if list.last().info.stream_id == stream_id {
        Some(list.last())
    } else {
        last_of(list.drop_last(), stream_id)
    }
}

/// The latest notification of a stream that the bot wrote, among some messages.
pub open spec fn found_among(
    messages: Seq<MessageModel>,
    user_id: u64,
    stream_id: Seq<char>,
) -> Option<NotifModel> {
    last_of(time_order(own_notifs(messages, user_id)), stream_id)
}

/// Whether a message of the bot that was sent for a stream is among some.
pub open spec fn told_before(
    messages: Seq<MessageModel>,
    user_id: u64,
    stream_id: Seq<char>,
) -> bool {
    exists|i: int, m: InfoModel|
        0 <= i < messages.len() && messages[i].author_id == user_id && m.stream_id == stream_id
            && #[trigger] shows(messages[i], m)
}

/// What an update does next.
pub open spec fn next_intent(
    conn: DiscordModel,
    update: UpdateModel,
    event: UpdateEventModel,
) -> Intent {
    match event {
        UpdateEventModel::Edited(_) => Intent::Done(OutcomeModel::Edited),
        UpdateEventModel::EditFailed(e) => if update.phase is EditingCached {
            Intent::Backoff(BACKOFF_SECS)
        } else {
            Intent::Done(OutcomeModel::Failed(e))
        },
        UpdateEventModel::BackedOff => Intent::Fetch(update.channel_id, MESSAGES_READ),
        UpdateEventModel::Fetched(messages) => match found_among(
            messages,
            conn.user_id,
            update.stream_id(),
        ) {
            Some(message) => existing_intent(conn, message, update.cfg, update.notif),
            None => if update.edit_only || update.notif is Offline {
                Intent::Done(OutcomeModel::Nothing)
            } else {
                Intent::Send(
                    update.channel_id,
                    notif_info(conn.bcids, update.notif, update.cfg),
                )
            },
        },
        UpdateEventModel::FetchFailed(e) => Intent::Done(
            OutcomeModel::Failed("Channel sync error: "@ + e),
        ),
        UpdateEventModel::Sent(_) => Intent::Done(OutcomeModel::Sent),
        UpdateEventModel::SendFailed(e) => Intent::Done(OutcomeModel::Failed(e)),
    }
}

/// What the bot knows after an event.
pub open spec fn discord_after(
    conn: DiscordModel,
    update: UpdateModel,
    event: UpdateEventModel,
) -> DiscordModel {
    match event {
        UpdateEventModel::Edited(m) => remembering(conn, m.channel_id, update.stream_id(), m),
        UpdateEventModel::Fetched(messages) => synced(conn, update.channel_id, messages),
        UpdateEventModel::Sent(m) => remembering(conn, update.channel_id, update.stream_id(), m),
        _ => conn,
    }
}

/// How far an update is once it does something. `first` says whether that is
/// the first thing it does.
pub open spec fn phase_of(intent: Intent, first: bool) -> Phase {
    match intent {
        Intent::EditStreaming(..) => if first {
            Phase::EditingCached
        } else {
            Phase::EditingFound
        },
        Intent::EditEnded(..) => if first {
            Phase::EditingCached
        } else {
            Phase::EditingFound
        },
        Intent::Backoff(_) => Phase::BackingOff,
        Intent::Fetch(..) => Phase::Fetching,
        Intent::Send(..) => Phase::Sending,
        Intent::Done(_) => Phase::Finished,
    }
}

/// An update that begins, and is in the phase of what it does first.
pub open spec fn new_update(
    conn: DiscordModel,
    channel_id: u64,
    cfg: NotifyModel,
    notif: NotificationModel,
    edit_only: bool,
) -> UpdateModel {
    let update = UpdateModel { channel_id, cfg, notif, edit_only, phase: Phase::Finished };
    UpdateModel { phase: phase_of(start_intent(conn, update), true), ..update }
}

/// An update after an event.
pub open spec fn update_after(
    conn: DiscordModel,
    update: UpdateModel,
    event: UpdateEventModel,
) -> UpdateModel {
    UpdateModel { phase: phase_of(next_intent(conn, update, event), false), ..update }
}

/// The last notification of a stream.
fn find_last(list: &Vec<StreamNotifMessage>, stream_id: &str) -> (r: Option<usize>)
    ensures
        match r {
            Some(i) => i < list@.len() && last_of(notifs(list@), stream_id@) == Some(list@[i as int]@),
            None => last_of(notifs(list@), stream_id@) is None,
        },
{
    let ghost all = notifs(list@);
    let mut i: usize = list.len();
    assert(all.take(i as int) =~= all);
    while i > 0
        invariant
            i <= list.len(),
            all == notifs(list@),
            last_of(all, stream_id@) == last_of(all.take(i as int), stream_id@),
        decreases i,
    {
        assert(all.take(i as int).last() == list@[i - 1]@);
        if same(list[i - 1].info.stream_id.as_str(), stream_id) {
            return Some(i - 1);
        }
        assert(all.take(i as int).drop_last() =~= all.take(i - 1));
        i -= 1;
    }
    None
}

impl InnerConnection {
    /// Makes a notification tell that the stream is over; nothing to do where
    /// it does already.
    pub fn set_offline(&self, message: &StreamNotifMessage, info: &StreamInfo, now: UtcTime) -> (r:
        Option<Edit>)
        ensures
            r is None <==> message@.info.offline,
            r matches Some(e) ==> edit_ended(
                e,
                message@.channel_id,
                message@.message_id,
                info@,
                now@,
            ),
    {
        if message.info.offline {
            return None;
        }
        Some(
            Edit {
                channel_id: message.channel_id,
                message_id: message.message_id,
                stream_id: info.stream_id.clone(),
                ended: true,
                post: ended_post(info, now),
            },
        )
    }

    /// Brings a notification up to date.
    pub fn update_existing_message(
        &self,
        message: &StreamNotifMessage,
        cfg: &NotifyConfig,
        notif: &Notification,
        now: UtcTime,
    ) -> (r: Action)
        ensures
            carries_out(r, existing_intent(self@, message@, cfg@, notif@), now@),
    {
        let mut info = self.info_from_notif(notif, cfg);
        if info.video_id.is_none() {
            info.video_id = message.info.video_id.clone();
        }
        assert(info@ =~= renewed_info(notif_info(self@.bcids, notif@, cfg@), message@.info));
        match notif {
            Notification::Offline(..) => match self.set_offline(message, &info, now) {
                Some(edit) => Action::Edit(edit),
                None => Action::Done(Outcome::Skipped(message.channel_id)),
            },
            _ => Action::Edit(
                Edit {
                    channel_id: message.channel_id,
                    message_id: message.message_id,
                    stream_id: info.stream_id.clone(),
                    ended: false,
                    post: streaming_post(&info, now),
                },
            ),
        }
    }

    /// Begins to bring a channel up to date about a stream.
    pub fn update_stream_for_channel(
        &self,
        channel_id: u64,
        cfg: NotifyConfig,
        notif: Notification,
        edit_only: bool,
        now: UtcTime,
    ) -> (r: (ChannelUpdate, Action))
        ensures
            r.0@ == new_update(self@, channel_id, cfg@, notif@, edit_only),
            ({
                let update = UpdateModel {
                    channel_id,
                    cfg: cfg@,
                    notif: notif@,
                    edit_only,
                    phase: r.0@.phase,
                };
                &&& r.0@ == update
                &&& carries_out(r.1, start_intent(self@, update), now@)
                &&& r.0@.phase == phase_of(start_intent(self@, update), true)
            }),
    {
        let action = match self.cached_message(channel_id, notif.stream().id.as_str()) {
            Some(message) => self.update_existing_message(&message, &cfg, &notif, now),
            None => Action::Fetch(channel_id, MESSAGES_READ),
        };
        let phase = match &action {
            Action::Edit(_) => Phase::EditingCached,
            Action::Fetch(..) => Phase::Fetching,
            _ => Phase::Finished,
        };
        (ChannelUpdate { channel_id, cfg, notif, edit_only, phase }, action)
    }
}

impl ChannelUpdate {
    /// How far the update is.
    pub fn phase(&self) -> (r: Phase)
        ensures
            r == self@.phase,
    {
        self.phase
    }

    /// Looks for the notification among the messages of the channel. It is
    /// edited where it is found, and sent where it is not.
    fn after_fetch(&self, conn: &mut InnerConnection, messages: &Vec<Message>, now: UtcTime) -> (r:
        Action)
        ensures
            carries_out(
                r,
                next_intent(
                    old(conn)@,
                    self@,
                    UpdateEventModel::Fetched(messages_model(messages@)),
                ),
                now@,
            ),
            final(conn)@ == synced(old(conn)@, self@.channel_id, messages_model(messages@)),
            told_before(messages_model(messages@), old(conn)@.user_id, self@.stream_id())
                ==> r !is Send,
    {
        let ghost before = conn@;
        let sorted = conn.sync_channel_messages(self.channel_id, messages);
        match find_last(&sorted, self.notif.stream().id.as_str()) {
            Some(i) => conn.update_existing_message(&sorted[i], &self.cfg, &self.notif, now),
            None => {
                proof {
                    if told_before(messages_model(messages@), before.user_id, self@.stream_id()) {
                        lemma_told_is_found(
                            messages_model(messages@),
                            before.user_id,
                            self@.stream_id(),
                        );
                    }
                }
                if self.edit_only {
                    return Action::Done(Outcome::Nothing);
                }
                if !conn.is_ready(self.channel_id) {
                    let channel = join("Cache not ready for ", u64_text(self.channel_id).as_str());
                    let e = join(channel.as_str(), "; was there a failure earlier?");
                    return Action::Done(Outcome::Failed(e));
                }
                match &self.notif {
                    Notification::Offline(..) => Action::Done(Outcome::Nothing),
                    _ => {
                        let info = conn.info_from_notif(&self.notif, &self.cfg);
                        Action::Send(self.channel_id, streaming_post(&info, now))
                    },
                }
            },
        }
    }

    /// Goes on with the update, given what came of its last action.
    ///
    /// Where a message that the bot sent for the stream is among those that
    /// were read, no other is sent.
    pub fn step(&mut self, conn: &mut InnerConnection, event: UpdateEvent, now: UtcTime) -> (r:
        Action)
        requires
            awaits(old(self)@.phase, event@),
        ensures
            carries_out(r, next_intent(old(conn)@, old(self)@, event@), now@),
            final(conn)@ == discord_after(old(conn)@, old(self)@, event@),
            final(self)@ == update_after(old(conn)@, old(self)@, event@),
            final(self)@ == (UpdateModel {
                phase: phase_of(next_intent(old(conn)@, old(self)@, event@), false),
                ..old(self)@
            }),
            event@ matches UpdateEventModel::Fetched(messages) && told_before(
                messages,
                old(conn)@.user_id,
                old(self)@.stream_id(),
            ) ==> r !is Send,
    {
        let action = match event {
            UpdateEvent::Edited(message) => {
                conn.remember(message.channel_id, self.notif.stream().id.clone(), &message);
                Action::Done(Outcome::Edited)
            },
            UpdateEvent::EditFailed(e) => match self.phase {
                Phase::EditingCached => Action::Backoff(BACKOFF_SECS),
                _ => Action::Done(Outcome::Failed(e)),
            },
            UpdateEvent::BackedOff => Action::Fetch(self.channel_id, MESSAGES_READ),
            UpdateEvent::Fetched(messages) => self.after_fetch(conn, &messages, now),
            UpdateEvent::FetchFailed(e) => Action::Done(
                Outcome::Failed(join("Channel sync error: ", e.as_str())),
            ),
            UpdateEvent::Sent(message) => {
                conn.remember(self.channel_id, self.notif.stream().id.clone(), &message);
                Action::Done(Outcome::Sent)
            },
            UpdateEvent::SendFailed(e) => Action::Done(Outcome::Failed(e)),
        };
        self.phase = match &action {
            Action::Edit(_) => Phase::EditingFound,
            Action::Backoff(_) => Phase::BackingOff,
            Action::Fetch(..) => Phase::Fetching,
            Action::Send(..) => Phase::Sending,
            Action::Done(_) => Phase::Finished,
        };
        action
    }
}

// ---------------------------------------------------------------------------
// Laws
// ---------------------------------------------------------------------------

proof fn lemma_last_of(list: Seq<NotifModel>, stream_id: Seq<char>)
    ensures
        match last_of(list, stream_id) {
            Some(n) => list.contains(n) && n.info.stream_id == stream_id,
            None => forall|i: int|
                0 <= i < list.len() ==> (#[trigger] list[i]).info.stream_id != stream_id,
        },
    decreases list.len(),
{
    if list.len() > 0 {
        let init = list.drop_last();
        lemma_last_of(init, stream_id);
        assert(list[list.len() - 1] == list.last());
        match last_of(list, stream_id) {
            Some(n) => {
                if list.last().info.stream_id != stream_id {
                    let i = choose|i: int| 0 <= i < init.len() && init[i] == n;
                    assert(list[i] == n);
                }
            },
            None => {
                assert forall|i: int| 0 <= i < list.len() implies (#[trigger]
                list[i]).info.stream_id != stream_id by {
                    if i < init.len() {
                        assert(init[i] == list[i]);
                    }
                }
            },
        }
    }
}

/// What is found is a notification of the stream that the bot wrote; and where
/// nothing is found, there is none.
proof fn lemma_found_among(messages: Seq<MessageModel>, user_id: u64, stream_id: Seq<char>)
    ensures
        match found_among(messages, user_id, stream_id) {
            Some(n) => own_notifs(messages, user_id).contains(n) && n.info.stream_id == stream_id,
            None => forall|n: NotifModel| #[trigger]
                own_notifs(messages, user_id).contains(n) ==> n.info.stream_id != stream_id,
        },
{
    let list = own_notifs(messages, user_id);
    let sorted = time_order(list);
    lemma_sortable(list);
    lemma_time_order(sorted, list);
    lemma_last_of(sorted, stream_id);
    if found_among(messages, user_id, stream_id) is None {
        assert forall|n: NotifModel| #[trigger] list.contains(n) implies n.info.stream_id
            != stream_id by {
            assert(sorted.contains(n));
            let i = choose|i: int| 0 <= i < sorted.len() && sorted[i] == n;
            assert(sorted[i].info.stream_id != stream_id);
        }
    }
}

proof fn lemma_told_is_found(messages: Seq<MessageModel>, user_id: u64, stream_id: Seq<char>)
    requires
        own_read_back(messages, user_id),
        told_before(messages, user_id, stream_id),
    ensures
        found_among(messages, user_id, stream_id) is Some,
{
    let (i, m) = choose|i: int, m: InfoModel|
        0 <= i < messages.len() && messages[i].author_id == user_id && m.stream_id == stream_id
            && #[trigger] shows(messages[i], m);
    assert(reads_back(messages[i]));
    assert(notif_of(messages[i]) is Some);
    law_own_messages_are_found(messages, user_id, i);
    lemma_found_among(messages, user_id, stream_id);
}

/// A channel is told about a stream only where the bot's latest messages in it
/// hold no notification of that stream; never about a stream that is over, and
/// never where only edits were asked for.
pub proof fn law_no_second_ping(
    conn: DiscordModel,
    update: UpdateModel,
    event: UpdateEventModel,
)
    requires
        awaits(update.phase, event),
        next_intent(conn, update, event) is Send,
    ensures
        !update.edit_only,
        update.notif !is Offline,
        event matches UpdateEventModel::Fetched(messages) && forall|i: int|
            0 <= i < messages.len() && (#[trigger] messages[i]).author_id == conn.user_id ==> (
            notif_of(messages[i]) matches Some(n) ==> n.info.stream_id != update.stream_id()),
{
    let messages = event->Fetched_0;
    lemma_found_among(messages, conn.user_id, update.stream_id());
    assert forall|i: int|
        0 <= i < messages.len() && (#[trigger] messages[i]).author_id == conn.user_id implies (
    notif_of(messages[i]) matches Some(n) ==> n.info.stream_id != update.stream_id()) by {
        if let Some(n) = notif_of(messages[i]) {
            law_own_messages_are_found(messages, conn.user_id, i);
        }
    }
}

/// A message that is edited is a notification of the bot for that stream: one
/// that was known, or one that was found in the channel.
pub proof fn law_edits_are_of_the_stream(
    conn: DiscordModel,
    update: UpdateModel,
    messages: Seq<MessageModel>,
) -> (i: int)
    requires
        next_intent(conn, update, UpdateEventModel::Fetched(messages)) is EditStreaming
            || next_intent(conn, update, UpdateEventModel::Fetched(messages)) is EditEnded,
    ensures
        0 <= i < messages.len(),
        messages[i].author_id == conn.user_id,
        notif_of(messages[i]) matches Some(n) && n.info.stream_id == update.stream_id()
            && next_intent(conn, update, UpdateEventModel::Fetched(messages)) == existing_intent(
            conn,
            n,
            update.cfg,
            update.notif,
        ),
{
    lemma_found_among(messages, conn.user_id, update.stream_id());
    let n = found_among(messages, conn.user_id, update.stream_id())->0;
    law_only_own_messages_count(messages, conn.user_id, n)
}

/// The message that an edit or a post ended up as.
pub open spec fn answer(event: UpdateEventModel) -> Option<MessageModel> {
    match event {
        UpdateEventModel::Sent(m) => Some(m),
        UpdateEventModel::Edited(m) => Some(m),
        _ => None,
    }
}

/// Once a notification was sent to a channel or edited in it, whatever comes
/// next about the stream there starts from that message: nothing is sent.
pub proof fn law_a_known_message_is_edited(
    conn: DiscordModel,
    update: UpdateModel,
    event: UpdateEventModel,
    next: UpdateModel,
)
    requires
        answer(event) matches Some(m) && notif_of(m) is Some && (event is Edited ==> m.channel_id
            == update.channel_id),
        next.key() == update.key(),
    ensures
        ({
            let after = discord_after(conn, update, event);
            &&& start_intent(after, next) == existing_intent(
                after,
                notif_of(answer(event)->0)->0,
                next.cfg,
                next.notif,
            )
            &&& start_intent(after, next) !is Send
            &&& start_intent(after, next) !is Fetch
        }),
{
}

/// What an update learns of one stream in one channel leaves the others alone.
pub proof fn law_updates_are_independent(
    conn: DiscordModel,
    update: UpdateModel,
    event: UpdateEventModel,
    key: CacheKey,
)
    requires
        answer(event) is Some,
        key.1 != update.stream_id(),
    ensures
        discord_after(conn, update, event).cache.messages.get(key) == conn.cache.messages.get(key),
{
}

/// How many more steps an update can take at most.
pub open spec fn steps_left(phase: Phase) -> nat {
    match phase {
        Phase::EditingCached => 4,
        Phase::BackingOff => 3,
        Phase::Fetching => 2,
        Phase::EditingFound => 1,
        Phase::Sending => 1,
        Phase::Finished => 0,
    }
}

/// Every update comes to an end.
pub proof fn law_updates_end(conn: DiscordModel, update: UpdateModel, event: UpdateEventModel)
    requires
        awaits(update.phase, event),
    ensures
        steps_left(phase_of(next_intent(conn, update, event), false)) < steps_left(update.phase),
{
}

/// What a notification is to say of a stream: all that Twitch says of it, with the
/// recording, the icon of the broadcaster, and what was configured.
pub open spec fn said_of(
    conn: DiscordModel,
    stream: StreamModel,
    video_id: Option<Seq<char>>,
    offline: bool,
    cfg: NotifyModel,
) -> InfoModel {
    InfoModel {
        game_name: stream.game_name,
        viewer_count: stream.viewer_count,
        started_at: match rfc3339_parts(stream.started_at) {
            Some((secs, nanos, offset)) => Some(ZonedModel { secs, nanos, offset }),
            None => None,
        },
        user_name: stream.user_name,
        user_login: stream.user_login,
        user_icon: if conn.bcids.contains_key(stream.user_id) {
            Some(conn.bcids[stream.user_id].thumbnail_url)
        } else {
            None
        },
        game_id: stream.game_id,
        stream_id: stream.id,
        stream_title: stream.title,
        stream_thumbnail: stream.thumbnail_url,
        video_id,
        format_online: cfg.format_online,
        format_offline: cfg.format_offline,
        ping: cfg.ping,
        offline,
    }
}

/// The recording that news tell of, or else the one that was told of before.
pub open spec fn recording(live: LiveModel, before: Option<Seq<char>>) -> Option<Seq<char>> {
    if live.video is Some {
        Some(live.video->0.id)
    } else {
        before
    }
}

/// Whether an embed shows what Twitch says of a stream.
pub open spec fn shows_stream(e: EmbedModel, stream: StreamModel) -> bool {
    &&& !blank(stream.title) ==> e.title == stream.title
    &&& blank(stream.title) ==> e.title == "<untitled>"@
    &&& e.author_name == stream.user_name
    &&& e.url == "https://twitch.tv/"@ + stream.user_login
    &&& e.image == replaced(
        replaced(stream.thumbnail_url, "{width}"@, "1080"@),
        "{height}"@,
        "720"@,
    )
    &&& stream.game_name.len() > 0 ==> e.fields.len() >= 2 && e.fields[0] == (FieldModel {
        name: "**Game name**"@,
        value: stream.game_name,
        inline: true,
    }) && e.fields[1].name == "**Viewers**"@ && e.fields[1].value == decimal(stream.viewer_count)
    &&& stream.game_name.len() == 0 ==> e.fields.len() >= 1 && e.fields[0].name
        == "**Viewers**"@ && e.fields[0].value == decimal(stream.viewer_count)
}

/// A mention of whom to ping, and a comma behind it.
pub open spec fn mention(ping: Option<Seq<char>>) -> Seq<char> {
    match ping {
        Some(p) => "<@"@ + p + ">, "@,
        None => seq![],
    }
}

/// Whether a post tells that a stream is on: the embed shows it, there is a button to it
/// and one to the recording if there is one, and the headline says who streams or what
/// was configured.
pub open spec fn tells_of(
    post: Post,
    conn: DiscordModel,
    stream: StreamModel,
    video_id: Option<Seq<char>>,
    cfg: NotifyModel,
) -> bool {
    let rows = rows_model(post.components@);
    &&& shows_stream(post.embed@, stream)
    &&& post.embed@.footer is None
    &&& post.embed@.timestamp is None
    &&& post.embed@.author_icon == said_of(conn, stream, video_id, false, cfg).user_icon
    &&& sent_thumbnail(post.embed@.thumbnail, said_of(conn, stream, video_id, false, cfg))
    &&& rows.len() == 1 && rows[0].len() >= 1
    &&& rows[0][0].url == "https://twitch.tv/"@ + stream.user_login
    &&& rows[0][0].label == "Watch the stream!"@
    &&& video_id is None ==> rows[0].len() == 1
    &&& video_id matches Some(v) ==> rows[0].len() == 2 && rows[0][1].url
        == "https://twitch.tv/videos/"@ + v && rows[0][1].label == "Watch the VOD!"@
    &&& cfg.format_online is None ==> post.content@ == mention(cfg.ping) + "**"@
        + stream.user_name + "** is streaming! :tada:"@
    &&& cfg.format_online matches Some(f) ==> post.content@ == rendered(
        f,
        said_of(conn, stream, video_id, false, cfg),
    )
}

/// Whether a post tells that a stream is over: the embed shows it, and when it was last
/// on, there is a button to the recording if there is one, and the headline says who
/// streamed or what was configured.
pub open spec fn tells_the_end_of(
    post: Post,
    conn: DiscordModel,
    stream: StreamModel,
    video_id: Option<Seq<char>>,
    cfg: NotifyModel,
    now: UtcModel,
) -> bool {
    let rows = rows_model(post.components@);
    &&& shows_stream(post.embed@, stream)
    &&& post.embed@.footer == Some("Last online"@)
    &&& post.embed@.timestamp == Some(now)
    &&& post.embed@.author_icon == said_of(conn, stream, video_id, true, cfg).user_icon
    &&& post.embed@.fields == embed_fields(said_of(conn, stream, video_id, true, cfg), now)
    &&& sent_thumbnail(post.embed@.thumbnail, said_of(conn, stream, video_id, true, cfg))
    &&& video_id is None ==> rows.len() == 0
    &&& video_id matches Some(v) ==> rows.len() == 1 && rows[0].len() == 1 && rows[0][0].url
        == "https://twitch.tv/videos/"@ + v && rows[0][0].label == "Watch the VOD!"@
    &&& cfg.format_offline is None ==> post.content@ == mention(cfg.ping) + "**"@
        + stream.user_name + "** streamed :projector:"@
    &&& cfg.format_offline matches Some(f) ==> post.content@ == rendered(
        f,
        said_of(conn, stream, video_id, true, cfg),
    )
}

/// What is edited shows the stream as the news have it, whatever the message showed
/// before: its game, its title, how many watch, who streams and the preview. Only the
/// recording may come from before, and only where the news have none. It is the message
/// of that notification that is edited.
pub proof fn law_edits_show_the_news(
    conn: DiscordModel,
    message: NotifModel,
    cfg: NotifyModel,
    notif: NotificationModel,
    now: UtcModel,
    action: Action,
)
    requires
        carries_out(action, existing_intent(conn, message, cfg, notif), now),
        notif !is Offline,
    ensures
        action matches Action::Edit(e) && e.channel_id == message.channel_id && e.message_id
            == message.message_id && e.stream_id@ == notif.live().stream.id && !e.ended
            && tells_of(
            e.post,
            conn,
            notif.live().stream,
            recording(notif.live(), message.info.video_id),
            cfg,
        ),
{
    let video_id = recording(notif.live(), message.info.video_id);
    let info = said_of(conn, notif.live().stream, video_id, false, cfg);
    assert(renewed_info(notif_info(conn.bcids, notif, cfg), message.info) =~= info);
    let e = action->Edit_0;
    law_headlines(info);
    law_buttons_while_on(info);
    law_game_and_viewers_are_shown(info, now);
    law_the_embed_shows_the_stream(info, now, e.post.embed@.thumbnail);
}

/// That a stream is over is told in the message of its notification, with the stream as
/// the news have it and the recording as above; a message that tells so already is left
/// alone.
pub proof fn law_ends_show_the_news(
    conn: DiscordModel,
    message: NotifModel,
    cfg: NotifyModel,
    notif: NotificationModel,
    now: UtcModel,
    action: Action,
)
    requires
        carries_out(action, existing_intent(conn, message, cfg, notif), now),
        notif is Offline,
    ensures
        message.info.offline ==> (action matches Action::Done(o) && o == Outcome::Skipped(
            message.channel_id,
        )),
        !message.info.offline ==> (action matches Action::Edit(e) && e.channel_id
            == message.channel_id && e.message_id == message.message_id && e.stream_id@
            == notif.live().stream.id && e.ended && tells_the_end_of(
            e.post,
            conn,
            notif.live().stream,
            recording(notif.live(), message.info.video_id),
            cfg,
            now,
        )),
{
    let video_id = recording(notif.live(), message.info.video_id);
    let info = said_of(conn, notif.live().stream, video_id, true, cfg);
    assert(renewed_info(notif_info(conn.bcids, notif, cfg), message.info) =~= info);
    if !message.info.offline {
        let e = action->Edit_0;
        law_headlines(info);
        law_buttons_once_over(info);
        law_game_and_viewers_are_shown(info, now);
        law_the_embed_shows_the_stream(info, now, e.post.embed@.thumbnail);
    }
}

/// Where the bot's latest messages in a channel hold no notification of a stream, one is
/// sent there that shows the stream as the news have it, unless it is over or only edits
/// were asked for: then there is nothing to do.
pub proof fn law_pings_show_the_news(
    conn: DiscordModel,
    update: UpdateModel,
    messages: Seq<MessageModel>,
    now: UtcModel,
    action: Action,
)
    requires
        carries_out(
            action,
            next_intent(conn, update, UpdateEventModel::Fetched(messages)),
            now,
        ),
        forall|i: int|
            0 <= i < messages.len() && (#[trigger] messages[i]).author_id == conn.user_id ==> (
            notif_of(messages[i]) matches Some(n) ==> n.info.stream_id
                != update.notif.live().stream.id),
    ensures
        update.edit_only || update.notif is Offline ==> action == Action::Done(Outcome::Nothing),
        !update.edit_only && update.notif !is Offline ==> (action matches Action::Send(to, post)
            && to == update.channel_id && tells_of(
            post,
            conn,
            update.notif.live().stream,
            recording(update.notif.live(), None),
            update.cfg,
        )),
{
    lemma_found_among(messages, conn.user_id, update.stream_id());
    if let Some(n) = found_among(messages, conn.user_id, update.stream_id()) {
        let i = law_only_own_messages_count(messages, conn.user_id, n);
        assert(messages[i].author_id == conn.user_id);
        assert(false);
    }
    if !update.edit_only && update.notif !is Offline {
        let info = said_of(
            conn,
            update.notif.live().stream,
            recording(update.notif.live(), None),
            false,
            update.cfg,
        );
        assert(notif_info(conn.bcids, update.notif, update.cfg) =~= info);
        let post = action->Send_1;
        law_headlines(info);
        law_buttons_while_on(info);
        law_game_and_viewers_are_shown(info, now);
        law_the_embed_shows_the_stream(info, now, post.embed@.thumbnail);
    }
}

proof fn lemma_last_of_is_latest(list: Seq<NotifModel>, stream_id: Seq<char>, i: int)
    requires
        in_order(list),
        0 <= i < list.len(),
        list[i].info.stream_id == stream_id,
    ensures
        last_of(list, stream_id) matches Some(n) && !later(list[i].timestamp, n.timestamp),
    decreases list.len(),
{
    if list.last().info.stream_id == stream_id {
        if i < list.len() - 1 {
            assert(!list[i].timestamp.after(list[list.len() - 1].timestamp));
        }
    } else {
        let init = list.drop_last();
        assert forall|a: int, b: int| 0 <= a < b < init.len() implies !(#[trigger]
        init[a]).timestamp.after((#[trigger] init[b]).timestamp) by {
            assert(!list[a].timestamp.after(list[b].timestamp));
        }
        assert(init[i] == list[i]);
        lemma_last_of_is_latest(init, stream_id, i);
    }
}

/// Of several notifications of a stream that the bot wrote in a channel, the one that was
/// sent last is edited; and one is found wherever there is any.
pub proof fn law_the_latest_is_found(
    messages: Seq<MessageModel>,
    user_id: u64,
    stream_id: Seq<char>,
    i: int,
)
    ensures
        found_among(messages, user_id, stream_id) matches Some(n) ==> n.info.stream_id == stream_id
            && exists|j: int|
            0 <= j < messages.len() && (#[trigger] messages[j]).author_id == user_id && notif_of(
                messages[j],
            ) == Some(n),
        0 <= i < messages.len() && messages[i].author_id == user_id ==> (notif_of(messages[i])
            matches Some(other) ==> (other.info.stream_id == stream_id ==> (found_among(
            messages,
            user_id,
            stream_id,
        ) matches Some(n) && !later(other.timestamp, n.timestamp)))),
{
    lemma_found_among(messages, user_id, stream_id);
    if let Some(n) = found_among(messages, user_id, stream_id) {
        let j = law_only_own_messages_count(messages, user_id, n);
        assert(messages[j].author_id == user_id);
    }
    if 0 <= i < messages.len() && messages[i].author_id == user_id {
        if let Some(other) = notif_of(messages[i]) {
            if other.info.stream_id == stream_id {
                law_own_messages_are_found(messages, user_id, i);
                let own = own_notifs(messages, user_id);
                let sorted = time_order(own);
                lemma_sortable(own);
                lemma_time_order(sorted, own);
                assert(sorted.contains(other));
                let k = choose|k: int| 0 <= k < sorted.len() && sorted[k] == other;
                lemma_last_of_is_latest(sorted, stream_id, k);
            }
        }
    }
}

/// An update begins with the notification that is known of the stream in the channel;
/// where none is known, the latest fifty messages of the channel are read.
pub proof fn law_how_updates_begin(conn: DiscordModel, update: UpdateModel)
    ensures
        ({
            let key = (update.channel_id, update.notif.live().stream.id);
            &&& conn.cache.messages.contains_key(key) ==> start_intent(conn, update)
                == existing_intent(conn, conn.cache.messages[key], update.cfg, update.notif)
            &&& !conn.cache.messages.contains_key(key) ==> start_intent(conn, update)
                == Intent::Fetch(update.channel_id, 50)
        }),
{
}

/// What follows on an answer. An edit that worked ends the update, and so does a message
/// that was sent. Where the edit of a notification that was known failed, it is left
/// alone for five seconds and the channel is read; any other failure ends the update
/// with its reason.
pub proof fn law_how_updates_go_on(
    conn: DiscordModel,
    update: UpdateModel,
    m: MessageModel,
    e: Seq<char>,
)
    ensures
        next_intent(conn, update, UpdateEventModel::Edited(m)) == Intent::Done(
            OutcomeModel::Edited,
        ),
        next_intent(conn, update, UpdateEventModel::Sent(m)) == Intent::Done(OutcomeModel::Sent),
        update.phase is EditingCached ==> next_intent(
            conn,
            update,
            UpdateEventModel::EditFailed(e),
        ) == Intent::Backoff(5),
        update.phase is EditingFound ==> next_intent(
            conn,
            update,
            UpdateEventModel::EditFailed(e),
        ) == Intent::Done(OutcomeModel::Failed(e)),
        next_intent(conn, update, UpdateEventModel::BackedOff) == Intent::Fetch(
            update.channel_id,
            50,
        ),
        next_intent(conn, update, UpdateEventModel::FetchFailed(e)) == Intent::Done(
            OutcomeModel::Failed("Channel sync error: "@ + e),
        ),
        next_intent(conn, update, UpdateEventModel::SendFailed(e)) == Intent::Done(
            OutcomeModel::Failed(e),
        ),
{
}

/// Where the bot's messages in the channel hold a notification of the stream, it is that
/// one that is brought up to date.
pub proof fn law_what_is_found_is_edited(
    conn: DiscordModel,
    update: UpdateModel,
    messages: Seq<MessageModel>,
    n: NotifModel,
)
    requires
        found_among(messages, conn.user_id, update.notif.live().stream.id) == Some(n),
    ensures
        next_intent(conn, update, UpdateEventModel::Fetched(messages)) == existing_intent(
            conn,
            n,
            update.cfg,
            update.notif,
        ),
{
}

/// What an update does and what it then waits for belong together: an edit to its answer,
/// and so on; and only an edit that comes first is followed up.
pub proof fn law_updates_wait_for_answers(
    intent: Intent,
    first: bool,
    event: UpdateEventModel,
)
    ensures
        intent is EditStreaming || intent is EditEnded ==> (awaits(phase_of(intent, first), event)
            <==> event is Edited || event is EditFailed) && (phase_of(intent, first)
            is EditingCached <==> first),
        intent is Backoff ==> (awaits(phase_of(intent, first), event) <==> event is BackedOff),
        intent is Fetch ==> (awaits(phase_of(intent, first), event) <==> event is Fetched || event
            is FetchFailed),
        intent is Send ==> (awaits(phase_of(intent, first), event) <==> event is Sent || event
            is SendFailed),
        intent is Done ==> !awaits(phase_of(intent, first), event),
{
}

/// An update remembers the message that it edited or sent, for its stream in that channel,
/// and what it read; it changes nothing else of what the bot knows.
pub proof fn law_what_updates_learn(
    conn: DiscordModel,
    update: UpdateModel,
    event: UpdateEventModel,
)
    ensures
        ({
            let after = discord_after(conn, update, event);
            &&& event matches UpdateEventModel::Edited(m) ==> (notif_of(m) matches Some(n)
                ==> after.cache.messages == conn.cache.messages.insert(
                (m.channel_id, update.notif.live().stream.id),
                n,
            ))
            &&& event matches UpdateEventModel::Sent(m) ==> (notif_of(m) matches Some(n)
                ==> after.cache.messages == conn.cache.messages.insert(
                (update.channel_id, update.notif.live().stream.id),
                n,
            ))
            &&& answer(event) matches Some(m) ==> (notif_of(m) is None ==> after == conn)
            &&& event matches UpdateEventModel::Fetched(messages) ==> after == synced(
                conn,
                update.channel_id,
                messages,
            )
            &&& event !is Fetched && answer(event) is None ==> after == conn
            &&& after.guilds == conn.guilds
            &&& after.user_id == conn.user_id
            &&& after.bcids == conn.bcids
        }),
{
}

/// Updates are counted by what they came to: an edit, whether it was needed or not, a new
/// message, nothing, or an error.
pub proof fn law_outcomes_are_counted(e: Seq<char>, channel_id: u64)
    ensures
        edit_type_text(OutcomeModel::Edited) == "edit"@,
        edit_type_text(OutcomeModel::Skipped(channel_id)) == "edit"@,
        edit_type_text(OutcomeModel::Sent) == "new"@,
        edit_type_text(OutcomeModel::Nothing) == "none"@,
        edit_type_text(OutcomeModel::Failed(e)) == "error"@,
{
}

/// What came of an action, and of an update, is what was said, each thing in its place.
pub proof fn law_nothing_answered_is_left_out(event: UpdateEvent, o: Outcome, i: int)
    ensures
        event matches UpdateEvent::Edited(m) ==> event@ == UpdateEventModel::Edited(m@),
        event matches UpdateEvent::EditFailed(e) ==> event@ == UpdateEventModel::EditFailed(e@),
        event is BackedOff <==> event@ is BackedOff,
        event matches UpdateEvent::Fetched(list) ==> (event@ matches UpdateEventModel::Fetched(
            messages,
        ) && messages.len() == list@.len() && (0 <= i < list@.len() ==> messages[i]
            == list@[i]@)),
        event matches UpdateEvent::FetchFailed(e) ==> event@ == UpdateEventModel::FetchFailed(e@),
        event matches UpdateEvent::Sent(m) ==> event@ == UpdateEventModel::Sent(m@),
        event matches UpdateEvent::SendFailed(e) ==> event@ == UpdateEventModel::SendFailed(e@),
        o is Edited <==> o@ is Edited,
        o matches Outcome::Skipped(id) ==> o@ == OutcomeModel::Skipped(id),
        o is Nothing <==> o@ is Nothing,
        o is Sent <==> o@ is Sent,
        o matches Outcome::Failed(e) ==> o@ == OutcomeModel::Failed(e@),
{
}

/// What is to be done is done as it was meant: an edit of that message, in that channel, that
/// shows what it is to show; and so for the rest.
pub proof fn law_actions_do_what_is_meant(
    action: Action,
    channel_id: u64,
    message_id: u64,
    info: InfoModel,
    secs: u64,
    outcome: OutcomeModel,
    now: UtcModel,
)
    ensures
        carries_out(action, Intent::EditStreaming(channel_id, message_id, info), now) ==> (action
            matches Action::Edit(e) && e.channel_id == channel_id && e.message_id == message_id
            && e.stream_id@ == info.stream_id && !e.ended && e.post.content@ == streaming_headline(
            info,
        ) && rows_model(e.post.components@) == streaming_rows(info) && sent_thumbnail(
            e.post.embed@.thumbnail,
            info,
        ) && e.post.embed@ == embed_model(info, now, e.post.embed@.thumbnail)),
        carries_out(action, Intent::EditEnded(channel_id, message_id, info), now) ==> (action
            matches Action::Edit(e) && e.channel_id == channel_id && e.message_id == message_id
            && e.stream_id@ == info.stream_id && e.ended && e.post.content@ == vod_headline(info)
            && (vod_rows(info) is None ==> rows_model(e.post.components@).len() == 0) && (
        vod_rows(info) is Some ==> Some(rows_model(e.post.components@)) == vod_rows(info))
            && sent_thumbnail(e.post.embed@.thumbnail, info) && e.post.embed@ == embed_model(
            info,
            now,
            e.post.embed@.thumbnail,
        )),
        carries_out(action, Intent::Send(channel_id, info), now) ==> (action matches Action::Send(
            to,
            post,
        ) && to == channel_id && post.content@ == streaming_headline(info) && rows_model(
            post.components@,
        ) == streaming_rows(info) && sent_thumbnail(post.embed@.thumbnail, info) && post.embed@
            == embed_model(info, now, post.embed@.thumbnail)),
        carries_out(action, Intent::Backoff(secs), now) <==> action == Action::Backoff(secs),
        carries_out(action, Intent::Fetch(channel_id, secs), now) <==> action == Action::Fetch(
            channel_id,
            secs,
        ),
        carries_out(action, Intent::Done(outcome), now) <==> (action matches Action::Done(o) && o@
            == outcome),
{
}

/// An update is about what it was begun for, from its beginning to its end: the channel, the
/// news, what was configured there, and whether it only edits.
pub proof fn law_updates_stay_what_they_are(
    conn: DiscordModel,
    channel_id: u64,
    cfg: NotifyModel,
    notif: NotificationModel,
    edit_only: bool,
    update: UpdateModel,
    event: UpdateEventModel,
)
    ensures
        ({
            let begun = new_update(conn, channel_id, cfg, notif, edit_only);
            &&& begun.channel_id == channel_id
            &&& begun.cfg == cfg
            &&& begun.notif == notif
            &&& begun.edit_only == edit_only
            &&& begun.phase is EditingCached || begun.phase is Fetching || begun.phase is Finished
        }),
        ({
            let after = update_after(conn, update, event);
            &&& after.channel_id == update.channel_id
            &&& after.cfg == update.cfg
            &&& after.notif == update.notif
            &&& after.edit_only == update.edit_only
            &&& after.phase !is EditingCached
        }),
{
}

} // verus!
