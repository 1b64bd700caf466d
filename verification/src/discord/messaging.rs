//! Notifications as messages: what was sent, read back from the channel.

use vstd::prelude::*;

use crate::discord::embed::{embed_model, sent_thumbnail, thumbnail_path, EmbedModel};
use crate::discord::info::{InfoModel, StreamInfo};
use crate::discord::pairs::{
    in_context, info_from_pairs, info_pairs, opt_info, readable, reorders, Pairs,
};
use crate::text::{decimal, join, opt_text, replaced, u64_text};
use crate::time::{utc, UtcModel, UtcTime};
use crate::url::{
    carries_pairs, encoded_pairs, in_reach, pairs_model, plain_in_path, query_pairs, query_text, read_query_pairs,
    THUMBNAIL_HOST,
};

verus! {

/// An embed of a message, as far as a notification uses it.
#[verifier::ext_equal]
pub struct ReceivedEmbedModel {
    pub thumbnail_url: Option<Seq<char>>,
    pub image_url: Option<Seq<char>>,
    pub author_icon_url: Option<Seq<char>>,
}

/// A message in a channel, as far as a notification uses it.
#[verifier::ext_equal]
pub struct MessageModel {
    pub id: u64,
    pub channel_id: u64,
    pub author_id: u64,
    pub timestamp: UtcModel,
    pub edited_timestamp: Option<UtcModel>,
    pub embeds: Seq<ReceivedEmbedModel>,
}

/// An embed of a message, as far as a notification uses it.
#[derive(Debug)]
pub struct ReceivedEmbed {
    pub thumbnail_url: Option<String>,
    pub image_url: Option<String>,
    pub author_icon_url: Option<String>,
}

/// A message in a channel, as far as a notification uses it.
#[derive(Debug)]
pub struct Message {
    pub id: u64,
    pub channel_id: u64,
    pub author_id: u64,
    pub timestamp: UtcTime,
    pub edited_timestamp: Option<UtcTime>,
    pub embeds: Vec<ReceivedEmbed>,
}

impl View for ReceivedEmbed {
    type V = ReceivedEmbedModel;

    open spec fn view(&self) -> ReceivedEmbedModel {
        ReceivedEmbedModel {
            thumbnail_url: opt_text(self.thumbnail_url),
            image_url: opt_text(self.image_url),
            author_icon_url: opt_text(self.author_icon_url),
        }
    }
}

impl View for Message {
    type V = MessageModel;

    open spec fn view(&self) -> MessageModel {
        MessageModel {
            id: self.id,
            channel_id: self.channel_id,
            author_id: self.author_id,
            timestamp: self.timestamp@,
            edited_timestamp: utc(self.edited_timestamp),
            embeds: self.embeds@.map_values(|e: ReceivedEmbed| e@),
        }
    }
}

/// A notification that stands in a channel.
#[verifier::ext_equal]
pub struct NotifModel {
    pub channel_id: u64,
    pub message_id: u64,
    pub timestamp: UtcModel,
    pub edited_timestamp: Option<UtcModel>,
    pub info: InfoModel,
}

impl NotifModel {
    /// When the message was last written.
    pub open spec fn touched(self) -> UtcModel {
        match self.edited_timestamp {
            Some(t) => t,
            None => self.timestamp,
        }
    }
}

/// A notification that stands in a channel.
#[derive(Debug)]
pub struct StreamNotifMessage {
    pub channel_id: u64,
    pub message_id: u64,
    pub timestamp: UtcTime,
    pub edited_timestamp: Option<UtcTime>,
    pub info: StreamInfo,
}

impl View for StreamNotifMessage {
    type V = NotifModel;

    open spec fn view(&self) -> NotifModel {
        NotifModel {
            channel_id: self.channel_id,
            message_id: self.message_id,
            timestamp: self.timestamp@,
            edited_timestamp: utc(self.edited_timestamp),
            info: self.info@,
        }
    }
}

impl Clone for StreamNotifMessage {
    fn clone(&self) -> (r: StreamNotifMessage)
        ensures
            r == *self,
    {
        StreamNotifMessage {
            channel_id: self.channel_id,
            message_id: self.message_id,
            timestamp: self.timestamp,
            edited_timestamp: self.edited_timestamp,
            info: self.info.clone(),
        }
    }
}

/// The information that an embed carries in the address of its thumbnail.
pub open spec fn embed_info(e: ReceivedEmbedModel) -> Option<InfoModel> {
    match (e.thumbnail_url, e.image_url) {
        (Some(thumbnail), Some(image)) => match query_pairs(thumbnail) {
            Some(pairs) => info_from_pairs(pairs, image, e.author_icon_url),
            None => None,
        },
        _ => None,
    }
}

/// The information that the first embed with any carries.
pub open spec fn first_info(embeds: Seq<ReceivedEmbedModel>) -> Option<InfoModel>
    decreases embeds.len(),
{
    if embeds.len() == 0 {
        None
    } else {
        match embed_info(embeds[0]) {
            Some(info) => Some(info),
            None => first_info(embeds.skip(1)),
        }
    }
}

/// The notification that a message is, if it is one.
pub open spec fn notif_of(msg: MessageModel) -> Option<NotifModel> {
    match first_info(msg.embeds) {
        Some(info) => Some(
            NotifModel {
                channel_id: msg.channel_id,
                message_id: msg.id,
                timestamp: msg.timestamp,
                edited_timestamp: msg.edited_timestamp,
                info,
            },
        ),
        None => None,
    }
}

/// Whether the address of a game's box art ends where its query begins, and
/// that place can be told.
pub open spec fn plain_game_id(game_id: Seq<char>) -> bool {
    &&& forall|i: int| 0 <= i < game_id.len() ==> #[trigger] game_id[i] != '?' && game_id[i] != '#'
    &&& in_reach(thumbnail_path(game_id))
}

/// Whether the first embed of a message is one that was sent for `m`: its
/// thumbnail is one of those that [`StreamInfo::stream_embed`] gives.
pub open spec fn shows(msg: MessageModel, m: InfoModel) -> bool {
    &&& msg.embeds.len() > 0
    &&& msg.embeds[0].image_url is Some
    &&& msg.embeds[0].thumbnail_url matches Some(url) && sent_thumbnail(url, m)
    &&& readable(m)
    &&& plain_game_id(m.game_id)
}

/// Whether a message that was sent for some information reads back as it, with
/// the image and the icon of the message.
pub open spec fn reads_back(msg: MessageModel) -> bool {
    forall|m: InfoModel| #[trigger]
        shows(msg, m) ==> (notif_of(msg) matches Some(n) && n.info == in_context(
            m,
            msg.embeds[0].image_url->0,
            msg.embeds[0].author_icon_url,
        ))
}

/// An embed as it comes back in a message.
pub open spec fn received(e: EmbedModel) -> ReceivedEmbedModel {
    ReceivedEmbedModel {
        thumbnail_url: Some(e.thumbnail),
        image_url: Some(e.image),
        author_icon_url: e.author_icon,
    }
}

/// Whether the first embed of a message is that of a stream, as it was sent at
/// some moment.
pub open spec fn shows_embed(msg: MessageModel, m: InfoModel, now: UtcModel) -> bool {
    &&& msg.embeds.len() > 0
    &&& msg.embeds[0].thumbnail_url matches Some(url) && sent_thumbnail(url, m) && msg.embeds[0]
        == received(embed_model(m, now, url))
    &&& readable(m)
    &&& plain_game_id(m.game_id)
}

/// The information with the preview in the size in which it is shown.
pub open spec fn sized_preview(m: InfoModel) -> InfoModel {
    InfoModel {
        stream_thumbnail: replaced(
            replaced(m.stream_thumbnail, "{width}"@, "1080"@),
            "{height}"@,
            "720"@,
        ),
        ..m
    }
}

/// A message without a stream's information in it.
#[derive(Debug)]
pub struct NoStreamInfo {
    pub message_id: u64,
}

impl NoStreamInfo {
    /// The error in words.
    pub fn text(&self) -> (r: String)
        ensures
            r@ == "No stream info found in message "@ + decimal(self.message_id as nat),
    {
        join("No stream info found in message ", u64_text(self.message_id).as_str())
    }
}

fn read_embed(e: &ReceivedEmbed) -> (r: Option<StreamInfo>)
    ensures
        opt_info(r) == embed_info(e@),
        e@.thumbnail_url is Some && e@.image_url is Some ==> forall|m: InfoModel|
            readable(m) && plain_game_id(m.game_id) && #[trigger] sent_thumbnail(
                e@.thumbnail_url->0,
                m,
            ) ==> opt_info(r) == Some(in_context(m, e@.image_url->0, e@.author_icon_url)),
{
    let (thumbnail, image) = match (&e.thumbnail_url, &e.image_url) {
        (Some(thumbnail), Some(image)) => (thumbnail, image),
        _ => {
            return None;
        },
    };
    let read = read_query_pairs(thumbnail.as_str());
    proof {
        assert forall|m: InfoModel|
            plain_game_id(m.game_id) && #[trigger] sent_thumbnail(thumbnail@, m) implies read is Some && reorders(pairs_model(read->0@), info_pairs(m)) by {
            let pairs = choose|pairs: Pairs| #[trigger]
                reorders(pairs, info_pairs(m)) && thumbnail@ == "https://"@
                    + THUMBNAIL_HOST@ + thumbnail_path(m.game_id) + seq!['?']
                    + query_text(encoded_pairs(pairs));
            reveal_strlit("/ttv-boxart/");
            reveal_strlit(".jpg");
            assert(carries_pairs(thumbnail@, thumbnail_path(m.game_id), pairs));
        }
    }
    match read {
        Some(pairs) => StreamInfo::from_pairs_with_context(
            pairs,
            image.clone(),
            e.author_icon_url.clone(),
        ),
        None => None,
    }
}

impl StreamNotifMessage {
    /// When the message was last written.
    pub fn touched_timestamp(&self) -> (r: UtcTime)
        ensures
            r@ == self@.touched(),
    {
        match self.edited_timestamp {
            Some(t) => t,
            None => self.timestamp,
        }
    }

    /// Reads a notification back from its message: the information stands in
    /// the address of a thumbnail, the image and the icon beside it.
    ///
    /// What was sent for some information reads back as that information, with
    /// the image and the icon of the message. So a message that shows the embed
    /// of a stream reads back as all that was known of the stream.
    pub fn try_from(msg: &Message) -> (r: Result<StreamNotifMessage, NoStreamInfo>)
        ensures
            match r {
                Ok(n) => notif_of(msg@) == Some(n@),
                Err(e) => notif_of(msg@) is None && e.message_id == msg@.id,
            },
            reads_back(msg@),
            forall|m: InfoModel, now: UtcModel| #[trigger]
                shows_embed(msg@, m, now) ==> (r matches Ok(n) && n@.info == sized_preview(m)),
    {
        let ghost embeds = msg@.embeds;
        let mut i: usize = 0;
        assert(embeds.skip(0) =~= embeds);
        while i < msg.embeds.len()
            invariant
                i <= msg.embeds.len(),
                embeds == msg@.embeds,
                first_info(embeds) == first_info(embeds.skip(i as int)),
                i > 0 ==> forall|m: InfoModel| !#[trigger] shows(msg@, m),
            decreases msg.embeds.len() - i,
        {
            let e = &msg.embeds[i];
            assert(embeds.skip(i as int)[0] == e@);
            assert(embeds[i as int] == e@);
            let found = read_embed(e);
            if let Some(info) = found {
                proof {
                    assert forall|m: InfoModel, now: UtcModel| #[trigger] shows_embed(
                        msg@,
                        m,
                        now,
                    ) implies info@ == sized_preview(m) by {
                        assert(shows(msg@, m));
                    }
                }
                return Ok(
                    StreamNotifMessage {
                        message_id: msg.id,
                        channel_id: msg.channel_id,
                        timestamp: msg.timestamp,
                        edited_timestamp: msg.edited_timestamp,
                        info,
                    },
                );
            }
            assert(embeds.skip(i as int).skip(1) =~= embeds.skip(i + 1));
            i += 1;
        }
        assert forall|m: InfoModel, now: UtcModel| !#[trigger] shows_embed(msg@, m, now) by {
            if shows_embed(msg@, m, now) {
                assert(shows(msg@, m));
            }
        }
        Err(NoStreamInfo { message_id: msg.id })
    }
}

// ---------------------------------------------------------------------------
// Laws
// ---------------------------------------------------------------------------

/// A game's number is plain, however long it is, as long as the path with it can
/// be counted in 32 bits.
pub proof fn law_numbers_are_plain(game_id: Seq<char>)
    requires
        forall|i: int| 0 <= i < game_id.len() ==> '0' <= #[trigger] game_id[i] <= '9',
        ("https://"@ + THUMBNAIL_HOST@ + thumbnail_path(game_id)).len() < u32::MAX,
    ensures
        plain_game_id(game_id),
{
    reveal_strlit("/ttv-boxart/");
    reveal_strlit(".jpg");
    let path = thumbnail_path(game_id);
    let start = "/ttv-boxart/"@;
    assert forall|i: int| 0 <= i < path.len() implies plain_in_path(#[trigger] path[i]) by {
        if start.len() <= i < start.len() + game_id.len() {
            assert(path[i] == game_id[i - start.len()]);
        }
    }
}

/// A message whose first embed is that of a stream is a notification of it: all
/// that was known of the stream is read back, but that the preview has the size
/// in which it was shown. That a message reads back is what
/// [`StreamNotifMessage::try_from`] promises of each.
pub proof fn law_embeds_read_back(msg: MessageModel, m: InfoModel, now: UtcModel)
    requires
        reads_back(msg),
        shows_embed(msg, m, now),
    ensures
        notif_of(msg) == Some(
            (NotifModel {
                channel_id: msg.channel_id,
                message_id: msg.id,
                timestamp: msg.timestamp,
                edited_timestamp: msg.edited_timestamp,
                info: sized_preview(m),
            }),
        ),
{
    assert(shows(msg, m));
}

/// A notification stands where its message stands, and was sent and edited when the
/// message was.
pub proof fn law_notifications_keep_their_place(msg: MessageModel)
    ensures
        notif_of(msg) matches Some(n) ==> n.message_id == msg.id && n.channel_id == msg.channel_id
            && n.timestamp == msg.timestamp && n.edited_timestamp == msg.edited_timestamp
            && first_info(msg.embeds) == Some(n.info),
        notif_of(msg) is None <==> first_info(msg.embeds) is None,
{
}

/// A notification was last written when it was edited, or else when it was sent.
pub proof fn law_last_written(n: NotifModel)
    ensures
        n.edited_timestamp matches Some(t) ==> n.touched() == t,
        n.edited_timestamp is None ==> n.touched() == n.timestamp,
{
}

/// The first embed that carries information is the one that counts, whatever stands in
/// front of it.
pub proof fn law_the_first_embed_counts(
    e: ReceivedEmbedModel,
    rest: Seq<ReceivedEmbedModel>,
)
    ensures
        first_info(seq![]) is None,
        embed_info(e) is Some ==> first_info(seq![e] + rest) == embed_info(e),
        embed_info(e) is None ==> first_info(seq![e] + rest) == first_info(rest),
{
    assert((seq![e] + rest).skip(1) =~= rest);
}

/// An embed carries information in the address of its thumbnail, with the image and the
/// icon that it has; and none where it has no thumbnail or no image.
pub proof fn law_embeds_carry_information(e: ReceivedEmbedModel)
    ensures
        e.thumbnail_url is None || e.image_url is None ==> embed_info(e) is None,
        e.thumbnail_url is Some && e.image_url is Some ==> match query_pairs(e.thumbnail_url->0) {
            Some(pairs) => embed_info(e) == info_from_pairs(
                pairs,
                e.image_url->0,
                e.author_icon_url,
            ),
            None => embed_info(e) is None,
        },
{
}

/// What is known of a message, and of a notification, is what was received, each thing in
/// its place.
pub proof fn law_nothing_received_is_left_out(m: Message, n: StreamNotifMessage, i: int)
    ensures
        m@.id == m.id,
        m@.channel_id == m.channel_id,
        m@.author_id == m.author_id,
        m@.timestamp == m.timestamp@,
        m.edited_timestamp is None <==> m@.edited_timestamp is None,
        m.edited_timestamp matches Some(x) ==> m@.edited_timestamp == Some(x@),
        m@.embeds.len() == m.embeds@.len(),
        0 <= i < m.embeds@.len() ==> {
            let e = m.embeds@[i];
            &&& e.thumbnail_url is None <==> m@.embeds[i].thumbnail_url is None
            &&& e.thumbnail_url matches Some(x) ==> m@.embeds[i].thumbnail_url == Some(x@)
            &&& e.image_url is None <==> m@.embeds[i].image_url is None
            &&& e.image_url matches Some(x) ==> m@.embeds[i].image_url == Some(x@)
            &&& e.author_icon_url is None <==> m@.embeds[i].author_icon_url is None
            &&& e.author_icon_url matches Some(x) ==> m@.embeds[i].author_icon_url == Some(x@)
        },
        n@.channel_id == n.channel_id,
        n@.message_id == n.message_id,
        n@.timestamp == n.timestamp@,
        n.edited_timestamp is None <==> n@.edited_timestamp is None,
        n.edited_timestamp matches Some(x) ==> n@.edited_timestamp == Some(x@),
        n@.info == n.info@,
{
}

} // verus!
