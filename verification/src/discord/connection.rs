//! What the bot knows of Discord: the guilds it is in, and its messages there.

use vstd::prelude::*;

use crate::config::{
    by_guild_id, discord_id, law_channels_are_those_with_a_route, law_every_notification_is_routed,
    law_routes_come_from_config, law_routes_lead_where_they_say, lists_channels, valid_config, valid_notify, ByGuildId, Config, NotifyConfig, NotifyModel,
    RouteKey, StreamConfigModel,
};
use crate::discord::cache::{
    entries_model, later, law_cache_survives_a_restart, law_merging_moves_forward, law_merging_takes_all_in, law_sorted_by_time,
    loaded, merged, notifs, opt_notif, reads, sort_by_time, time_order, CacheKey, CacheModel,
    CacheRead, MessageCache,
};
use crate::discord::info::{InfoModel, StreamInfo};
use crate::discord::messaging::{
    notif_of, reads_back, Message, MessageModel, NotifModel, StreamNotifMessage,
};
use crate::discord::pairs::{readable, stream_info};
use crate::maps::{lemma_push_contains, lists_entries};
use crate::text::{parse_decimal, parse_u64};
use crate::time::rfc3339_parts;
use crate::twitch::types::{Broadcasters, ChannelModel, Notification, NotificationModel};

verus! {

/// A guild that the bot is in.
#[verifier::ext_equal]
pub struct GuildModel {
    pub id: u64,
    pub name: Seq<char>,
}

/// A guild that the bot is in.
#[derive(Debug)]
pub struct GuildInfo {
    pub id: u64,
    pub name: String,
}

impl View for GuildInfo {
    type V = GuildModel;

    open spec fn view(&self) -> GuildModel {
        GuildModel { id: self.id, name: self.name@ }
    }
}

impl Clone for GuildInfo {
    fn clone(&self) -> (r: GuildInfo)
        ensures
            r == *self,
    {
        GuildInfo { id: self.id, name: self.name.clone() }
    }
}

/// What a list of guilds holds.
pub open spec fn guilds_model(guilds: Seq<GuildInfo>) -> Seq<GuildModel> {
    guilds.map_values(|g: GuildInfo| g@)
}

/// What the bot knows of Discord.
#[verifier::ext_equal]
pub struct DiscordModel {
    pub guilds: Seq<GuildModel>,
    pub user_id: u64,
    pub bcids: Map<Seq<char>, ChannelModel>,
    pub cache: CacheModel,
    /// What the cache made of the notifications of the channel that was read
    /// last, the last first.
    pub last_read: Seq<CacheRead>,
}

pub struct InnerConnection {
    guilds: Vec<GuildInfo>,
    user_id: u64,
    bcids: Broadcasters,
    cache: MessageCache,
    last_read: Vec<CacheRead>,
}

impl View for InnerConnection {
    type V = DiscordModel;

    closed spec fn view(&self) -> DiscordModel {
        DiscordModel {
            guilds: guilds_model(self.guilds@),
            user_id: self.user_id,
            bcids: self.bcids@,
            cache: self.cache@,
            last_read: self.last_read@,
        }
    }
}

/// What a notification says, given the news and what was configured. The icon
/// is that of the broadcaster, where it is known.
pub open spec fn notif_info(
    bcids: Map<Seq<char>, ChannelModel>,
    notif: NotificationModel,
    cfg: NotifyModel,
) -> InfoModel {
    let live = notif.live();
    stream_info(
        live.stream,
        match bcids.get(live.stream.user_id) {
            Some(channel) => Some(channel.thumbnail_url),
            None => None,
        },
        match live.video {
            Some(video) => Some(video.id),
            None => None,
        },
        notif is Offline,
        cfg,
    )
}

/// The notifications among some messages that a user wrote, in order.
pub open spec fn own_notifs(messages: Seq<MessageModel>, user_id: u64) -> Seq<NotifModel>
    decreases messages.len(),
{
    if messages.len() == 0 {
        seq![]
    } else {
        let before = own_notifs(messages.drop_last(), user_id);
        let last = messages.last();
        match notif_of(last) {
            Some(n) => if last.author_id == user_id {
                before.push(n)
            } else {
                before
            },
            None => before,
        }
    }
}

/// Whether each message that a user wrote reads back as what it was sent for.
pub open spec fn own_read_back(messages: Seq<MessageModel>, user_id: u64) -> bool {
    forall|i: int|
        0 <= i < messages.len() && (#[trigger] messages[i]).author_id == user_id ==> reads_back(
            messages[i],
        )
}

/// What a list of messages holds.
pub open spec fn messages_model(messages: Seq<Message>) -> Seq<MessageModel> {
    messages.map_values(|m: Message| m@)
}

/// How many of the latest messages of a channel are read.
pub const MESSAGES_READ: u64 = 50;

/// How often the guilds are listed, in seconds.
pub const RESYNC_SECS: u64 = 240;

/// How many guilds are listed at a time.
pub const GUILDS_PER_PAGE: usize = 100;

/// What to do after a page of guilds.
#[derive(Clone, Copy, Debug, PartialEq, Eq, Structural)]
pub enum GuildPage {
    /// Ask for the guilds behind this one.
    After(u64),
    /// There are no more.
    Complete,
}

/// Whether the bot is in a guild.
pub open spec fn joined(guilds: Seq<GuildModel>, id: u64) -> bool {
    exists|i: int| 0 <= i < guilds.len() && (#[trigger] guilds[i]).id == id
}

/// The number that a text writes, whatever it is.
pub open spec fn any_id(text: Seq<char>) -> Option<nat> {
    parse_decimal(text, u64::MAX as nat)
}

/// Whether a notification is for a channel of a guild that the bot is in.
pub open spec fn for_channel(n: NotifyModel, guilds: Seq<GuildModel>, channel_id: u64) -> bool {
    &&& any_id(n.guild_id) matches Some(gid) && joined(guilds, gid as u64)
    &&& any_id(n.channel_id) == Some(channel_id as nat)
}

/// Whether a channel is configured, in a guild that the bot is in.
pub open spec fn channel_configured(
    streams: Seq<StreamConfigModel>,
    guilds: Seq<GuildModel>,
    channel_id: u64,
) -> bool {
    exists|s: int, n: int|
        0 <= s < streams.len() && 0 <= n < streams[s].notify.len() && for_channel(
            #[trigger] streams[s].notify[n],
            guilds,
            channel_id,
        )
}

/// Whether no identifier that matters is zero.
pub open spec fn nonzero_ids(n: NotifyModel, guilds: Seq<GuildModel>) -> bool {
    any_id(n.guild_id) is Some && any_id(n.channel_id) is Some ==> {
        &&& any_id(n.guild_id) != Some(0nat)
        &&& joined(guilds, any_id(n.guild_id)->0 as u64) ==> any_id(n.channel_id) != Some(0nat)
    }
}

pub open spec fn nonzero_config(streams: Seq<StreamConfigModel>, guilds: Seq<GuildModel>) -> bool {
    forall|s: int, n: int|
        0 <= s < streams.len() && 0 <= n < streams[s].notify.len() ==> nonzero_ids(
            #[trigger] streams[s].notify[n],
            guilds,
        )
}

fn is_joined(guilds: &Vec<GuildInfo>, id: u64) -> (r: bool)
    ensures
        r == joined(guilds_model(guilds@), id),
{
    let ghost all = guilds_model(guilds@);
    let mut i: usize = 0;
    while i < guilds.len()
        invariant
            i <= guilds.len(),
            all == guilds_model(guilds@),
            forall|j: int| 0 <= j < i ==> (#[trigger] all[j]).id != id,
        decreases guilds.len() - i,
    {
        assert(all[i as int] == guilds@[i as int]@);
        if guilds[i].id == id {
            return true;
        }
        i += 1;
    }
    false
}

fn add_once(list: &mut Vec<u64>, id: u64)
    requires
        old(list)@.no_duplicates(),
    ensures
        final(list)@.no_duplicates(),
        forall|x: u64| #[trigger] final(list)@.contains(x) <==> old(list)@.contains(x) || x == id,
{
    let ghost before = list@;
    let mut i: usize = 0;
    while i < list.len()
        invariant
            i <= list.len(),
            list@ == before,
            before == old(list)@,
            before.no_duplicates(),
            forall|j: int| 0 <= j < i ==> before[j] != id,
        decreases list.len() - i,
    {
        if list[i] == id {
            return;
        }
        i += 1;
    }
    list.push(id);
    proof {
        assert forall|x: u64| #[trigger] list@.contains(x) <==> before.contains(x) || x == id by {
            lemma_push_contains(before, id, x);
        }
    }
}

/// The channels that are configured, in guilds that the bot is in, each once.
pub fn channels_to_sync(config: &Config, guilds: &Vec<GuildInfo>) -> (r: Vec<u64>)
    requires
        nonzero_config(config@, guilds_model(guilds@)),
    ensures
        r@.no_duplicates(),
        forall|id: u64| #[trigger]
            r@.contains(id) <==> channel_configured(config@, guilds_model(guilds@), id),
{
    let ghost joined_guilds = guilds_model(guilds@);
    let mut out: Vec<u64> = Vec::new();
    let mut s: usize = 0;
    while s < config.streams.len()
        invariant
            s <= config.streams.len(),
            joined_guilds == guilds_model(guilds@),
            out@.no_duplicates(),
            forall|id: u64| #[trigger]
                out@.contains(id) <==> channel_configured(
                    config@.take(s as int),
                    joined_guilds,
                    id,
                ),
        decreases config.streams.len() - s,
    {
        let stream = &config.streams[s];
        let ghost before = out@;
        assert(config@[s as int] == stream@);
        let mut n: usize = 0;
        while n < stream.notify.len()
            invariant
                n <= stream.notify.len(),
                joined_guilds == guilds_model(guilds@),
                out@.no_duplicates(),
                forall|id: u64| #[trigger]
                    out@.contains(id) <==> before.contains(id) || exists|j: int|
                        0 <= j < n && for_channel(
                            #[trigger] stream@.notify[j],
                            joined_guilds,
                            id,
                        ),
            decreases stream.notify.len() - n,
        {
            let notify = &stream.notify[n];
            let ghost so_far = out@;
            assert(stream@.notify[n as int] == notify@);
            if let Some(gid) = parse_u64(notify.guild_id.as_str()) {
                if let Some(cid) = parse_u64(notify.channel_id.as_str()) {
                    if is_joined(guilds, gid) {
                        add_once(&mut out, cid);
                        assert(for_channel(stream@.notify[n as int], joined_guilds, cid));
                    }
                }
            }
            proof {
                assert forall|id: u64| #[trigger] out@.contains(id) <==> so_far.contains(id)
                    || for_channel(stream@.notify[n as int], joined_guilds, id) by {}
            }
            n += 1;
        }
        proof {
            let now = config@.take(s + 1);
            let was = config@.take(s as int);
            assert forall|id: u64| #[trigger] out@.contains(id) <==> channel_configured(
                now,
                joined_guilds,
                id,
            ) by {
                if channel_configured(was, joined_guilds, id) {
                    let (a, b) = choose|a: int, b: int|
                        0 <= a < was.len() && 0 <= b < was[a].notify.len() && for_channel(
                            #[trigger] was[a].notify[b],
                            joined_guilds,
                            id,
                        );
                    assert(for_channel(now[a].notify[b], joined_guilds, id));
                }
                if exists|j: int|
                    0 <= j < n && for_channel(#[trigger] stream@.notify[j], joined_guilds, id) {
                    let j = choose|j: int|
                        0 <= j < n && for_channel(#[trigger] stream@.notify[j], joined_guilds, id);
                    assert(for_channel(now[s as int].notify[j], joined_guilds, id));
                }
                if channel_configured(now, joined_guilds, id) {
                    let (a, b) = choose|a: int, b: int|
                        0 <= a < now.len() && 0 <= b < now[a].notify.len() && for_channel(
                            #[trigger] now[a].notify[b],
                            joined_guilds,
                            id,
                        );
                    if a < s {
                        assert(for_channel(was[a].notify[b], joined_guilds, id));
                    } else {
                        assert(for_channel(stream@.notify[b], joined_guilds, id));
                    }
                }
            }
        }
        s += 1;
    }
    assert(config@.take(s as int) =~= config@);
    out
}

/// What to do after a page of guilds.
pub open spec fn after_page(page: Seq<GuildModel>) -> GuildPage {
    if page.len() < GUILDS_PER_PAGE {
        GuildPage::Complete
    } else {
        GuildPage::After(page.last().id)
    }
}

/// Adds a page to the guilds that are known so far, and says whether there may
/// be more: a page that is not full is the last.
pub fn add_guilds(guilds: &mut Vec<GuildInfo>, page: Vec<GuildInfo>) -> (r: GuildPage)
    ensures
        r == after_page(guilds_model(page@)),
        guilds_model(final(guilds)@) == guilds_model(old(guilds)@) + guilds_model(page@),
        page@.len() < GUILDS_PER_PAGE ==> r == GuildPage::Complete,
        page@.len() >= GUILDS_PER_PAGE ==> r == GuildPage::After(page@.last().id),
{
    let ghost before = guilds@;
    let incomplete = page.len() < GUILDS_PER_PAGE;
    let mut i: usize = 0;
    while i < page.len()
        invariant
            i <= page.len(),
            guilds@ == before + page@.take(i as int),
        decreases page.len() - i,
    {
        guilds.push(page[i].clone());
        assert(page@.take(i + 1) =~= page@.take(i as int).push(page@[i as int]));
        i += 1;
    }
    proof {
        assert(page@.take(i as int) =~= page@);
        assert(guilds_model(guilds@) =~= guilds_model(before) + guilds_model(page@));
    }
    if incomplete {
        GuildPage::Complete
    } else {
        GuildPage::After(guilds[guilds.len() - 1].id)
    }
}

/// Whether `targets` says, for each guild, in which channels a streamer is told
/// about, and how.
pub open spec fn lists_targets(
    targets: Seq<(GuildInfo, Vec<(u64, NotifyConfig)>)>,
    guilds: Seq<GuildModel>,
    routes: Map<RouteKey, NotifyModel>,
    login: Seq<char>,
) -> bool {
    &&& targets.len() == guilds.len()
    &&& forall|i: int|
        0 <= i < targets.len() ==> (#[trigger] targets[i]).0@ == guilds[i] && lists_channels(
            targets[i].1@,
            routes,
            guilds[i].id,
            login,
        )
}

/// Whether `targets` says where news is told: in each guild that the bot is in, about the
/// streamer of the news.
pub open spec fn tells_guilds(
    targets: Seq<(GuildInfo, Vec<(u64, NotifyConfig)>)>,
    conn: DiscordModel,
    routes: Map<RouteKey, NotifyModel>,
    notif: NotificationModel,
) -> bool {
    lists_targets(targets, conn.guilds, routes, notif.live().stream.user_login)
}

/// What the bot knows at the beginning: who it is and whom it tells about.
pub open spec fn new_discord(user_id: u64, bcids: Map<Seq<char>, ChannelModel>) -> DiscordModel {
    DiscordModel {
        guilds: seq![],
        user_id,
        bcids,
        cache: CacheModel { messages: Map::empty(), ready: Set::empty() },
        last_read: seq![],
    }
}

/// What the bot knows with what another run of it knew of its messages.
pub open spec fn with_loaded(
    conn: DiscordModel,
    entries: Seq<(CacheKey, NotifModel)>,
) -> DiscordModel {
    DiscordModel {
        cache: CacheModel { messages: loaded(conn.cache.messages, entries), ..conn.cache },
        ..conn
    }
}

/// What the bot knows once its guilds were listed.
pub open spec fn with_guilds(conn: DiscordModel, guilds: Seq<GuildModel>) -> DiscordModel {
    DiscordModel { guilds, ..conn }
}

impl InnerConnection {
    /// A connection that knows nothing but who it is and whom it tells about.
    pub fn new(user_id: u64, bcids: Broadcasters) -> (r: InnerConnection)
        ensures
            r@ == new_discord(user_id, bcids@),
            r@ == (DiscordModel {
                guilds: seq![],
                user_id,
                bcids: bcids@,
                cache: CacheModel { messages: Map::empty(), ready: Set::empty() },
                last_read: seq![],
            }),
    {
        let r = InnerConnection {
            guilds: Vec::new(),
            user_id,
            bcids,
            cache: MessageCache::new(),
            last_read: Vec::new(),
        };
        assert(r@.guilds =~= seq![]);
        assert(r@.last_read =~= seq![]);
        r
    }

    /// Takes in what another run of the bot knew of its messages.
    pub fn load_cache(&mut self, entries: Vec<((u64, String), StreamNotifMessage)>)
        ensures
            final(self)@ == with_loaded(old(self)@, entries_model(entries@)),
            final(self)@ == (DiscordModel {
                cache: CacheModel {
                    messages: loaded(old(self)@.cache.messages, entries_model(entries@)),
                    ..old(self)@.cache
                },
                ..old(self)@
            }),
    {
        self.cache.load(entries);
    }

    /// What the bot knows of its messages, in no order.
    pub fn cache_entries(&self) -> (r: Vec<((u64, String), StreamNotifMessage)>)
        ensures
            lists_entries(entries_model(r@), self@.cache.messages),
    {
        self.cache.entries()
    }

    /// The guilds that the bot is in.
    pub fn guilds(&self) -> (r: &Vec<GuildInfo>)
        ensures
            guilds_model(r@) == self@.guilds,
    {
        &self.guilds
    }

    /// Sets the guilds that the bot is in.
    pub fn set_guilds(&mut self, guilds: Vec<GuildInfo>)
        ensures
            final(self)@ == with_guilds(old(self)@, guilds_model(guilds@)),
            final(self)@ == (DiscordModel { guilds: guilds_model(guilds@), ..old(self)@ }),
    {
        self.guilds = guilds;
    }

    /// The notification of a stream in a channel, as far as it is known.
    pub fn cached_message(&self, channel_id: u64, stream_id: &str) -> (r: Option<
        StreamNotifMessage,
    >)
        ensures
            opt_notif(r) == self@.cache.messages.get(
                (channel_id, stream_id@),
            ),
    {
        self.cache.get(channel_id, stream_id)
    }

    /// Remembers a message, if it is a notification, as that of a stream.
    pub fn remember(&mut self, channel_id: u64, stream_id: String, message: &Message)
        ensures
            final(self)@ == remembering(old(self)@, channel_id, stream_id@, message@),
            reads_back(message@),
    {
        if let Ok(notif) = StreamNotifMessage::try_from(message) {
            self.cache.insert(channel_id, stream_id, notif);
        }
    }

    /// Forgets the notification of a stream in a channel.
    pub fn forget(&mut self, channel_id: u64, stream_id: &str)
        ensures
            final(self)@ == (DiscordModel {
                cache: CacheModel {
                    messages: old(self)@.cache.messages.remove((channel_id, stream_id@)),
                    ..old(self)@.cache
                },
                ..old(self)@
            }),
    {
        self.cache.remove(channel_id, stream_id);
    }

    /// Whether the messages of a channel have been read.
    pub fn is_ready(&self, channel_id: u64) -> (r: bool)
        ensures
            r == self@.cache.ready.contains(channel_id),
    {
        self.cache.is_ready(channel_id)
    }

    /// What a notification says about the news.
    pub fn info_from_notif(&self, notif: &Notification, cfg: &NotifyConfig) -> (r: StreamInfo)
        ensures
            r@ == notif_info(self@.bcids, notif@, cfg@),
            readable(r@),
    {
        let icon = match self.bcids.get(notif.stream().user_id.as_str()) {
            Some(channel) => Some(channel.thumbnail_url.as_str()),
            None => None,
        };
        let video_id = match notif.video() {
            Some(video) => Some(video.id.as_str()),
            None => None,
        };
        let offline = match notif {
            Notification::Offline(..) => true,
            _ => false,
        };
        StreamInfo::from_stream(notif.stream(), icon, video_id, offline, cfg)
    }

    /// The notifications among the messages of a channel that the bot wrote.
    pub fn get_channel_messages(&self, fetched: &Vec<Message>) -> (r: Vec<StreamNotifMessage>)
        ensures
            notifs(r@) == own_notifs(messages_model(fetched@), self@.user_id),
            own_read_back(messages_model(fetched@), self@.user_id),
    {
        let ghost all = messages_model(fetched@);
        let mut out: Vec<StreamNotifMessage> = Vec::new();
        let mut i: usize = 0;
        assert(notifs(out@) =~= seq![]);
        while i < fetched.len()
            invariant
                i <= fetched.len(),
                all == messages_model(fetched@),
                notifs(out@) == own_notifs(all.take(i as int), self@.user_id),
                own_read_back(all.take(i as int), self@.user_id),
            decreases fetched.len() - i,
        {
            let message = &fetched[i];
            let ghost before = notifs(out@);
            proof {
                assert(all.take(i + 1).drop_last() =~= all.take(i as int));
                assert(all.take(i + 1).last() == message@);
            }
            if message.author_id == self.user_id {
                if let Ok(notif) = StreamNotifMessage::try_from(message) {
                    out.push(notif);
                    assert(notifs(out@) =~= before.push(notif@));
                }
            }
            proof {
                let seen = all.take(i + 1);
                assert forall|j: int|
                    0 <= j < seen.len() && (#[trigger] seen[j]).author_id
                        == self@.user_id implies reads_back(seen[j]) by {
                    if j < i {
                        assert(all.take(i as int)[j] == seen[j]);
                    }
                }
            }
            i += 1;
        }
        assert(all.take(i as int) =~= all);
        out
    }

    /// Takes in the latest messages of a channel. Gives back the notifications
    /// among them, in the order in which they were sent.
    pub fn sync_channel_messages(&mut self, channel_id: u64, fetched: &Vec<Message>) -> (r: Vec<
        StreamNotifMessage,
    >)
        ensures
            notifs(r@) == time_order(
                own_notifs(messages_model(fetched@), old(self)@.user_id),
            ),
            final(self)@ == synced(old(self)@, channel_id, messages_model(fetched@)),
            own_read_back(messages_model(fetched@), old(self)@.user_id),
    {
        let messages = self.get_channel_messages(fetched);
        let sorted = sort_by_time(&messages);
        self.last_read = self.cache.merge(channel_id, &sorted);
        sorted
    }

    /// What became of each notification of the channel that was read last.
    pub fn last_read(&self) -> (r: &Vec<CacheRead>)
        ensures
            r@ == self@.last_read,
    {
        &self.last_read
    }

    /// Where a streamer is told about: for each guild, the channels that are
    /// configured there.
    pub fn update_stream(&self, routes: &ByGuildId, notif: &Notification) -> (r: Vec<
        (GuildInfo, Vec<(u64, NotifyConfig)>),
    >)
        ensures
            tells_guilds(r@, self@, routes@, notif@),
            lists_targets(r@, self@.guilds, routes@, notif@.live().stream.user_login),
    {
        let login = notif.stream().user_login.as_str();
        let mut out: Vec<(GuildInfo, Vec<(u64, NotifyConfig)>)> = Vec::new();
        let mut i: usize = 0;
        while i < self.guilds.len()
            invariant
                i <= self.guilds.len(),
                lists_targets(
                    out@,
                    guilds_model(self.guilds@).take(i as int),
                    routes@,
                    login@,
                ),
            decreases self.guilds.len() - i,
        {
            let guild = &self.guilds[i];
            let channels = routes.channels(guild.id, login);
            out.push((guild.clone(), channels));
            i += 1;
        }
        assert(guilds_model(self.guilds@).take(i as int) =~= guilds_model(self.guilds@));
        out
    }
}

/// What the bot knows once it has seen a message for a stream.
pub open spec fn remembering(
    conn: DiscordModel,
    channel_id: u64,
    stream_id: Seq<char>,
    message: MessageModel,
) -> DiscordModel {
    match notif_of(message) {
        Some(n) => DiscordModel {
            cache: CacheModel {
                messages: conn.cache.messages.insert((channel_id, stream_id), n),
                ..conn.cache
            },
            ..conn
        },
        None => conn,
    }
}

/// What the bot knows once it has read the latest messages of a channel.
pub open spec fn synced(
    conn: DiscordModel,
    channel_id: u64,
    fetched: Seq<MessageModel>,
) -> DiscordModel {
    let list = time_order(own_notifs(fetched, conn.user_id));
    DiscordModel {
        cache: CacheModel {
            messages: merged(conn.cache.messages, list),
            ready: conn.cache.ready.insert(channel_id),
        },
        last_read: reads(conn.cache.messages, list),
        ..conn
    }
}

// ---------------------------------------------------------------------------
// Laws
// ---------------------------------------------------------------------------

/// A configuration that can be turned round holds no identifier that is zero.
pub proof fn law_valid_config_has_no_zeros(
    streams: Seq<StreamConfigModel>,
    guilds: Seq<GuildModel>,
)
    requires
        valid_config(streams),
    ensures
        nonzero_config(streams, guilds),
{
    assert forall|s: int, n: int|
        0 <= s < streams.len() && 0 <= n < streams[s].notify.len() implies nonzero_ids(
        #[trigger] streams[s].notify[n],
        guilds,
    ) by {
        assert(valid_notify(streams[s].notify[n]));
    }
}

/// A notification that the bot wrote is found among the messages that hold it.
pub proof fn law_own_messages_are_found(messages: Seq<MessageModel>, user_id: u64, i: int)
    requires
        0 <= i < messages.len(),
        messages[i].author_id == user_id,
        notif_of(messages[i]) is Some,
    ensures
        own_notifs(messages, user_id).contains(notif_of(messages[i])->0),
    decreases messages.len(),
{
    let n = notif_of(messages[i])->0;
    let before = own_notifs(messages.drop_last(), user_id);
    let after = own_notifs(messages, user_id);
    if i == messages.len() - 1 {
        assert(after[before.len() as int] == n);
    } else {
        assert(messages.drop_last()[i] == messages[i]);
        law_own_messages_are_found(messages.drop_last(), user_id, i);
        let j = choose|j: int| 0 <= j < before.len() && before[j] == n;
        assert(after[j] == n);
    }
}

/// Nothing that someone else wrote is taken for a notification of the bot.
pub proof fn law_only_own_messages_count(
    messages: Seq<MessageModel>,
    user_id: u64,
    n: NotifModel,
) -> (i: int)
    requires
        own_notifs(messages, user_id).contains(n),
    ensures
        0 <= i < messages.len(),
        messages[i].author_id == user_id,
        notif_of(messages[i]) == Some(n),
    decreases messages.len(),
{
    let before = own_notifs(messages.drop_last(), user_id);
    let after = own_notifs(messages, user_id);
    let j = choose|j: int| 0 <= j < after.len() && after[j] == n;
    if j < before.len() {
        assert(before.contains(before[j]));
        law_only_own_messages_count(messages.drop_last(), user_id, n)
    } else {
        messages.len() - 1
    }
}

/// What is told of some news is what the news says of the stream and of its recording,
/// in the words that were configured, with the icon of the broadcaster where it is
/// known; and that the stream is over if and only if the news says so.
pub proof fn law_news_become_information(
    bcids: Map<Seq<char>, ChannelModel>,
    notif: NotificationModel,
    cfg: NotifyModel,
)
    ensures
        ({
            let m = notif_info(bcids, notif, cfg);
            let live = match notif {
                NotificationModel::Online(live) => live,
                NotificationModel::Update(live) => live,
                NotificationModel::Offline(live) => live,
            };
            let stream = live.stream;
            &&& m.game_name == stream.game_name
            &&& m.viewer_count == stream.viewer_count
            &&& m.user_name == stream.user_name
            &&& m.user_login == stream.user_login
            &&& m.game_id == stream.game_id
            &&& m.stream_id == stream.id
            &&& m.stream_title == stream.title
            &&& m.stream_thumbnail == stream.thumbnail_url
            &&& m.format_online == cfg.format_online
            &&& m.format_offline == cfg.format_offline
            &&& m.ping == cfg.ping
            &&& m.offline <==> notif is Offline
            &&& live.video is None ==> m.video_id is None
            &&& live.video matches Some(video) ==> m.video_id == Some(video.id)
            &&& !bcids.contains_key(stream.user_id) ==> m.user_icon is None
            &&& bcids.contains_key(stream.user_id) ==> m.user_icon == Some(
                bcids[stream.user_id].thumbnail_url,
            )
            &&& m.started_at is Some <==> rfc3339_parts(stream.started_at) is Some
            &&& m.started_at matches Some(t) ==> rfc3339_parts(stream.started_at) == Some(
                (t.secs, t.nanos, t.offset),
            )
        }),
{
}

/// The bot's notifications among some messages and some more are those among the first,
/// and behind them those among the others.
pub proof fn law_own_notifications_in_order(
    a: Seq<MessageModel>,
    b: Seq<MessageModel>,
    user_id: u64,
)
    ensures
        own_notifs(a + b, user_id) == own_notifs(a, user_id) + own_notifs(b, user_id),
    decreases b.len(),
{
    if b.len() == 0 {
        assert(a + b =~= a);
        assert(own_notifs(a, user_id) + own_notifs(b, user_id) =~= own_notifs(a, user_id));
    } else {
        law_own_notifications_in_order(a, b.drop_last(), user_id);
        assert((a + b).drop_last() =~= a + b.drop_last());
        assert(own_notifs(a + b, user_id) =~= own_notifs(a, user_id) + own_notifs(b, user_id));
    }
}

/// One message is a notification of the bot if the bot wrote it and it reads as one.
pub proof fn law_what_counts_as_own(m: MessageModel, user_id: u64)
    ensures
        m.author_id != user_id || notif_of(m) is None ==> own_notifs(seq![m], user_id) == Seq::<
            NotifModel,
        >::empty(),
        m.author_id == user_id ==> (notif_of(m) matches Some(n) ==> own_notifs(seq![m], user_id)
            == seq![n]),
{
    reveal_with_fuel(own_notifs, 2);
    assert(seq![m].drop_last() =~= seq![]);
    if let Some(n) = notif_of(m) {
        assert(Seq::<NotifModel>::empty().push(n) =~= seq![n]);
    }
}

/// The channels that are read are those that a notification is configured for whose
/// guild the bot is in.
pub proof fn law_configured_channels_are_read(
    streams: Seq<StreamConfigModel>,
    guilds: Seq<GuildModel>,
    s: int,
    n: int,
    g: int,
    channel_id: u64,
)
    ensures
        0 <= s < streams.len() && 0 <= n < streams[s].notify.len() && 0 <= g < guilds.len()
            && parse_decimal(streams[s].notify[n].guild_id, u64::MAX as nat) == Some(
            guilds[g].id as nat,
        ) && parse_decimal(streams[s].notify[n].channel_id, u64::MAX as nat) == Some(
            channel_id as nat,
        ) ==> channel_configured(streams, guilds, channel_id),
        channel_configured(streams, guilds, channel_id) ==> exists|a: int, b: int, c: int|
            0 <= a < streams.len() && 0 <= b < streams[a].notify.len() && 0 <= c < guilds.len()
                && parse_decimal((#[trigger] streams[a].notify[b]).guild_id, u64::MAX as nat)
                == Some((#[trigger] guilds[c]).id as nat) && parse_decimal(
                streams[a].notify[b].channel_id,
                u64::MAX as nat,
            ) == Some(channel_id as nat),
{
    if 0 <= s < streams.len() && 0 <= n < streams[s].notify.len() && 0 <= g < guilds.len()
        && parse_decimal(streams[s].notify[n].guild_id, u64::MAX as nat) == Some(
        guilds[g].id as nat,
    ) && parse_decimal(streams[s].notify[n].channel_id, u64::MAX as nat) == Some(
        channel_id as nat,
    ) {
        assert(joined(guilds, guilds[g].id));
        assert(for_channel(streams[s].notify[n], guilds, channel_id));
    }
    if channel_configured(streams, guilds, channel_id) {
        let (a, b) = choose|a: int, b: int|
            0 <= a < streams.len() && 0 <= b < streams[a].notify.len() && for_channel(
                #[trigger] streams[a].notify[b],
                guilds,
                channel_id,
            );
        let notify = streams[a].notify[b];
        let gid = any_id(notify.guild_id)->0;
        assert(gid <= u64::MAX);
        let c = choose|c: int| 0 <= c < guilds.len() && (#[trigger] guilds[c]).id == gid as u64;
        assert(parse_decimal(streams[a].notify[b].guild_id, u64::MAX as nat) == Some(
            guilds[c].id as nat,
        ));
    }
}

/// Guilds are listed until a page is not full, of a hundred; the next page begins
/// behind the last guild.
pub proof fn law_pages_follow_each_other(page: Seq<GuildModel>)
    ensures
        after_page(page) == GuildPage::Complete <==> page.len() < 100,
        page.len() >= 100 ==> after_page(page) == GuildPage::After(page[page.len() - 1].id),
{
}

/// Each guild that the bot is in is told, in turn, in the channels that have a route
/// there for the streamer and in no others.
pub proof fn law_guilds_are_told_where_configured(
    targets: Seq<(GuildInfo, Vec<(u64, NotifyConfig)>)>,
    guilds: Seq<GuildModel>,
    routes: Map<RouteKey, NotifyModel>,
    login: Seq<char>,
    i: int,
    channel_id: u64,
)
    requires
        lists_targets(targets, guilds, routes, login),
    ensures
        targets.len() == guilds.len(),
        0 <= i < guilds.len() ==> targets[i].0.id == guilds[i].id && targets[i].0.name@
            == guilds[i].name && (routes.contains_key((guilds[i].id, login, channel_id))
            <==> exists|k: int|
            0 <= k < targets[i].1@.len() && (#[trigger] targets[i].1@[k]).0 == channel_id)
            && forall|k: int|
            0 <= k < targets[i].1@.len() ==> routes.contains_pair(
                (guilds[i].id, login, (#[trigger] targets[i].1@[k]).0),
                targets[i].1@[k].1@,
            ),
{
    if 0 <= i < guilds.len() {
        assert(targets[i].0@ == guilds[i]);
        law_channels_are_those_with_a_route(
            targets[i].1@,
            routes,
            guilds[i].id,
            login,
            channel_id,
            0,
            0,
        );
    }
}

/// A notification that was seen for a stream in a channel is what is known of them;
/// nothing else is touched, and a message that is no notification changes nothing.
pub proof fn law_what_is_remembered(
    conn: DiscordModel,
    channel_id: u64,
    stream_id: Seq<char>,
    message: MessageModel,
    key: CacheKey,
)
    ensures
        ({
            let after = remembering(conn, channel_id, stream_id, message);
            &&& notif_of(message) matches Some(n) ==> after.cache.messages.contains_pair(
                (channel_id, stream_id),
                n,
            )
            &&& key != (channel_id, stream_id) ==> after.cache.messages.get(key)
                == conn.cache.messages.get(key)
            &&& notif_of(message) is None ==> after == conn
            &&& after.cache.ready == conn.cache.ready
            &&& after.guilds == conn.guilds
            &&& after.user_id == conn.user_id
            &&& after.bcids == conn.bcids
        }),
{
}

/// After a channel was read it counts as read, and each notification of the bot in it
/// is known, or one of its stream that was not written earlier. What was known stays
/// known, or gives way to something later.
pub proof fn law_what_reading_a_channel_does(
    conn: DiscordModel,
    channel_id: u64,
    fetched: Seq<MessageModel>,
    i: int,
    key: CacheKey,
)
    ensures
        ({
            let after = synced(conn, channel_id, fetched);
            &&& after.cache.ready == conn.cache.ready.insert(channel_id)
            &&& after.guilds == conn.guilds
            &&& after.user_id == conn.user_id
            &&& after.bcids == conn.bcids
            &&& 0 <= i < fetched.len() && fetched[i].author_id == conn.user_id ==> (notif_of(
                fetched[i],
            ) matches Some(n) ==> {
                let at = (n.channel_id, n.info.stream_id);
                after.cache.messages.contains_key(at) && !later(
                    n.touched(),
                    after.cache.messages[at].touched(),
                )
            })
            &&& conn.cache.messages.contains_key(key) ==> after.cache.messages.contains_key(key) && (
            after.cache.messages[key] == conn.cache.messages[key] || later(
                after.cache.messages[key].touched(),
                conn.cache.messages[key].touched(),
            ))
        }),
{
    let own = own_notifs(fetched, conn.user_id);
    let list = time_order(own);
    if 0 <= i < fetched.len() && fetched[i].author_id == conn.user_id {
        if let Some(n) = notif_of(fetched[i]) {
            law_own_messages_are_found(fetched, conn.user_id, i);
            law_sorted_by_time(own, n, 0, 0);
            let j = choose|j: int| 0 <= j < list.len() && list[j] == n;
            law_merging_takes_all_in(conn.cache.messages, list, j);
        }
    }
    if conn.cache.messages.contains_key(key) {
        law_merging_moves_forward(conn.cache.messages, list, key);
    }
}

/// News of a stream goes to the channels that were configured for the login of who
/// streams, in the guilds that the bot is in.
pub proof fn law_news_goes_to_the_configured_channels(
    targets: Seq<(GuildInfo, Vec<(u64, NotifyConfig)>)>,
    conn: DiscordModel,
    streams: Seq<StreamConfigModel>,
    notif: NotificationModel,
    g: int,
    s: int,
    n: int,
)
    requires
        tells_guilds(targets, conn, by_guild_id(streams), notif),
        0 <= g < conn.guilds.len(),
        0 <= s < streams.len(),
        0 <= n < streams[s].notify.len(),
        streams[s].streamer_login == notif.live().stream.user_login,
        discord_id(streams[s].notify[n].guild_id) == Some(conn.guilds[g].id),
        discord_id(streams[s].notify[n].channel_id) is Some,
    ensures
        targets.len() == conn.guilds.len(),
        targets[g].0.id == conn.guilds[g].id,
        exists|k: int|
            0 <= k < targets[g].1@.len() && Some((#[trigger] targets[g].1@[k]).0) == discord_id(
                streams[s].notify[n].channel_id,
            ),
{
    let login = notif.live().stream.user_login;
    law_every_notification_is_routed(streams, s, n);
    law_routes_lead_where_they_say(login, streams[s].notify[n]);
    let channel_id = discord_id(streams[s].notify[n].channel_id)->0;
    law_guilds_are_told_where_configured(
        targets,
        conn.guilds,
        by_guild_id(streams),
        login,
        g,
        channel_id,
    );
    let k = choose|k: int|
        0 <= k < targets[g].1@.len() && (#[trigger] targets[g].1@[k]).0 == channel_id;
    assert(Some(targets[g].1@[k].0) == discord_id(streams[s].notify[n].channel_id));
}

/// And nowhere else: where news is told, a notification for that guild, channel and login was
/// configured, and what is said there is what it says.
pub proof fn law_news_goes_nowhere_else(
    targets: Seq<(GuildInfo, Vec<(u64, NotifyConfig)>)>,
    conn: DiscordModel,
    streams: Seq<StreamConfigModel>,
    notif: NotificationModel,
    g: int,
    k: int,
) -> (at: (int, int))
    requires
        valid_config(streams),
        tells_guilds(targets, conn, by_guild_id(streams), notif),
        0 <= g < conn.guilds.len(),
        0 <= k < targets[g].1@.len(),
    ensures
        0 <= at.0 < streams.len(),
        0 <= at.1 < streams[at.0].notify.len(),
        streams[at.0].streamer_login == notif.live().stream.user_login,
        discord_id(streams[at.0].notify[at.1].guild_id) == Some(conn.guilds[g].id),
        discord_id(streams[at.0].notify[at.1].channel_id) == Some(targets[g].1@[k].0),
        targets[g].1@[k].1@ == streams[at.0].notify[at.1],
{
    let login = notif.live().stream.user_login;
    law_guilds_are_told_where_configured(
        targets,
        conn.guilds,
        by_guild_id(streams),
        login,
        g,
        targets[g].1@[k].0,
    );
    let key = (conn.guilds[g].id, login, targets[g].1@[k].0);
    let at = law_routes_come_from_config(streams, key);
    assert(valid_notify(streams[at.0].notify[at.1]));
    at
}

/// The guilds are listed every four minutes, a hundred at a time, and of a channel the latest
/// fifty messages are read.
pub proof fn law_how_much_is_read()
    ensures
        RESYNC_SECS == 4 * 60,
        GUILDS_PER_PAGE == 100,
        MESSAGES_READ == 50,
{
}

/// The bot begins with nothing but who it is and whom it tells about: no channel was read,
/// and no notification is known.
pub proof fn law_how_the_bot_begins(user_id: u64, bcids: Map<Seq<char>, ChannelModel>, key: CacheKey)
    ensures
        ({
            let conn = new_discord(user_id, bcids);
            &&& conn.user_id == user_id
            &&& conn.bcids == bcids
            &&& conn.guilds.len() == 0
            &&& !conn.cache.messages.contains_key(key)
            &&& !conn.cache.ready.contains(key.0)
        }),
{
}

/// A bot that begins with what another run of it gave out knows what that one knew of its
/// messages.
pub proof fn law_the_bot_survives_a_restart(
    before: DiscordModel,
    entries: Seq<(CacheKey, NotifModel)>,
    user_id: u64,
    bcids: Map<Seq<char>, ChannelModel>,
)
    requires
        lists_entries(entries, before.cache.messages),
    ensures
        ({
            let conn = with_loaded(new_discord(user_id, bcids), entries);
            &&& conn.cache.messages == before.cache.messages
            &&& conn.user_id == user_id
            &&& conn.bcids == bcids
        }),
{
    law_cache_survives_a_restart(before.cache.messages, entries);
}

/// The guilds that were listed are those that the bot is in, and nothing else changes.
pub proof fn law_the_guilds_are_those_listed(conn: DiscordModel, guilds: Seq<GuildModel>)
    ensures
        with_guilds(conn, guilds).guilds == guilds,
        with_guilds(conn, guilds).cache == conn.cache,
        with_guilds(conn, guilds).user_id == conn.user_id,
        with_guilds(conn, guilds).bcids == conn.bcids,
{
}

/// What is known of a guild is what was said of it.
pub proof fn law_nothing_about_a_guild_is_left_out(g: GuildInfo, list: Seq<GuildInfo>, i: int)
    ensures
        g@.id == g.id,
        g@.name == g.name@,
        guilds_model(list).len() == list.len(),
        0 <= i < list.len() ==> guilds_model(list)[i] == list[i]@,
{
}

} // verus!
