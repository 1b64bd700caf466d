//! What the bot was told to watch, and whom to tell.

use vstd::prelude::*;

use crate::text::{opt_text, parse_decimal, same};

verus! {

/// Where, and how, to tell about a stream.
#[verifier::ext_equal]
pub struct NotifyModel {
    pub guild_id: Seq<char>,
    pub channel_id: Seq<char>,
    pub ping: Option<Seq<char>>,
    pub format_online: Option<Seq<char>>,
    pub format_offline: Option<Seq<char>>,
}

/// A streamer, and whom to tell about them.
#[verifier::ext_equal]
pub struct StreamConfigModel {
    pub streamer_login: Seq<char>,
    pub notify: Seq<NotifyModel>,
}

#[derive(Debug)]
pub struct Config {
    pub streams: Vec<StreamConfig>,
}

#[derive(Debug)]
pub struct StreamConfig {
    pub streamer_login: String,
    pub notify: Vec<NotifyConfig>,
}

#[derive(Debug, Hash, PartialEq, Eq)]
pub struct NotifyConfig {
    pub guild_id: String,
    pub channel_id: String,
    pub ping: Option<String>,
    pub format_online: Option<String>,
    pub format_offline: Option<String>,
}

impl View for NotifyConfig {
    type V = NotifyModel;

    open spec fn view(&self) -> NotifyModel {
        NotifyModel {
            guild_id: self.guild_id@,
            channel_id: self.channel_id@,
            ping: opt_text(self.ping),
            format_online: opt_text(self.format_online),
            format_offline: opt_text(self.format_offline),
        }
    }
}

impl View for StreamConfig {
    type V = StreamConfigModel;

    open spec fn view(&self) -> StreamConfigModel {
        StreamConfigModel {
            streamer_login: self.streamer_login@,
            notify: self.notify@.map_values(|n: NotifyConfig| n@),
        }
    }
}

impl View for Config {
    type V = Seq<StreamConfigModel>;

    open spec fn view(&self) -> Seq<StreamConfigModel> {
        self.streams@.map_values(|s: StreamConfig| s@)
    }
}

impl Clone for NotifyConfig {
    fn clone(&self) -> (r: NotifyConfig)
        ensures
            r == *self,
    {
        NotifyConfig {
            guild_id: self.guild_id.clone(),
            channel_id: self.channel_id.clone(),
            ping: self.ping.clone(),
            format_online: self.format_online.clone(),
            format_offline: self.format_offline.clone(),
        }
    }
}

/// The Discord identifier that a text writes: a decimal number other than
/// zero.
pub open spec fn discord_id(s: Seq<char>) -> Option<u64> {
    match parse_decimal(s, u64::MAX as nat) {
        Some(n) => if n == 0 {
            None
        } else {
            Some(n as u64)
        },
        None => None,
    }
}

/// `serenity::all::GuildId::from_str`.
///
/// Trusted: it reads a decimal `u64` that is not zero, and nothing else.
#[verifier::external_body]
fn guild_id_from_str(s: &str) -> (r: Option<u64>)
    ensures
        r == discord_id(s@),
{
    s.parse::<serenity::all::GuildId>().ok().map(|id| id.get())
}

/// `serenity::all::ChannelId::from_str`.
///
/// Trusted: it reads a decimal `u64` that is not zero, and nothing else.
#[verifier::external_body]
fn channel_id_from_str(s: &str) -> (r: Option<u64>)
    ensures
        r == discord_id(s@),
{
    s.parse::<serenity::all::ChannelId>().ok().map(|id| id.get())
}

// ---------------------------------------------------------------------------
// Guild -> (Twitch login -> (channel -> what to say there))
// ---------------------------------------------------------------------------

/// A guild, a Twitch login and a channel.
pub type RouteKey = (u64, Seq<char>, u64);

/// What is said about a streamer in a channel of a guild.
#[derive(Debug)]
pub struct Route {
    pub guild_id: u64,
    pub login: String,
    pub channel_id: u64,
    pub notify: NotifyConfig,
}

impl Route {
    pub open spec fn key(self) -> RouteKey {
        (self.guild_id, self.login@, self.channel_id)
    }
}

/// Whom each guild is told about, in which channels: the configuration turned
/// round. No two routes are for the same guild, login and channel.
#[derive(Debug)]
pub struct ByGuildId {
    routes: Vec<Route>,
}

pub closed spec fn distinct_routes(routes: Seq<Route>) -> bool {
    forall|i: int, j: int|
        0 <= i < j < routes.len() ==> (#[trigger] routes[i]).key() != (#[trigger] routes[j]).key()
}

pub closed spec fn has_route(routes: Seq<Route>, key: RouteKey) -> bool {
    exists|i: int| 0 <= i < routes.len() && (#[trigger] routes[i]).key() == key
}

pub closed spec fn route_of(routes: Seq<Route>, key: RouteKey) -> int {
    choose|i: int| 0 <= i < routes.len() && (#[trigger] routes[i]).key() == key
}

impl View for ByGuildId {
    type V = Map<RouteKey, NotifyModel>;

    closed spec fn view(&self) -> Map<RouteKey, NotifyModel> {
        Map::new(
            |k: RouteKey| has_route(self.routes@, k),
            |k: RouteKey| self.routes@[route_of(self.routes@, k)].notify@,
        )
    }
}

impl ByGuildId {
    #[verifier::type_invariant]
    spec fn inv(self) -> bool {
        distinct_routes(self.routes@)
    }

    /// No routes.
    pub fn new() -> (r: ByGuildId)
        ensures
            r@ == Map::<RouteKey, NotifyModel>::empty(),
    {
        let r = ByGuildId { routes: Vec::new() };
        assert(r@ =~= Map::<RouteKey, NotifyModel>::empty());
        r
    }

    /// Sets what is said about a streamer in a channel of a guild.
    pub fn insert(&mut self, guild_id: u64, login: &str, channel_id: u64, notify: &NotifyConfig)
        ensures
            final(self)@ == old(self)@.insert((guild_id, login@, channel_id), notify@),
    {
        proof {
            use_type_invariant(&*self);
        }
        let ghost key: RouteKey = (guild_id, login@, channel_id);
        let ghost before = *self;
        let mut routes: Vec<Route> = Vec::new();
        let mut old_routes: Vec<Route> = Vec::new();
        std::mem::swap(&mut old_routes, &mut self.routes);
        let ghost start = old_routes@;
        let mut i: usize = 0;
        let mut found = false;
        while i < old_routes.len()
            invariant
                i <= old_routes.len(),
                old_routes@ == start,
                key == (guild_id, login@, channel_id),
                distinct_routes(start),
                routes@.len() == i,
                forall|j: int|
                    0 <= j < i ==> (#[trigger] routes@[j]).key() == start[j].key() && routes@[j].notify@
                        == (if start[j].key() == key {
                        notify@
                    } else {
                        start[j].notify@
                    }),
                found == (exists|j: int| 0 <= j < i && (#[trigger] start[j]).key() == key),
            decreases old_routes.len() - i,
        {
            let route = &old_routes[i];
            let hit = route.guild_id == guild_id && same(route.login.as_str(), login)
                && route.channel_id == channel_id;
            assert(hit == (start[i as int].key() == key));
            routes.push(
                Route {
                    guild_id: route.guild_id,
                    login: route.login.clone(),
                    channel_id: route.channel_id,
                    notify: if hit {
                        notify.clone()
                    } else {
                        route.notify.clone()
                    },
                },
            );
            if hit {
                found = true;
            }
            i += 1;
        }
        if !found {
            routes.push(
                Route {
                    guild_id,
                    login: login.to_owned(),
                    channel_id,
                    notify: notify.clone(),
                },
            );
        }
        proof {
            assert forall|a: int, b: int| 0 <= a < b < routes@.len() implies (#[trigger]
            routes@[a]).key() != (#[trigger] routes@[b]).key() by {
                if b < start.len() {
                    assert(start[a].key() != start[b].key());
                } else {
                    assert(start[a].key() != key);
                }
            }
        }
        self.routes = routes;
        proof {
            let m = before@.insert(key, notify@);
            assert forall|k: RouteKey| has_route(self.routes@, k) == m.contains_key(k) by {
                if has_route(self.routes@, k) {
                    let j = route_of(self.routes@, k);
                    if j < start.len() {
                        assert(start[j].key() == k);
                        assert(has_route(start, k));
                    }
                }
                if has_route(start, k) {
                    let j = route_of(start, k);
                    assert(self.routes@[j].key() == k);
                }
                if k == key {
                    if found {
                        let j = choose|j: int|
                            0 <= j < start.len() && (#[trigger] start[j]).key() == key;
                        assert(self.routes@[j].key() == key);
                    } else {
                        assert(self.routes@[start.len() as int].key() == key);
                    }
                }
            }
            assert forall|k: RouteKey| m.contains_key(k) implies m[k] == #[trigger] self@[k] by {
                assert(has_route(self.routes@, k));
                let j = route_of(self.routes@, k);
                if j < start.len() {
                    assert(start[j].key() == k);
                    if k != key {
                        assert(has_route(start, k));
                        let j2 = route_of(start, k);
                        assert(start[j2].key() == k);
                        if j < j2 {
                            assert(start[j].key() != start[j2].key());
                        }
                        if j2 < j {
                            assert(start[j2].key() != start[j].key());
                        }
                    }
                }
            }
            assert(self@ =~= m);
        }
    }

    /// The channels of a guild that are told about a streamer, and what is
    /// said there: each channel once.
    pub fn channels(&self, guild_id: u64, login: &str) -> (r: Vec<(u64, NotifyConfig)>)
        ensures
            lists_channels(r@, self@, guild_id, login@),
    {
        proof {
            use_type_invariant(self);
        }
        let mut out: Vec<(u64, NotifyConfig)> = Vec::new();
        let mut i: usize = 0;
        let ghost routes = self.routes@;
        let ghost mut from: Seq<int> = seq![];
        while i < self.routes.len()
            invariant
                i <= self.routes.len(),
                routes == self.routes@,
                from.len() == out@.len(),
                forall|k: int|
                    0 <= k < from.len() ==> 0 <= #[trigger] from[k] < i && routes[from[k]].key() == (
                        guild_id,
                        login@,
                        out@[k].0,
                    ) && out@[k].1@ == routes[from[k]].notify@,
                forall|a: int, b: int| 0 <= a < b < from.len() ==> from[a] < from[b],
                forall|j: int|
                    0 <= j < i && (#[trigger] routes[j]).guild_id == guild_id && routes[j].login@
                        == login@ ==> from.contains(j),
            decreases self.routes.len() - i,
        {
            let route = &self.routes[i];
            let ghost from0 = from;
            if route.guild_id == guild_id && same(route.login.as_str(), login) {
                out.push((route.channel_id, route.notify.clone()));
                proof {
                    from = from.push(i as int);
                    assert(from[from0.len() as int] == i);
                }
            }
            i += 1;
            assert forall|j: int|
                0 <= j < i && (#[trigger] routes[j]).guild_id == guild_id && routes[j].login@
                    == login@ implies from.contains(j) by {
                if j < i - 1 {
                    assert(from0.contains(j));
                    let k = choose|k: int| 0 <= k < from0.len() && from0[k] == j;
                    assert(from[k] == j);
                }
            }
        }
        proof {
            assert forall|k: int| 0 <= k < out@.len() implies self@.contains_pair(
                (guild_id, login@, (#[trigger] out@[k]).0),
                out@[k].1@,
            ) by {
                let key = (guild_id, login@, out@[k].0);
                let j = from[k];
                assert(routes[j].key() == key);
                assert(has_route(routes, key));
                let j2 = route_of(routes, key);
                if j < j2 {
                    assert(routes[j].key() != routes[j2].key());
                }
                if j2 < j {
                    assert(routes[j2].key() != routes[j].key());
                }
            }
            assert forall|a: int, b: int| 0 <= a < b < out@.len() implies (#[trigger] out@[a]).0 != (
            #[trigger] out@[b]).0 by {
                let x = from[a];
                let y = from[b];
                assert(routes[x].key() != routes[y].key());
            }
            assert forall|c: u64| #[trigger] self@.contains_key((guild_id, login@, c)) implies exists|
                k: int,
            | 0 <= k < out@.len() && (#[trigger] out@[k]).0 == c by {
                let key = (guild_id, login@, c);
                assert(has_route(routes, key));
                let j = route_of(routes, key);
                assert(routes[j].key() == key);
                assert(from.contains(j));
                let k = choose|k: int| 0 <= k < from.len() && from[k] == j;
                assert(out@[k].0 == c);
            }
        }
        out
    }
}

/// Whether `r` lists the channels of a guild that are told about a streamer,
/// each once, with what is said there.
pub open spec fn lists_channels(
    r: Seq<(u64, NotifyConfig)>,
    routes: Map<RouteKey, NotifyModel>,
    guild_id: u64,
    login: Seq<char>,
) -> bool {
    &&& forall|k: int|
        0 <= k < r.len() ==> routes.contains_pair(
            (guild_id, login, (#[trigger] r[k]).0),
            r[k].1@,
        )
    &&& forall|a: int, b: int| 0 <= a < b < r.len() ==> (#[trigger] r[a]).0 != (#[trigger] r[b]).0
    &&& forall|c: u64| #[trigger]
        routes.contains_key((guild_id, login, c)) ==> exists|k: int|
            0 <= k < r.len() && (#[trigger] r[k]).0 == c
}

/// The route of a notification of a streamer.
pub open spec fn route_key(login: Seq<char>, n: NotifyModel) -> RouteKey {
    (discord_id(n.guild_id)->0, login, discord_id(n.channel_id)->0)
}

/// Whether the guild and the channel of a notification are identifiers.
pub open spec fn valid_notify(n: NotifyModel) -> bool {
    discord_id(n.guild_id) is Some && discord_id(n.channel_id) is Some
}

/// Whether every guild and channel in the configuration is an identifier.
pub open spec fn valid_config(streams: Seq<StreamConfigModel>) -> bool {
    forall|s: int, n: int|
        0 <= s < streams.len() && 0 <= n < streams[s].notify.len() ==> valid_notify(
            #[trigger] streams[s].notify[n],
        )
}

/// `routes` with those of one streamer set, the later over the earlier.
pub open spec fn with_notifies(
    routes: Map<RouteKey, NotifyModel>,
    login: Seq<char>,
    notify: Seq<NotifyModel>,
) -> Map<RouteKey, NotifyModel>
    decreases notify.len(),
{
    if notify.len() == 0 {
        routes
    } else {
        with_notifies(routes, login, notify.drop_last()).insert(
            route_key(login, notify.last()),
            notify.last(),
        )
    }
}

/// The configuration turned round, the later entries over the earlier.
pub open spec fn by_guild_id(streams: Seq<StreamConfigModel>) -> Map<RouteKey, NotifyModel>
    decreases streams.len(),
{
    if streams.len() == 0 {
        Map::empty()
    } else {
        with_notifies(
            by_guild_id(streams.drop_last()),
            streams.last().streamer_login,
            streams.last().notify,
        )
    }
}

/// Whether every guild and channel in a configuration is an identifier.
pub fn config_is_valid(config: &Config) -> (r: bool)
    ensures
        r == valid_config(config@),
{
    let mut s: usize = 0;
    while s < config.streams.len()
        invariant
            s <= config.streams.len(),
            forall|i: int, n: int|
                0 <= i < s && 0 <= n < config@[i].notify.len() ==> valid_notify(
                    #[trigger] config@[i].notify[n],
                ),
        decreases config.streams.len() - s,
    {
        let stream = &config.streams[s];
        assert(config@[s as int] == stream@);
        let mut n: usize = 0;
        while n < stream.notify.len()
            invariant
                n <= stream.notify.len(),
                s < config.streams.len(),
                *stream == config.streams@[s as int],
                config@[s as int] == stream@,
                forall|j: int| 0 <= j < n ==> valid_notify(#[trigger] stream@.notify[j]),
            decreases stream.notify.len() - n,
        {
            let notify = &stream.notify[n];
            assert(stream@.notify[n as int] == notify@);
            if guild_id_from_str(notify.guild_id.as_str()).is_none() || channel_id_from_str(
                notify.channel_id.as_str(),
            ).is_none() {
                assert(!valid_notify(config@[s as int].notify[n as int]));
                return false;
            }
            n += 1;
        }
        s += 1;
    }
    true
}

/// Turns a configuration round, so that each guild can look up what it needs
/// to deliver notifications for the right streamers to the right channels.
pub fn derive_by_guild_id(config: &Config) -> (r: ByGuildId)
    requires
        valid_config(config@),
    ensures
        r@ == by_guild_id(config@),
{
    let mut map = ByGuildId::new();
    let mut s: usize = 0;
    while s < config.streams.len()
        invariant
            s <= config.streams.len(),
            valid_config(config@),
            map@ == by_guild_id(config@.take(s as int)),
        decreases config.streams.len() - s,
    {
        let stream = &config.streams[s];
        let ghost base = map@;
        let mut n: usize = 0;
        assert(stream@.notify.take(0) =~= Seq::<NotifyModel>::empty());
        assert(config@[s as int] == stream@);
        while n < stream.notify.len()
            invariant
                n <= stream.notify.len(),
                s < config.streams.len(),
                valid_config(config@),
                config@[s as int] == stream@,
                map@ == with_notifies(
                    base,
                    stream.streamer_login@,
                    stream@.notify.take(n as int),
                ),
            decreases stream.notify.len() - n,
        {
            let notify = &stream.notify[n];
            assert(stream@.notify[n as int] == notify@);
            assert(valid_notify(config@[s as int].notify[n as int]));
            let gid = guild_id_from_str(notify.guild_id.as_str()).unwrap();
            let cid = channel_id_from_str(notify.channel_id.as_str()).unwrap();
            map.insert(gid, stream.streamer_login.as_str(), cid, notify);
            n += 1;
            proof {
                assert(stream@.notify.take(n as int).drop_last() =~= stream@.notify.take(n - 1));
            }
        }
        s += 1;
        proof {
            assert(stream@.notify.take(n as int) =~= stream@.notify);
            assert(config@.take(s as int).drop_last() =~= config@.take(s - 1));
        }
    }
    proof {
        assert(config@.take(s as int) =~= config@);
    }
    map
}

proof fn lemma_with_notifies(
    routes: Map<RouteKey, NotifyModel>,
    login: Seq<char>,
    notify: Seq<NotifyModel>,
)
    ensures
        forall|i: int|
            0 <= i < notify.len() ==> with_notifies(routes, login, notify).contains_key(
                route_key(login, #[trigger] notify[i]),
            ),
        forall|k: RouteKey| #[trigger]
            routes.contains_key(k) ==> with_notifies(routes, login, notify).contains_key(k),
        forall|k: RouteKey| #[trigger]
            with_notifies(routes, login, notify).contains_key(k) ==> (routes.contains_key(k)
                && with_notifies(routes, login, notify)[k] == routes[k]) || exists|i: int|
                0 <= i < notify.len() && k == route_key(login, #[trigger] notify[i])
                    && with_notifies(routes, login, notify)[k] == notify[i],
    decreases notify.len(),
{
    if notify.len() > 0 {
        let init = notify.drop_last();
        lemma_with_notifies(routes, login, init);
        assert forall|i: int| 0 <= i < notify.len() implies with_notifies(
            routes,
            login,
            notify,
        ).contains_key(route_key(login, #[trigger] notify[i])) by {
            if i < init.len() {
                assert(init[i] == notify[i]);
            }
        }
        assert forall|k: RouteKey| #[trigger]
            with_notifies(routes, login, notify).contains_key(k) implies (routes.contains_key(k)
            && with_notifies(routes, login, notify)[k] == routes[k]) || exists|i: int|
            0 <= i < notify.len() && k == route_key(login, #[trigger] notify[i]) && with_notifies(
                routes,
                login,
                notify,
            )[k] == notify[i] by {
            if k == route_key(login, notify.last()) {
                assert(notify[notify.len() - 1] == notify.last());
            } else {
                assert(with_notifies(routes, login, init).contains_key(k));
                if !(routes.contains_key(k) && with_notifies(routes, login, init)[k]
                    == routes[k]) {
                    let i = choose|i: int|
                        0 <= i < init.len() && k == route_key(login, #[trigger] init[i])
                            && with_notifies(routes, login, init)[k] == init[i];
                    assert(notify[i] == init[i]);
                }
            }
        }
    }
}

/// Every notification of the configuration has a route.
pub proof fn law_every_notification_is_routed(streams: Seq<StreamConfigModel>, s: int, n: int)
    requires
        0 <= s < streams.len(),
        0 <= n < streams[s].notify.len(),
    ensures
        by_guild_id(streams).contains_key(
            route_key(streams[s].streamer_login, streams[s].notify[n]),
        ),
    decreases streams.len(),
{
    let last = streams.last();
    lemma_with_notifies(by_guild_id(streams.drop_last()), last.streamer_login, last.notify);
    if s < streams.len() - 1 {
        assert(streams.drop_last()[s] == streams[s]);
        law_every_notification_is_routed(streams.drop_last(), s, n);
    } else {
        assert(last.notify[n] == streams[s].notify[n]);
    }
}

/// Every route comes from a notification of the configuration, and says what
/// that notification says.
pub proof fn law_routes_come_from_config(streams: Seq<StreamConfigModel>, key: RouteKey) -> (at: (
    int,
    int,
))
    requires
        by_guild_id(streams).contains_key(key),
    ensures
        0 <= at.0 < streams.len(),
        0 <= at.1 < streams[at.0].notify.len(),
        key == route_key(streams[at.0].streamer_login, streams[at.0].notify[at.1]),
        by_guild_id(streams)[key] == streams[at.0].notify[at.1],
    decreases streams.len(),
{
    let last = streams.last();
    let before = by_guild_id(streams.drop_last());
    lemma_with_notifies(before, last.streamer_login, last.notify);
    if exists|i: int|
        0 <= i < last.notify.len() && key == route_key(
            last.streamer_login,
            #[trigger] last.notify[i],
        ) && by_guild_id(streams)[key] == last.notify[i] {
        let i = choose|i: int|
            0 <= i < last.notify.len() && key == route_key(
                last.streamer_login,
                #[trigger] last.notify[i],
            ) && by_guild_id(streams)[key] == last.notify[i];
        (streams.len() - 1, i)
    } else {
        assert(before.contains_key(key) && by_guild_id(streams)[key] == before[key]);
        let at = law_routes_come_from_config(streams.drop_last(), key);
        assert(streams.drop_last()[at.0] == streams[at.0]);
        at
    }
}

/// A Discord identifier is a decimal number other than zero, and that number.
pub proof fn law_identifiers_are_numbers(s: Seq<char>)
    ensures
        discord_id(s) matches Some(id) ==> id != 0 && parse_decimal(s, u64::MAX as nat) == Some(
            id as nat,
        ),
        discord_id(s) is None <==> parse_decimal(s, u64::MAX as nat) is None || parse_decimal(
            s,
            u64::MAX as nat,
        ) == Some(0nat),
{
    if let Some(n) = parse_decimal(s, u64::MAX as nat) {
        assert(n <= u64::MAX);
    }
}

/// A configuration is valid if every guild and every channel in it is an identifier.
pub proof fn law_valid_means_every_identifier(streams: Seq<StreamConfigModel>)
    ensures
        valid_config(streams) <==> forall|s: int, n: int|
            0 <= s < streams.len() && 0 <= n < streams[s].notify.len() ==> discord_id(
                (#[trigger] streams[s].notify[n]).guild_id,
            ) is Some && discord_id(streams[s].notify[n].channel_id) is Some,
{
    if valid_config(streams) {
        assert forall|s: int, n: int|
            0 <= s < streams.len() && 0 <= n < streams[s].notify.len() implies discord_id(
            (#[trigger] streams[s].notify[n]).guild_id,
        ) is Some && discord_id(streams[s].notify[n].channel_id) is Some by {
            assert(valid_notify(streams[s].notify[n]));
        }
    }
}

/// A notification goes to its guild and its channel, about its streamer.
pub proof fn law_routes_lead_where_they_say(login: Seq<char>, n: NotifyModel)
    requires
        valid_notify(n),
    ensures
        discord_id(n.guild_id) == Some(route_key(login, n).0),
        route_key(login, n).1 == login,
        discord_id(n.channel_id) == Some(route_key(login, n).2),
{
}

proof fn lemma_last_notify_wins(
    routes: Map<RouteKey, NotifyModel>,
    login: Seq<char>,
    notify: Seq<NotifyModel>,
    n: int,
)
    requires
        0 <= n < notify.len(),
        forall|j: int|
            n < j < notify.len() ==> route_key(login, #[trigger] notify[j]) != route_key(
                login,
                notify[n],
            ),
    ensures
        with_notifies(routes, login, notify).contains_pair(route_key(login, notify[n]), notify[n]),
    decreases notify.len(),
{
    if n < notify.len() - 1 {
        let init = notify.drop_last();
        assert forall|j: int| n < j < init.len() implies route_key(login, #[trigger] init[j])
            != route_key(login, init[n]) by {
            assert(notify[j] == init[j]);
        }
        lemma_last_notify_wins(routes, login, init, n);
        assert(notify[notify.len() - 1] == notify.last());
    }
}

proof fn lemma_routes_untouched(
    routes: Map<RouteKey, NotifyModel>,
    login: Seq<char>,
    notify: Seq<NotifyModel>,
    key: RouteKey,
)
    requires
        forall|j: int| 0 <= j < notify.len() ==> route_key(login, #[trigger] notify[j]) != key,
    ensures
        with_notifies(routes, login, notify).get(key) == routes.get(key),
    decreases notify.len(),
{
    if notify.len() > 0 {
        let init = notify.drop_last();
        assert forall|j: int| 0 <= j < init.len() implies route_key(login, #[trigger] init[j])
            != key by {
            assert(notify[j] == init[j]);
        }
        lemma_routes_untouched(routes, login, init, key);
        assert(notify[notify.len() - 1] == notify.last());
    }
}

/// Where two notifications have the same guild, streamer and channel, the later one
/// counts: a notification that no later one stands in for is what is said there.
pub proof fn law_later_notifications_count(streams: Seq<StreamConfigModel>, s: int, n: int)
    requires
        0 <= s < streams.len(),
        0 <= n < streams[s].notify.len(),
        forall|j: int|
            n < j < streams[s].notify.len() ==> route_key(
                streams[s].streamer_login,
                #[trigger] streams[s].notify[j],
            ) != route_key(streams[s].streamer_login, streams[s].notify[n]),
        forall|t: int, j: int|
            s < t < streams.len() && 0 <= j < streams[t].notify.len() ==> route_key(
                streams[t].streamer_login,
                #[trigger] streams[t].notify[j],
            ) != route_key(streams[s].streamer_login, streams[s].notify[n]),
    ensures
        by_guild_id(streams).contains_pair(
            route_key(streams[s].streamer_login, streams[s].notify[n]),
            streams[s].notify[n],
        ),
    decreases streams.len(),
{
    let init = streams.drop_last();
    let last = streams.last();
    let key = route_key(streams[s].streamer_login, streams[s].notify[n]);
    if s == streams.len() - 1 {
        lemma_last_notify_wins(by_guild_id(init), last.streamer_login, last.notify, n);
    } else {
        assert(init[s] == streams[s]);
        assert forall|t: int, j: int|
            s < t < init.len() && 0 <= j < init[t].notify.len() implies route_key(
            init[t].streamer_login,
            #[trigger] init[t].notify[j],
        ) != key by {
            assert(streams[t].notify[j] == init[t].notify[j]);
        }
        law_later_notifications_count(init, s, n);
        assert forall|j: int| 0 <= j < last.notify.len() implies route_key(
            last.streamer_login,
            #[trigger] last.notify[j],
        ) != key by {
            assert(streams[streams.len() - 1].notify[j] == last.notify[j]);
        }
        lemma_routes_untouched(by_guild_id(init), last.streamer_login, last.notify, key);
    }
}

/// A guild is told about a streamer in the channels that have a route, each once and
/// with what is said there, and in no others.
pub proof fn law_channels_are_those_with_a_route(
    r: Seq<(u64, NotifyConfig)>,
    routes: Map<RouteKey, NotifyModel>,
    guild_id: u64,
    login: Seq<char>,
    channel_id: u64,
    i: int,
    j: int,
)
    requires
        lists_channels(r, routes, guild_id, login),
    ensures
        routes.contains_key((guild_id, login, channel_id)) <==> exists|k: int|
            0 <= k < r.len() && (#[trigger] r[k]).0 == channel_id,
        0 <= i < r.len() ==> routes.contains_pair((guild_id, login, r[i].0), r[i].1@),
        0 <= i < j < r.len() ==> r[i].0 != r[j].0,
{
    if exists|k: int| 0 <= k < r.len() && (#[trigger] r[k]).0 == channel_id {
        let k = choose|k: int| 0 <= k < r.len() && (#[trigger] r[k]).0 == channel_id;
        assert(routes.contains_pair((guild_id, login, r[k].0), r[k].1@));
    }
}

/// What is configured is kept whole, each thing in its place.
pub proof fn law_nothing_configured_is_left_out(n: NotifyConfig, c: Config, s: int, i: int)
    ensures
        n@.guild_id == n.guild_id@,
        n@.channel_id == n.channel_id@,
        n.ping is None <==> n@.ping is None,
        n.ping matches Some(x) ==> n@.ping == Some(x@),
        n.format_online is None <==> n@.format_online is None,
        n.format_online matches Some(x) ==> n@.format_online == Some(x@),
        n.format_offline is None <==> n@.format_offline is None,
        n.format_offline matches Some(x) ==> n@.format_offline == Some(x@),
        c@.len() == c.streams@.len(),
        0 <= s < c.streams@.len() ==> c@[s].streamer_login == c.streams@[s].streamer_login@
            && c@[s].notify.len() == c.streams@[s].notify@.len(),
        0 <= s < c.streams@.len() && 0 <= i < c.streams@[s].notify@.len() ==> c@[s].notify[i]
            == c.streams@[s].notify@[i]@,
{
    if 0 <= s < c.streams@.len() {
        assert(c@[s] == c.streams@[s]@);
    }
}

} // verus!
