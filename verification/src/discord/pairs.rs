//! A stream's information as key-value pairs, and back.

use vstd::prelude::*;

use crate::config::{NotifyConfig, NotifyModel};
use crate::discord::info::{InfoModel, StreamInfo};
use crate::text::{
    decimal, law_decimal_round_trip, opt_text, parse_decimal, parse_usize, same, usize_text,
};
use crate::time::{
    reads_back_rfc3339, rfc3339_moment, rfc3339_parts, rfc3339_text, zoned, ZonedModel, ZonedTime,
};
use crate::twitch::types::{Stream, StreamModel};
use crate::url::pairs_model;

verus! {

/// Keys and values, in order.
pub type Pairs = Seq<(Seq<char>, Seq<char>)>;

/// One pair where there is a value, and none where there is not.
pub open spec fn opt_pair(key: Seq<char>, value: Option<Seq<char>>) -> Pairs {
    match value {
        Some(v) => seq![(key, v)],
        None => seq![],
    }
}

/// The start of a stream as RFC 3339 writes it.
pub open spec fn started_text(t: Option<ZonedModel>) -> Option<Seq<char>> {
    match t {
        Some(t) => Some(rfc3339_text(t.secs, t.nanos, t.offset)),
        None => None,
    }
}

/// The mark of a stream that has ended.
pub open spec fn offline_mark(offline: bool) -> Option<Seq<char>> {
    if offline {
        Some("1"@)
    } else {
        None
    }
}

/// Keys, each with the value that may stand under it.
pub type Parts = Seq<(Seq<char>, Option<Seq<char>>)>;

/// The parts that have a value, as pairs.
pub open spec fn present(parts: Parts) -> Pairs
    decreases parts.len(),
{
    if parts.len() == 0 {
        seq![]
    } else {
        present(parts.drop_last()) + opt_pair(parts.last().0, parts.last().1)
    }
}

/// The information by keys, but for the thumbnail and the icon.
pub open spec fn info_parts(m: InfoModel) -> Parts {
    seq![
        ("_ccgn"@, Some(m.game_name)),
        ("_ccvc"@, Some(decimal(m.viewer_count))),
        ("_ccun"@, Some(m.user_name)),
        ("_ccul"@, Some(m.user_login)),
        ("_ccg"@, Some(m.game_id)),
        ("_ccs"@, Some(m.stream_id)),
        ("_ccst"@, Some(m.stream_title)),
        ("_ccf"@, m.format_online),
        ("_ccfo"@, m.format_offline),
        ("_ccsa"@, started_text(m.started_at)),
        ("_ccv"@, m.video_id),
        ("_ccat"@, m.ping),
        ("_cco"@, offline_mark(m.offline)),
    ]
}

/// The information as pairs, but for the thumbnail and the icon.
pub open spec fn info_pairs(m: InfoModel) -> Pairs {
    present(info_parts(m))
}

/// The information as pairs, the thumbnail and the icon.
pub open spec fn info_context(m: InfoModel) -> (Pairs, Seq<char>, Option<Seq<char>>) {
    (info_pairs(m), m.stream_thumbnail, m.user_icon)
}

/// What pairs with fixed keys hold.
pub open spec fn fixed_pairs_model(pairs: Seq<(&'static str, String)>) -> Pairs {
    pairs.map_values(|p: (&'static str, String)| (p.0@, p.1@))
}

spec fn fixed_parts_model(parts: Seq<(&'static str, Option<String>)>) -> Parts {
    parts.map_values(|p: (&'static str, Option<String>)| (p.0@, opt_text(p.1)))
}

fn present_pairs(parts: Vec<(&'static str, Option<String>)>) -> (r: Vec<(&'static str, String)>)
    ensures
        fixed_pairs_model(r@) == present(fixed_parts_model(parts@)),
{
    let ghost all = fixed_parts_model(parts@);
    let mut pairs: Vec<(&'static str, String)> = Vec::new();
    let mut i: usize = 0;
    while i < parts.len()
        invariant
            i <= parts.len(),
            all == fixed_parts_model(parts@),
            fixed_pairs_model(pairs@) == present(all.take(i as int)),
        decreases parts.len() - i,
    {
        let ghost before = pairs@;
        proof {
            assert(all.take(i + 1).drop_last() =~= all.take(i as int));
            assert(all.take(i + 1).last() == all[i as int]);
        }
        if let Some(v) = &parts[i].1 {
            pairs.push((parts[i].0, v.clone()));
            assert(fixed_pairs_model(pairs@) =~= fixed_pairs_model(before) + seq![
                (parts[i as int].0@, v@),
            ]);
        } else {
            assert(fixed_pairs_model(pairs@) =~= fixed_pairs_model(before) + seq![]);
        }
        i += 1;
    }
    assert(all.take(i as int) =~= all);
    pairs
}

/// The value of the last pair with one of two keys.
pub open spec fn last_value(pairs: Pairs, long: Seq<char>, short: Seq<char>) -> Option<Seq<char>>
    decreases pairs.len(),
{
    if pairs.len() == 0 {
        None
    } else if pairs.last().0 == long || pairs.last().0 == short {
        Some(pairs.last().1)
    } else {
        last_value(pairs.drop_last(), long, short)
    }
}

/// The count that a text writes.
pub open spec fn count_of(value: Option<Seq<char>>) -> Option<nat> {
    match value {
        Some(v) => parse_decimal(v, usize::MAX as nat),
        None => None,
    }
}

/// The moment that a text names.
pub open spec fn moment_of(value: Option<Seq<char>>) -> Option<ZonedModel> {
    match value {
        Some(v) => rfc3339_moment(v),
        None => None,
    }
}

/// The information that pairs hold, each key in its long or its short form,
/// the later pairs over the earlier. A stream needs a game, a viewer count, a
/// user, a login, a game identifier, a stream identifier and a title.
pub open spec fn info_from_pairs(
    pairs: Pairs,
    stream_thumbnail: Seq<char>,
    user_icon: Option<Seq<char>>,
) -> Option<InfoModel> {
    let game_name = last_value(pairs, "game_name"@, "_ccgn"@);
    let viewer_count = count_of(last_value(pairs, "viewer_count"@, "_ccvc"@));
    let user_name = last_value(pairs, "user_name"@, "_ccun"@);
    let user_login = last_value(pairs, "user_login"@, "_ccul"@);
    let game_id = last_value(pairs, "game_id"@, "_ccg"@);
    let stream_id = last_value(pairs, "stream_id"@, "_ccs"@);
    let stream_title = last_value(pairs, "stream_title"@, "_ccst"@);
    if game_name is Some && viewer_count is Some && user_name is Some && user_login is Some
        && game_id is Some && stream_id is Some && stream_title is Some {
        Some(
            InfoModel {
                game_name: game_name->0,
                viewer_count: viewer_count->0,
                started_at: moment_of(last_value(pairs, "started_at"@, "_ccsa"@)),
                user_name: user_name->0,
                user_login: user_login->0,
                user_icon,
                game_id: game_id->0,
                stream_id: stream_id->0,
                stream_title: stream_title->0,
                stream_thumbnail,
                video_id: last_value(pairs, "video_id"@, "_ccv"@),
                format_online: last_value(pairs, "_ccf"@, "_ccf"@),
                format_offline: last_value(pairs, "_ccfo"@, "_ccfo"@),
                ping: last_value(pairs, "ping"@, "_ccat"@),
                offline: last_value(pairs, "offline"@, "_cco"@) is Some,
            },
        )
    } else {
        None
    }
}

/// What optional information holds.
pub open spec fn opt_info(r: Option<StreamInfo>) -> Option<InfoModel> {
    match r {
        Some(info) => Some(info@),
        None => None,
    }
}

/// Whether information can be written and read back: the count is one of this
/// machine, and the start was on a clock that is whole minutes from UTC.
pub open spec fn readable(m: InfoModel) -> bool {
    &&& m.viewer_count <= usize::MAX
    &&& m.started_at matches Some(t) ==> t.valid() && t.on_the_minute()
}

/// Whether `a` holds the same pairs as `b`, in any order, under distinct keys.
pub open spec fn reorders(a: Pairs, b: Pairs) -> bool {
    &&& forall|i: int| 0 <= i < a.len() ==> b.contains(#[trigger] a[i])
    &&& forall|i: int| 0 <= i < b.len() ==> a.contains(#[trigger] b[i])
    &&& distinct_keys(a)
}

pub open spec fn distinct_keys(a: Pairs) -> bool {
    forall|i: int, j: int| 0 <= i < j < a.len() ==> (#[trigger] a[i]).0 != (#[trigger] a[j]).0
}

/// The information with another thumbnail and icon.
pub open spec fn in_context(
    m: InfoModel,
    stream_thumbnail: Seq<char>,
    user_icon: Option<Seq<char>>,
) -> InfoModel {
    InfoModel { stream_thumbnail, user_icon, ..m }
}

impl StreamInfo {
    /// The information as pairs, the thumbnail and the icon.
    pub fn into_pairs_with_context(self) -> (r: (
        Vec<(&'static str, String)>,
        String,
        Option<String>,
    ))
        ensures
            (fixed_pairs_model(r.0@), r.1@, opt_text(r.2)) == info_context(self@),
            fixed_pairs_model(r.0@) == info_pairs(self@),
            r.1@ == self@.stream_thumbnail,
            opt_text(r.2) == self@.user_icon,
    {
        let count = usize_text(self.viewer_count);
        let started = match &self.started_at {
            Some(t) => Some(t.to_rfc3339()),
            None => None,
        };
        let mark = if self.offline {
            Some("1".to_owned())
        } else {
            None
        };
        let parts: Vec<(&'static str, Option<String>)> =
            vec![
            ("_ccgn", Some(self.game_name)),
            ("_ccvc", Some(count)),
            ("_ccun", Some(self.user_name)),
            ("_ccul", Some(self.user_login)),
            ("_ccg", Some(self.game_id)),
            ("_ccs", Some(self.stream_id)),
            ("_ccst", Some(self.stream_title)),
            ("_ccf", self.format_online),
            ("_ccfo", self.format_offline),
            ("_ccsa", started),
            ("_ccv", self.video_id),
            ("_ccat", self.ping),
            ("_cco", mark),
        ];
        assert(fixed_parts_model(parts@) =~= info_parts(self@));
        let pairs = present_pairs(parts);
        (pairs, self.stream_thumbnail, self.user_icon)
    }

    /// Reads information from pairs, in any order, and from the thumbnail and
    /// the icon that stand beside them.
    ///
    /// What [`StreamInfo::into_pairs_with_context`] made of some information
    /// reads back as that information.
    pub fn from_pairs_with_context(
        pairs: Vec<(String, String)>,
        stream_thumbnail: String,
        user_icon: Option<String>,
    ) -> (r: Option<StreamInfo>)
        ensures
            opt_info(r) == info_from_pairs(
                pairs_model(pairs@),
                stream_thumbnail@,
                opt_text(user_icon),
            ),
            forall|m: InfoModel|
                readable(m) && #[trigger] reorders(pairs_model(pairs@), info_pairs(m))
                    ==> opt_info(r) == Some(
                    in_context(m, stream_thumbnail@, opt_text(user_icon)),
                ),
    {
        let ghost all = pairs_model(pairs@);
        let mut game_name: Option<String> = None;
        let mut viewer_count: Option<usize> = None;
        let mut user_name: Option<String> = None;
        let mut user_login: Option<String> = None;
        let mut game_id: Option<String> = None;
        let mut stream_id: Option<String> = None;
        let mut stream_title: Option<String> = None;
        let mut format_online: Option<String> = None;
        let mut format_offline: Option<String> = None;
        let mut started_at: Option<ZonedTime> = None;
        let mut video_id: Option<String> = None;
        let mut ping: Option<String> = None;
        let mut offline: bool = false;
        let mut i: usize = 0;
        while i < pairs.len()
            invariant
                i <= pairs.len(),
                all == pairs_model(pairs@),
                opt_text(game_name) == last_value(all.take(i as int), "game_name"@, "_ccgn"@),
                match count_of(last_value(all.take(i as int), "viewer_count"@, "_ccvc"@)) {
                    Some(n) => viewer_count == Some(n as usize) && n <= usize::MAX,
                    None => viewer_count is None,
                },
                opt_text(user_name) == last_value(all.take(i as int), "user_name"@, "_ccun"@),
                opt_text(user_login) == last_value(all.take(i as int), "user_login"@, "_ccul"@),
                opt_text(game_id) == last_value(all.take(i as int), "game_id"@, "_ccg"@),
                opt_text(stream_id) == last_value(all.take(i as int), "stream_id"@, "_ccs"@),
                opt_text(stream_title) == last_value(
                    all.take(i as int),
                    "stream_title"@,
                    "_ccst"@,
                ),
                opt_text(format_online) == last_value(all.take(i as int), "_ccf"@, "_ccf"@),
                opt_text(format_offline) == last_value(all.take(i as int), "_ccfo"@, "_ccfo"@),
                zoned(started_at) == moment_of(
                    last_value(all.take(i as int), "started_at"@, "_ccsa"@),
                ),
                opt_text(video_id) == last_value(all.take(i as int), "video_id"@, "_ccv"@),
                opt_text(ping) == last_value(all.take(i as int), "ping"@, "_ccat"@),
                offline == last_value(all.take(i as int), "offline"@, "_cco"@) is Some,
                forall|j: int|
                    0 <= j < i && (#[trigger] all[j]).0 == "_ccsa"@ ==> reads_back_rfc3339(
                        all[j].1,
                    ),
            decreases pairs.len() - i,
        {
            let key = pairs[i].0.as_str();
            let value = &pairs[i].1;
            proof {
                lemma_keys();
                assert(all[i as int] == (key@, value@));
                assert(all.take(i + 1).drop_last() =~= all.take(i as int));
                assert(all.take(i + 1).last() == (key@, value@));
            }
            if same(key, "offline") || same(key, "_cco") {
                offline = true;
            } else if same(key, "game_name") || same(key, "_ccgn") {
                game_name = Some(value.clone());
            } else if same(key, "viewer_count") || same(key, "_ccvc") {
                viewer_count = parse_usize(value.as_str());
            } else if same(key, "user_name") || same(key, "_ccun") {
                user_name = Some(value.clone());
            } else if same(key, "user_login") || same(key, "_ccul") {
                user_login = Some(value.clone());
            } else if same(key, "game_id") || same(key, "_ccg") {
                game_id = Some(value.clone());
            } else if same(key, "stream_id") || same(key, "_ccs") {
                stream_id = Some(value.clone());
            } else if same(key, "stream_title") || same(key, "_ccst") {
                stream_title = Some(value.clone());
            } else if same(key, "started_at") || same(key, "_ccsa") {
                started_at = ZonedTime::parse_from_rfc3339(value.as_str());
            } else if same(key, "video_id") || same(key, "_ccv") {
                video_id = Some(value.clone());
            } else if same(key, "ping") || same(key, "_ccat") {
                ping = Some(value.clone());
            } else if same(key, "_ccf") {
                format_online = Some(value.clone());
            } else if same(key, "_ccfo") {
                format_offline = Some(value.clone());
            }
            i += 1;
        }
        proof {
            assert(all.take(i as int) =~= all);
            assert forall|m: InfoModel|
                readable(m) && #[trigger] reorders(all, info_pairs(m)) implies info_from_pairs(
                all,
                stream_thumbnail@,
                opt_text(user_icon),
            ) == Some(in_context(m, stream_thumbnail@, opt_text(user_icon))) by {
                lemma_pairs_read_back(all, m, stream_thumbnail@, opt_text(user_icon));
            }
        }
        match (game_name, viewer_count, user_name, user_login, game_id, stream_id, stream_title) {
            (
                Some(game_name),
                Some(viewer_count),
                Some(user_name),
                Some(user_login),
                Some(game_id),
                Some(stream_id),
                Some(stream_title),
            ) => Some(
                StreamInfo {
                    game_name,
                    viewer_count,
                    started_at,
                    user_name,
                    user_login,
                    user_icon,
                    game_id,
                    stream_id,
                    stream_title,
                    stream_thumbnail,
                    video_id,
                    format_online,
                    format_offline,
                    ping,
                    offline,
                },
            ),
            _ => None,
        }
    }

    /// What a notification says about a live stream.
    pub fn from_stream(
        stream: &Stream,
        user_icon: Option<&str>,
        video_id: Option<&str>,
        offline: bool,
        cfg: &NotifyConfig,
    ) -> (r: StreamInfo)
        ensures
            r@ == stream_info(
                stream@,
                opt_str(user_icon),
                opt_str(video_id),
                offline,
                cfg@,
            ),
            readable(r@),
    {
        StreamInfo {
            game_name: stream.game_name.clone(),
            viewer_count: stream.viewer_count,
            started_at: ZonedTime::parse_from_rfc3339(stream.started_at.as_str()),
            user_name: stream.user_name.clone(),
            user_login: stream.user_login.clone(),
            user_icon: own_opt(user_icon),
            game_id: stream.game_id.clone(),
            stream_id: stream.id.clone(),
            stream_title: stream.title.clone(),
            stream_thumbnail: stream.thumbnail_url.clone(),
            video_id: own_opt(video_id),
            format_online: cfg.format_online.clone(),
            format_offline: cfg.format_offline.clone(),
            ping: cfg.ping.clone(),
            offline,
        }
    }
}

/// What an optional borrowed string holds.
pub open spec fn opt_str(o: Option<&str>) -> Option<Seq<char>> {
    match o {
        Some(s) => Some(s@),
        None => None,
    }
}

fn own_opt(o: Option<&str>) -> (r: Option<String>)
    ensures
        opt_text(r) == opt_str(o),
{
    match o {
        Some(s) => Some(s.to_owned()),
        None => None,
    }
}

/// What a notification says about a live stream.
pub open spec fn stream_info(
    stream: StreamModel,
    user_icon: Option<Seq<char>>,
    video_id: Option<Seq<char>>,
    offline: bool,
    cfg: NotifyModel,
) -> InfoModel {
    InfoModel {
        game_name: stream.game_name,
        viewer_count: stream.viewer_count,
        started_at: rfc3339_moment(stream.started_at),
        user_name: stream.user_name,
        user_login: stream.user_login,
        user_icon,
        game_id: stream.game_id,
        stream_id: stream.id,
        stream_title: stream.title,
        stream_thumbnail: stream.thumbnail_url,
        video_id,
        format_online: cfg.format_online,
        format_offline: cfg.format_offline,
        ping: cfg.ping,
        offline,
    }
}

// ---------------------------------------------------------------------------
// Reading back
// ---------------------------------------------------------------------------

/// What tells the keys apart: the length and the last characters of the short
/// ones, the first character of the long ones.
proof fn lemma_keys()
    ensures
        "_ccgn"@.len() == 5 && "_ccgn"@[0] == '_' && "_ccgn"@[3] == 'g' && "_ccgn"@[4] == 'n',
        "_ccvc"@.len() == 5 && "_ccvc"@[0] == '_' && "_ccvc"@[3] == 'v' && "_ccvc"@[4] == 'c',
        "_ccun"@.len() == 5 && "_ccun"@[0] == '_' && "_ccun"@[3] == 'u' && "_ccun"@[4] == 'n',
        "_ccul"@.len() == 5 && "_ccul"@[0] == '_' && "_ccul"@[3] == 'u' && "_ccul"@[4] == 'l',
        "_ccg"@.len() == 4 && "_ccg"@[0] == '_' && "_ccg"@[3] == 'g',
        "_ccs"@.len() == 4 && "_ccs"@[0] == '_' && "_ccs"@[3] == 's',
        "_ccst"@.len() == 5 && "_ccst"@[0] == '_' && "_ccst"@[3] == 's' && "_ccst"@[4] == 't',
        "_ccf"@.len() == 4 && "_ccf"@[0] == '_' && "_ccf"@[3] == 'f',
        "_ccfo"@.len() == 5 && "_ccfo"@[0] == '_' && "_ccfo"@[3] == 'f' && "_ccfo"@[4] == 'o',
        "_ccsa"@.len() == 5 && "_ccsa"@[0] == '_' && "_ccsa"@[3] == 's' && "_ccsa"@[4] == 'a',
        "_ccv"@.len() == 4 && "_ccv"@[0] == '_' && "_ccv"@[3] == 'v',
        "_ccat"@.len() == 5 && "_ccat"@[0] == '_' && "_ccat"@[3] == 'a' && "_ccat"@[4] == 't',
        "_cco"@.len() == 4 && "_cco"@[0] == '_' && "_cco"@[3] == 'o',
        "offline"@.len() == 7 && "offline"@[0] == 'o',
        "game_name"@.len() == 9 && "game_name"@[0] == 'g',
        "viewer_count"@.len() == 12 && "viewer_count"@[0] == 'v',
        "user_name"@.len() == 9 && "user_name"@[0] == 'u',
        "user_login"@.len() == 10 && "user_login"@[0] == 'u',
        "game_id"@.len() == 7 && "game_id"@[0] == 'g',
        "stream_id"@.len() == 9 && "stream_id"@[0] == 's',
        "stream_title"@.len() == 12 && "stream_title"@[0] == 's',
        "started_at"@.len() == 10 && "started_at"@[0] == 's',
        "video_id"@.len() == 8 && "video_id"@[0] == 'v',
        "ping"@.len() == 4 && "ping"@[0] == 'p',
{
    reveal_strlit("_ccgn");
    reveal_strlit("_ccvc");
    reveal_strlit("_ccun");
    reveal_strlit("_ccul");
    reveal_strlit("_ccg");
    reveal_strlit("_ccs");
    reveal_strlit("_ccst");
    reveal_strlit("_ccf");
    reveal_strlit("_ccfo");
    reveal_strlit("_ccsa");
    reveal_strlit("_ccv");
    reveal_strlit("_ccat");
    reveal_strlit("_cco");
    reveal_strlit("offline");
    reveal_strlit("game_name");
    reveal_strlit("viewer_count");
    reveal_strlit("user_name");
    reveal_strlit("user_login");
    reveal_strlit("game_id");
    reveal_strlit("stream_id");
    reveal_strlit("stream_title");
    reveal_strlit("started_at");
    reveal_strlit("video_id");
    reveal_strlit("ping");
}

/// A letter or an underscore in front of each short key, and nothing but
/// letters behind: what a key of [`info_pairs`] looks like.
pub open spec fn plain_key(key: Seq<char>) -> bool {
    &&& key.len() > 0 && key[0] == '_'
    &&& forall|i: int| 0 <= i < key.len() ==> ('a' <= #[trigger] key[i] <= 'z' || key[i] == '_')
}

/// Whether `a` holds exactly this value, or none, under a key.
pub open spec fn holds(a: Pairs, key: Seq<char>, value: Option<Seq<char>>) -> bool {
    forall|p: (Seq<char>, Seq<char>)|
        p.0 == key ==> (#[trigger] a.contains(p) <==> value == Some(p.1))
}

spec fn distinct_parts(parts: Parts) -> bool {
    forall|i: int, j: int|
        0 <= i < j < parts.len() ==> (#[trigger] parts[i]).0 != (#[trigger] parts[j]).0
}

/// The parts with a value stand among the pairs, and nothing else does.
proof fn lemma_present(parts: Parts)
    requires
        distinct_parts(parts),
    ensures
        distinct_keys(present(parts)),
        forall|p: (Seq<char>, Seq<char>)| #[trigger]
            present(parts).contains(p) <==> parts.contains((p.0, Some(p.1))),
    decreases parts.len(),
{
    if parts.len() > 0 {
        let rest = parts.drop_last();
        let last = parts.last();
        lemma_present(rest);
        let a = present(rest);
        let b = present(parts);
        assert forall|p: (Seq<char>, Seq<char>)| #[trigger] b.contains(p) implies parts.contains(
            (p.0, Some(p.1)),
        ) by {
            let i = choose|i: int| 0 <= i < b.len() && b[i] == p;
            if i < a.len() {
                assert(a.contains(p));
                let j = choose|j: int| 0 <= j < rest.len() && rest[j] == (p.0, Some(p.1));
                assert(parts[j] == (p.0, Some(p.1)));
            } else {
                assert(parts[parts.len() - 1] == (p.0, Some(p.1)));
            }
        }
        assert forall|p: (Seq<char>, Seq<char>)| parts.contains((p.0, Some(p.1))) implies
            #[trigger] b.contains(p) by {
            let j = choose|j: int| 0 <= j < parts.len() && parts[j] == (p.0, Some(p.1));
            if j < rest.len() {
                assert(rest[j] == (p.0, Some(p.1)));
                assert(a.contains(p));
                let i = choose|i: int| 0 <= i < a.len() && a[i] == p;
                assert(b[i] == p);
            } else {
                assert(b[a.len() as int] == p);
            }
        }
        assert forall|i: int, j: int| 0 <= i < j < b.len() implies (#[trigger] b[i]).0 != (
        #[trigger] b[j]).0 by {
            if j < a.len() {
                assert(a[i].0 != a[j].0);
            } else {
                assert(a.contains(a[i]));
                let k = choose|k: int| 0 <= k < rest.len() && rest[k] == (a[i].0, Some(a[i].1));
                assert(parts[k].0 != parts[parts.len() - 1].0);
            }
        }
    }
}

proof fn lemma_holds(parts: Parts, i: int)
    requires
        distinct_parts(parts),
        0 <= i < parts.len(),
    ensures
        holds(present(parts), parts[i].0, parts[i].1),
{
    lemma_present(parts);
    assert forall|p: (Seq<char>, Seq<char>)| p.0 == parts[i].0 implies (#[trigger] present(
        parts,
    ).contains(p) <==> parts[i].1 == Some(p.1)) by {
        if present(parts).contains(p) {
            let j = choose|j: int| 0 <= j < parts.len() && parts[j] == (p.0, Some(p.1));
            assert(j == i);
        }
        if parts[i].1 == Some(p.1) {
            assert(parts.contains((p.0, Some(p.1))));
        }
    }
}

proof fn lemma_info_parts(m: InfoModel)
    ensures
        distinct_parts(info_parts(m)),
        forall|i: int| 0 <= i < info_parts(m).len() ==> plain_key((#[trigger] info_parts(m)[i]).0),
{
    lemma_keys();
    reveal_strlit("_ccgn");
    reveal_strlit("_ccvc");
    reveal_strlit("_ccun");
    reveal_strlit("_ccul");
    reveal_strlit("_ccg");
    reveal_strlit("_ccs");
    reveal_strlit("_ccst");
    reveal_strlit("_ccf");
    reveal_strlit("_ccfo");
    reveal_strlit("_ccsa");
    reveal_strlit("_ccv");
    reveal_strlit("_ccat");
    reveal_strlit("_cco");
}

/// The keys of the pairs are distinct and plain, and under each of them stands
/// the part of the information that it is for.
pub proof fn lemma_info_pairs(m: InfoModel)
    ensures
        distinct_keys(info_pairs(m)),
        forall|i: int| 0 <= i < info_pairs(m).len() ==> plain_key((#[trigger] info_pairs(m)[i]).0),
        forall|i: int|
            0 <= i < info_parts(m).len() ==> holds(
                info_pairs(m),
                (#[trigger] info_parts(m)[i]).0,
                info_parts(m)[i].1,
            ),
        info_pairs(m).len() > 0,
{
    let parts = info_parts(m);
    lemma_info_parts(m);
    lemma_present(parts);
    assert forall|i: int| 0 <= i < info_pairs(m).len() implies plain_key(
        (#[trigger] info_pairs(m)[i]).0,
    ) by {
        let p = info_pairs(m)[i];
        assert(info_pairs(m).contains(p));
        let j = choose|j: int| 0 <= j < parts.len() && parts[j] == (p.0, Some(p.1));
        assert(plain_key(parts[j].0));
    }
    assert forall|i: int| 0 <= i < parts.len() implies holds(
        info_pairs(m),
        (#[trigger] parts[i]).0,
        parts[i].1,
    ) by {
        lemma_holds(parts, i);
    }
    assert(parts[0] == ("_ccgn"@, Some(m.game_name)));
    assert(info_pairs(m).contains(("_ccgn"@, m.game_name)));
}

/// A value that stands once in the pairs is the last one.
proof fn lemma_last_value(
    a: Pairs,
    long: Seq<char>,
    short: Seq<char>,
    value: Option<Seq<char>>,
)
    requires
        distinct_keys(a),
        forall|i: int| 0 <= i < a.len() && (#[trigger] a[i]).0 == long ==> long == short,
        holds(a, short, value),
    ensures
        last_value(a, long, short) == value,
    decreases a.len(),
{
    if a.len() > 0 {
        let p = a.last();
        let rest = a.drop_last();
        assert(a.contains(p));
        if p.0 == long || p.0 == short {
            assert(p.0 == short);
        } else {
            assert forall|q: (Seq<char>, Seq<char>)| q.0 == short implies (#[trigger]
            rest.contains(q) <==> value == Some(q.1)) by {
                if rest.contains(q) {
                    let i = choose|i: int| 0 <= i < rest.len() && rest[i] == q;
                    assert(a[i] == q);
                    assert(a.contains(q));
                }
                if value == Some(q.1) {
                    assert(a.contains(q));
                    let i = choose|i: int| 0 <= i < a.len() && a[i] == q;
                    assert(rest[i] == q);
                }
            }
            assert forall|i: int| 0 <= i < rest.len() && (#[trigger] rest[i]).0 == long implies long
                == short by {
                assert(a[i] == rest[i]);
            }
            assert forall|i: int, j: int| 0 <= i < j < rest.len() implies (#[trigger] rest[i]).0 != (
            #[trigger] rest[j]).0 by {
                assert(a[i].0 != a[j].0);
            }
            lemma_last_value(rest, long, short, value);
        }
    } else if let Some(v) = value {
        assert(a.contains((short, v)));
    }
}

/// What the same pairs in another order hold.
proof fn lemma_reordered(a: Pairs, b: Pairs, key: Seq<char>, value: Option<Seq<char>>)
    requires
        reorders(a, b),
        holds(b, key, value),
    ensures
        holds(a, key, value),
{
    assert forall|p: (Seq<char>, Seq<char>)| p.0 == key implies (#[trigger] a.contains(p)
        <==> value == Some(p.1)) by {
        if a.contains(p) {
            let i = choose|i: int| 0 <= i < a.len() && a[i] == p;
            assert(b.contains(a[i]));
        }
        if value == Some(p.1) {
            assert(b.contains(p));
            let i = choose|i: int| 0 <= i < b.len() && b[i] == p;
            assert(a.contains(b[i]));
        }
    }
}

proof fn lemma_reads(a: Pairs, m: InfoModel, long: Seq<char>, part: int)
    requires
        reorders(a, info_pairs(m)),
        0 <= part < info_parts(m).len(),
        long == info_parts(m)[part].0 || (long.len() > 0 && long[0] != '_'),
    ensures
        last_value(a, long, info_parts(m)[part].0) == info_parts(m)[part].1,
{
    let (short, value) = info_parts(m)[part];
    lemma_info_pairs(m);
    lemma_reordered(a, info_pairs(m), short, value);
    assert forall|i: int| 0 <= i < a.len() && (#[trigger] a[i]).0 == long implies long == short by {
        assert(info_pairs(m).contains(a[i]));
        let j = choose|j: int| 0 <= j < info_pairs(m).len() && info_pairs(m)[j] == a[i];
        assert(plain_key(info_pairs(m)[j].0));
    }
    lemma_last_value(a, long, short, value);
}

/// Pairs that were made of some information, in any order, read back as it.
proof fn lemma_pairs_read_back(
    a: Pairs,
    m: InfoModel,
    stream_thumbnail: Seq<char>,
    user_icon: Option<Seq<char>>,
)
    requires
        readable(m),
        reorders(a, info_pairs(m)),
        forall|j: int|
            0 <= j < a.len() && (#[trigger] a[j]).0 == "_ccsa"@ ==> reads_back_rfc3339(a[j].1),
    ensures
        info_from_pairs(a, stream_thumbnail, user_icon) == Some(
            in_context(m, stream_thumbnail, user_icon),
        ),
{
    lemma_info_pairs(m);
    lemma_keys();
    lemma_reads(a, m, "game_name"@, 0);
    lemma_reads(a, m, "viewer_count"@, 1);
    lemma_reads(a, m, "user_name"@, 2);
    lemma_reads(a, m, "user_login"@, 3);
    lemma_reads(a, m, "game_id"@, 4);
    lemma_reads(a, m, "stream_id"@, 5);
    lemma_reads(a, m, "stream_title"@, 6);
    lemma_reads(a, m, "_ccf"@, 7);
    lemma_reads(a, m, "_ccfo"@, 8);
    lemma_reads(a, m, "started_at"@, 9);
    lemma_reads(a, m, "video_id"@, 10);
    lemma_reads(a, m, "ping"@, 11);
    lemma_reads(a, m, "offline"@, 12);
    law_decimal_round_trip(m.viewer_count, usize::MAX as nat);
    if let Some(t) = m.started_at {
        let text = rfc3339_text(t.secs, t.nanos, t.offset);
        let p = ("_ccsa"@, text);
        assert(info_parts(m)[9] == ("_ccsa"@, started_text(m.started_at)));
        lemma_reordered(a, info_pairs(m), "_ccsa"@, started_text(m.started_at));
        assert(a.contains(p));
        let j = choose|j: int| 0 <= j < a.len() && a[j] == p;
        assert(reads_back_rfc3339(a[j].1));
        assert(rfc3339_moment(text) == Some(t));
    }
}

// ---------------------------------------------------------------------------
// Laws
// ---------------------------------------------------------------------------


/// What a notification says is what Twitch says of the stream, with the icon, the
/// recording and the formats that are known beside it.
pub proof fn law_information_is_of_the_stream(
    stream: StreamModel,
    user_icon: Option<Seq<char>>,
    video_id: Option<Seq<char>>,
    offline: bool,
    cfg: NotifyModel,
)
    ensures
        ({
            let m = stream_info(stream, user_icon, video_id, offline, cfg);
            &&& m.game_name == stream.game_name
            &&& m.viewer_count == stream.viewer_count
            &&& m.user_name == stream.user_name
            &&& m.user_login == stream.user_login
            &&& m.game_id == stream.game_id
            &&& m.stream_id == stream.id
            &&& m.stream_title == stream.title
            &&& m.stream_thumbnail == stream.thumbnail_url
            &&& m.user_icon == user_icon
            &&& m.video_id == video_id
            &&& m.offline == offline
            &&& m.format_online == cfg.format_online
            &&& m.format_offline == cfg.format_offline
            &&& m.ping == cfg.ping
            &&& m.started_at is Some <==> rfc3339_parts(stream.started_at) is Some
            &&& m.started_at matches Some(t) ==> rfc3339_parts(stream.started_at) == Some(
                (t.secs, t.nanos, t.offset),
            )
        }),
{
}

/// What is known of a notification is what it says, each thing in its place.
pub proof fn law_nothing_said_is_left_out(m: StreamInfo)
    ensures
        m@.game_name == m.game_name@,
        m@.user_name == m.user_name@,
        m@.user_login == m.user_login@,
        m@.game_id == m.game_id@,
        m@.stream_id == m.stream_id@,
        m@.stream_title == m.stream_title@,
        m@.stream_thumbnail == m.stream_thumbnail@,
        m@.viewer_count == m.viewer_count,
        m@.offline == m.offline,
        m.started_at is None <==> m@.started_at is None,
        m.started_at matches Some(x) ==> m@.started_at == Some(x@),
        m.user_icon is None <==> m@.user_icon is None,
        m.user_icon matches Some(x) ==> m@.user_icon == Some(x@),
        m.video_id is None <==> m@.video_id is None,
        m.video_id matches Some(x) ==> m@.video_id == Some(x@),
        m.format_online is None <==> m@.format_online is None,
        m.format_online matches Some(x) ==> m@.format_online == Some(x@),
        m.format_offline is None <==> m@.format_offline is None,
        m.format_offline matches Some(x) ==> m@.format_offline == Some(x@),
        m.ping is None <==> m@.ping is None,
        m.ping matches Some(x) ==> m@.ping == Some(x@),
{
}

/// The pairs hold each part of the information under its key, and those that are
/// absent not at all.
pub proof fn law_pairs_hold_the_information(m: InfoModel, v: Seq<char>)
    ensures
        info_pairs(m).contains(("_ccgn"@, v)) <==> v == m.game_name,
        info_pairs(m).contains(("_ccvc"@, v)) <==> v == decimal(m.viewer_count),
        info_pairs(m).contains(("_ccun"@, v)) <==> v == m.user_name,
        info_pairs(m).contains(("_ccul"@, v)) <==> v == m.user_login,
        info_pairs(m).contains(("_ccg"@, v)) <==> v == m.game_id,
        info_pairs(m).contains(("_ccs"@, v)) <==> v == m.stream_id,
        info_pairs(m).contains(("_ccst"@, v)) <==> v == m.stream_title,
        info_pairs(m).contains(("_ccf"@, v)) <==> m.format_online == Some(v),
        info_pairs(m).contains(("_ccfo"@, v)) <==> m.format_offline == Some(v),
        info_pairs(m).contains(("_ccsa"@, v)) <==> (m.started_at matches Some(t) && v
            == rfc3339_text(t.secs, t.nanos, t.offset)),
        info_pairs(m).contains(("_ccv"@, v)) <==> m.video_id == Some(v),
        info_pairs(m).contains(("_ccat"@, v)) <==> m.ping == Some(v),
        info_pairs(m).contains(("_cco"@, v)) <==> m.offline && v == "1"@,
{
    lemma_info_parts(m);
    let parts = info_parts(m);
    lemma_holds(parts, 0);
    lemma_holds(parts, 1);
    lemma_holds(parts, 2);
    lemma_holds(parts, 3);
    lemma_holds(parts, 4);
    lemma_holds(parts, 5);
    lemma_holds(parts, 6);
    lemma_holds(parts, 7);
    lemma_holds(parts, 8);
    lemma_holds(parts, 9);
    lemma_holds(parts, 10);
    lemma_holds(parts, 11);
    lemma_holds(parts, 12);
}

/// The last pair with a key, in its long or its short form, is the one that counts.
pub proof fn law_the_last_pair_counts(
    pairs: Pairs,
    long: Seq<char>,
    short: Seq<char>,
    key: Seq<char>,
    value: Seq<char>,
)
    ensures
        last_value(seq![], long, short) is None,
        key == long || key == short ==> last_value(pairs.push((key, value)), long, short) == Some(
            value,
        ),
        key != long && key != short ==> last_value(pairs.push((key, value)), long, short)
            == last_value(pairs, long, short),
{
    assert(pairs.push((key, value)).drop_last() =~= pairs);
}

/// What is read from pairs: each field from its own key, long or short, and the
/// preview and the icon from beside them. Where a game, a viewer count, a user, a login,
/// a game identifier, a stream identifier or a title is missing, nothing is read.
pub proof fn law_fields_are_read_from_their_keys(
    pairs: Pairs,
    preview: Seq<char>,
    icon: Option<Seq<char>>,
)
    ensures
        info_from_pairs(pairs, preview, icon) is Some <==> last_value(
            pairs,
            "game_name"@,
            "_ccgn"@,
        ) is Some && (last_value(pairs, "viewer_count"@, "_ccvc"@) matches Some(n) && parse_decimal(
            n,
            usize::MAX as nat,
        ) is Some) && last_value(pairs, "user_name"@, "_ccun"@) is Some && last_value(
            pairs,
            "user_login"@,
            "_ccul"@,
        ) is Some && last_value(pairs, "game_id"@, "_ccg"@) is Some && last_value(
            pairs,
            "stream_id"@,
            "_ccs"@,
        ) is Some && last_value(pairs, "stream_title"@, "_ccst"@) is Some,
        info_from_pairs(pairs, preview, icon) matches Some(m) ==> {
            &&& Some(m.game_name) == last_value(pairs, "game_name"@, "_ccgn"@)
            &&& Some(m.viewer_count) == parse_decimal(
                last_value(pairs, "viewer_count"@, "_ccvc"@)->0,
                usize::MAX as nat,
            )
            &&& Some(m.user_name) == last_value(pairs, "user_name"@, "_ccun"@)
            &&& Some(m.user_login) == last_value(pairs, "user_login"@, "_ccul"@)
            &&& Some(m.game_id) == last_value(pairs, "game_id"@, "_ccg"@)
            &&& Some(m.stream_id) == last_value(pairs, "stream_id"@, "_ccs"@)
            &&& Some(m.stream_title) == last_value(pairs, "stream_title"@, "_ccst"@)
            &&& m.video_id == last_value(pairs, "video_id"@, "_ccv"@)
            &&& m.format_online == last_value(pairs, "_ccf"@, "_ccf"@)
            &&& m.format_offline == last_value(pairs, "_ccfo"@, "_ccfo"@)
            &&& m.ping == last_value(pairs, "ping"@, "_ccat"@)
            &&& m.offline <==> last_value(pairs, "offline"@, "_cco"@) is Some
            &&& last_value(pairs, "started_at"@, "_ccsa"@) is None ==> m.started_at is None
            &&& last_value(pairs, "started_at"@, "_ccsa"@) matches Some(text) ==> (
            rfc3339_parts(text) matches Some(p) ==> (m.started_at matches Some(t) && (
                t.secs,
                t.nanos,
                t.offset,
            ) == p)) && (rfc3339_parts(text) is None ==> m.started_at is None)
            &&& m.stream_thumbnail == preview
            &&& m.user_icon == icon
        },
{
}

/// Information that was made into pairs reads back as it was, in whatever order the
/// pairs come, but for the preview and the icon, which stand beside them. That the
/// start reads back is what [`ZonedTime::parse_from_rfc3339`] promises of each text.
pub proof fn law_pairs_read_back(
    a: Pairs,
    m: InfoModel,
    preview: Seq<char>,
    icon: Option<Seq<char>>,
)
    requires
        reorders(a, info_pairs(m)),
        m.viewer_count <= usize::MAX,
        m.started_at matches Some(t) ==> t.valid() && t.on_the_minute(),
        forall|j: int|
            0 <= j < a.len() && (#[trigger] a[j]).0 == "_ccsa"@ ==> reads_back_rfc3339(a[j].1),
    ensures
        info_from_pairs(a, preview, icon) == Some(
            (InfoModel { stream_thumbnail: preview, user_icon: icon, ..m }),
        ),
{
    lemma_pairs_read_back(a, m, preview, icon);
}

/// The pairs, the preview and the icon together are all that was known: read back, they are
/// the information itself.
pub proof fn law_nothing_is_lost_in_pairs(m: InfoModel)
    requires
        m.viewer_count <= usize::MAX,
        m.started_at matches Some(t) ==> t.valid() && t.on_the_minute(),
        m.started_at matches Some(t) ==> reads_back_rfc3339(
            rfc3339_text(t.secs, t.nanos, t.offset),
        ),
    ensures
        ({
            let (pairs, preview, icon) = info_context(m);
            info_from_pairs(pairs, preview, icon) == Some(m)
        }),
{
    let (pairs, preview, icon) = info_context(m);
    lemma_info_pairs(m);
    assert(reorders(pairs, info_pairs(m)));
    assert forall|j: int|
        0 <= j < pairs.len() && (#[trigger] pairs[j]).0 == "_ccsa"@ implies reads_back_rfc3339(
        pairs[j].1,
    ) by {
        assert(pairs.contains(("_ccsa"@, pairs[j].1)));
        law_pairs_hold_the_information(m, pairs[j].1);
    }
    lemma_pairs_read_back(pairs, m, preview, icon);
    assert(in_context(m, preview, icon) =~= m);
}

} // verus!
