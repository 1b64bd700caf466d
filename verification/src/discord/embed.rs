//! How a stream is shown in a message: the headline, the embed, the buttons.

use url_builder::URLBuilder;
use vstd::prelude::*;
use vstd::string::*;

use crate::discord::format::{
    law_default_formats, rendered, run_format, DEFAULT_OFFLINE_FORMAT, DEFAULT_ONLINE_FORMAT,
};
use crate::discord::info::{InfoModel, StreamInfo};
use crate::discord::pairs::{
    distinct_keys, fixed_pairs_model, info_pairs, lemma_info_pairs, plain_key, reorders, Pairs,
};
use crate::text::{blank, decimal, is_blank, join, opt_text, replace_all, replaced, usize_text};
use crate::time::{elapsed_nanos, utc, UtcModel, UtcTime, NANOS_PER_SEC};
use crate::url::{
    add_param, add_route, base_text, build, built_url, encoded, encoded_pairs, lemma_encoded_plain,
    lists_params, new_url, percent_encode, query_text, routes_text, set_host, set_protocol,
    unreserved, url_params, url_parts, url_port, THUMBNAIL_HOST,
};

verus! {

// ---------------------------------------------------------------------------
// Buttons
// ---------------------------------------------------------------------------

#[verifier::ext_equal]
pub struct ButtonModel {
    pub url: Seq<char>,
    pub label: Seq<char>,
}

/// A button that opens an address.
#[derive(Debug)]
pub struct Button {
    pub url: String,
    pub label: String,
}

impl View for Button {
    type V = ButtonModel;

    open spec fn view(&self) -> ButtonModel {
        ButtonModel { url: self.url@, label: self.label@ }
    }
}

/// Buttons side by side.
#[derive(Debug)]
pub struct ActionRow {
    pub buttons: Vec<Button>,
}

impl View for ActionRow {
    type V = Seq<ButtonModel>;

    open spec fn view(&self) -> Seq<ButtonModel> {
        self.buttons@.map_values(|b: Button| b@)
    }
}

/// What rows of buttons hold.
pub open spec fn rows_model(rows: Seq<ActionRow>) -> Seq<Seq<ButtonModel>> {
    rows.map_values(|r: ActionRow| r@)
}

/// The button that leads to the stream.
pub open spec fn stream_button_model(m: InfoModel) -> ButtonModel {
    ButtonModel { url: "https://twitch.tv/"@ + m.user_login, label: "Watch the stream!"@ }
}

/// The button that leads to the recording, where there is one.
pub open spec fn vod_button_model(m: InfoModel) -> Option<ButtonModel> {
    match m.video_id {
        Some(v) => Some(
            ButtonModel { url: "https://twitch.tv/videos/"@ + v, label: "Watch the VOD!"@ },
        ),
        None => None,
    }
}

/// The headline while the stream is on.
pub open spec fn streaming_headline(m: InfoModel) -> Seq<char> {
    rendered(
        match m.format_online {
            Some(f) => f,
            None => DEFAULT_ONLINE_FORMAT@,
        },
        m,
    )
}

/// The headline once the stream is over.
pub open spec fn vod_headline(m: InfoModel) -> Seq<char> {
    rendered(
        match m.format_offline {
            Some(f) => f,
            None => DEFAULT_OFFLINE_FORMAT@,
        },
        m,
    )
}

/// The buttons while the stream is on: one row, with the recording behind the
/// stream.
pub open spec fn streaming_rows(m: InfoModel) -> Seq<Seq<ButtonModel>> {
    seq![
        match vod_button_model(m) {
            Some(b) => seq![stream_button_model(m), b],
            None => seq![stream_button_model(m)],
        },
    ]
}

/// The buttons once the stream is over: none without a recording.
pub open spec fn vod_rows(m: InfoModel) -> Option<Seq<Seq<ButtonModel>>> {
    match vod_button_model(m) {
        Some(b) => Some(seq![seq![b]]),
        None => None,
    }
}

/// What an optional button holds.
pub open spec fn opt_button(r: Option<Button>) -> Option<ButtonModel> {
    match r {
        Some(b) => Some(b@),
        None => None,
    }
}

/// What optional rows of buttons hold.
pub open spec fn opt_rows(r: Option<Vec<ActionRow>>) -> Option<Seq<Seq<ButtonModel>>> {
    match r {
        Some(rows) => Some(rows_model(rows@)),
        None => None,
    }
}

// ---------------------------------------------------------------------------
// The embed
// ---------------------------------------------------------------------------

#[verifier::ext_equal]
pub struct FieldModel {
    pub name: Seq<char>,
    pub value: Seq<char>,
    pub inline: bool,
}

/// A named value in an embed.
#[derive(Debug)]
pub struct EmbedField {
    pub name: String,
    pub value: String,
    pub inline: bool,
}

impl View for EmbedField {
    type V = FieldModel;

    open spec fn view(&self) -> FieldModel {
        FieldModel { name: self.name@, value: self.value@, inline: self.inline }
    }
}

#[verifier::ext_equal]
pub struct EmbedModel {
    pub color: (u8, u8, u8),
    pub title: Seq<char>,
    pub fields: Seq<FieldModel>,
    pub author_name: Seq<char>,
    pub author_icon: Option<Seq<char>>,
    pub thumbnail: Seq<char>,
    pub image: Seq<char>,
    pub url: Seq<char>,
    pub footer: Option<Seq<char>>,
    pub timestamp: Option<UtcModel>,
}

/// The card under the headline.
#[derive(Debug)]
pub struct StreamEmbed {
    pub color: (u8, u8, u8),
    pub title: String,
    pub fields: Vec<EmbedField>,
    pub author_name: String,
    pub author_icon: Option<String>,
    pub thumbnail: String,
    pub image: String,
    pub url: String,
    pub footer: Option<String>,
    pub timestamp: Option<UtcTime>,
}

impl View for StreamEmbed {
    type V = EmbedModel;

    open spec fn view(&self) -> EmbedModel {
        EmbedModel {
            color: self.color,
            title: self.title@,
            fields: self.fields@.map_values(|f: EmbedField| f@),
            author_name: self.author_name@,
            author_icon: opt_text(self.author_icon),
            thumbnail: self.thumbnail@,
            image: self.image@,
            url: self.url@,
            footer: opt_text(self.footer),
            timestamp: utc(self.timestamp),
        }
    }
}

/// How `humantime` writes a number of whole seconds.
pub uninterp spec fn duration_text(secs: int) -> Seq<char>;

/// `humantime::format_duration`, on whole seconds.
///
/// Trusted: the text depends on the number of seconds alone. How it is put
/// together is left unsaid: `humantime` promises only that it reads it back.
#[verifier::external_body]
fn format_duration(secs: u64) -> (r: String)
    ensures
        r@ == duration_text(secs as int),
{
    humantime::format_duration(std::time::Duration::from_secs(secs)).to_string()
}

/// How long the stream has run, in whole seconds; nothing for a stream that is
/// still on, that has no start, or whose start lies ahead.
pub open spec fn shown_duration(m: InfoModel, now: UtcModel) -> Option<int> {
    match m.started_at {
        Some(t) => if m.offline && elapsed_nanos(now, t.utc()) >= 0 {
            Some(elapsed_nanos(now, t.utc()) / 1_000_000_000)
        } else {
            None
        },
        None => None,
    }
}

pub open spec fn embed_fields(m: InfoModel, now: UtcModel) -> Seq<FieldModel> {
    let game = if m.game_name.len() > 0 {
        seq![FieldModel { name: "**Game name**"@, value: m.game_name, inline: true }]
    } else {
        seq![]
    };
    let viewers = seq![
        FieldModel { name: "**Viewers**"@, value: decimal(m.viewer_count), inline: true },
    ];
    let duration = match shown_duration(m, now) {
        Some(secs) => seq![
            FieldModel { name: "**Duration**"@, value: duration_text(secs), inline: true },
        ],
        None => seq![],
    };
    game + viewers + duration
}

/// The embed, but for the order in which the thumbnail's address carries its
/// pairs.
pub open spec fn embed_model(m: InfoModel, now: UtcModel, thumbnail: Seq<char>) -> EmbedModel {
    EmbedModel {
        color: (240, 161, 163),
        title: if blank(m.stream_title) {
            "<untitled>"@
        } else {
            m.stream_title
        },
        fields: embed_fields(m, now),
        author_name: m.user_name,
        author_icon: m.user_icon,
        thumbnail,
        image: replaced(
            replaced(m.stream_thumbnail, "{width}"@, "1080"@),
            "{height}"@,
            "720"@,
        ),
        url: "https://twitch.tv/"@ + m.user_login,
        footer: if m.offline {
            Some("Last online"@)
        } else {
            None
        },
        timestamp: if m.offline {
            Some(now)
        } else {
            None
        },
    }
}

/// Where the box art of a game lies.
pub open spec fn thumbnail_path(game_id: Seq<char>) -> Seq<char> {
    "/ttv-boxart/"@ + game_id + ".jpg"@
}

/// Whether `url` is the box art of the game with the stream's information in
/// its query, percent-encoded, in some order.
pub open spec fn sent_thumbnail(url: Seq<char>, m: InfoModel) -> bool {
    exists|pairs: Pairs| #[trigger]
        reorders(pairs, info_pairs(m)) && url == "https://"@ + THUMBNAIL_HOST@ + thumbnail_path(
            m.game_id,
        ) + seq!['?'] + query_text(encoded_pairs(pairs))
}

/// Pairs as parameters, both sides encoded, the later over the earlier.
spec fn params_of(pairs: Pairs) -> Map<Seq<char>, Seq<char>>
    decreases pairs.len(),
{
    if pairs.len() == 0 {
        Map::empty()
    } else {
        params_of(pairs.drop_last()).insert(encoded(pairs.last().0), encoded(pairs.last().1))
    }
}

spec fn plain_keys(pairs: Pairs) -> bool {
    forall|i: int| 0 <= i < pairs.len() ==> plain_key((#[trigger] pairs[i]).0)
}

proof fn lemma_plain_key(key: Seq<char>)
    requires
        plain_key(key),
    ensures
        encoded(key) == key,
{
    assert forall|i: int| 0 <= i < key.len() implies '\0' <= #[trigger] key[i] <= '\u{7f}' && unreserved(
        key[i] as u8,
    ) by {}
    lemma_encoded_plain(key);
}

proof fn lemma_params_of(pairs: Pairs)
    requires
        distinct_keys(pairs),
        plain_keys(pairs),
    ensures
        forall|i: int|
            0 <= i < pairs.len() ==> params_of(pairs).contains_pair(
                (#[trigger] pairs[i]).0,
                encoded(pairs[i].1),
            ),
        forall|k: Seq<char>| #[trigger]
            params_of(pairs).contains_key(k) ==> exists|i: int|
                0 <= i < pairs.len() && #[trigger] pairs[i].0 == k,
    decreases pairs.len(),
{
    if pairs.len() > 0 {
        let rest = pairs.drop_last();
        let last = pairs.len() - 1;
        assert forall|i: int, j: int| 0 <= i < j < rest.len() implies (#[trigger] rest[i]).0 != (
        #[trigger] rest[j]).0 by {
            assert(pairs[i].0 != pairs[j].0);
        }
        assert forall|i: int| 0 <= i < rest.len() implies plain_key((#[trigger] rest[i]).0) by {
            assert(plain_key(pairs[i].0));
        }
        lemma_params_of(rest);
        lemma_plain_key(pairs[last].0);
        assert forall|i: int| 0 <= i < pairs.len() implies params_of(pairs).contains_pair(
            (#[trigger] pairs[i]).0,
            encoded(pairs[i].1),
        ) by {
            if i < last {
                assert(rest[i] == pairs[i]);
                assert(pairs[i].0 != pairs[last].0);
            }
        }
        assert forall|k: Seq<char>| #[trigger] params_of(pairs).contains_key(k) implies exists|
            i: int,
        | 0 <= i < pairs.len() && #[trigger] pairs[i].0 == k by {
            if k == pairs[last].0 {
            } else {
                assert(params_of(rest).contains_key(k));
                let i = choose|i: int| 0 <= i < rest.len() && #[trigger] rest[i].0 == k;
                assert(pairs[i].0 == k);
            }
        }
    }
}

/// The pair with a key.
spec fn pair_of(pairs: Pairs, key: Seq<char>) -> (Seq<char>, Seq<char>) {
    pairs[choose|j: int| 0 <= j < pairs.len() && #[trigger] pairs[j].0 == key]
}

/// The address of the thumbnail carries the pairs that were added to it.
proof fn lemma_sent_thumbnail(m: InfoModel, parts: Seq<Seq<char>>, url: Seq<char>)
    requires
        parts == seq!["https"@, THUMBNAIL_HOST@, "ttv-boxart"@, m.game_id + ".jpg"@],
        built_url(parts, params_of(info_pairs(m)), url),
    ensures
        sent_thumbnail(url, m),
{
    let all = info_pairs(m);
    let params = params_of(all);
    lemma_info_pairs(m);
    lemma_params_of(all);
    assert(params.contains_key(all[0].0));
    let listed = choose|pairs: Pairs|
        #![trigger query_text(pairs)]
        lists_params(pairs, params) && url == base_text(parts) + seq!['?'] + query_text(pairs);
    let decoded = listed.map_values(|p: (Seq<char>, Seq<char>)| pair_of(all, p.0));
    assert forall|i: int| 0 <= i < listed.len() implies all.contains(#[trigger] decoded[i])
        && decoded[i].0 == listed[i].0 && encoded(decoded[i].0) == listed[i].0 && encoded(
        decoded[i].1,
    ) == listed[i].1 by {
        assert(params.contains_pair(listed[i].0, listed[i].1));
        let j = choose|j: int| 0 <= j < all.len() && #[trigger] all[j].0 == listed[i].0;
        assert(all.contains(all[j]));
        lemma_plain_key(all[j].0);
    }
    assert(encoded_pairs(decoded) =~= listed);
    assert forall|i: int| 0 <= i < all.len() implies decoded.contains(#[trigger] all[i]) by {
        assert(params.contains_key(all[i].0));
        let k = choose|k: int| 0 <= k < listed.len() && listed[k].0 == all[i].0;
        assert(all.contains(decoded[k]));
        let j = choose|j: int| 0 <= j < all.len() && all[j] == decoded[k];
        assert(j == i);
    }
    assert forall|i: int, j: int| 0 <= i < j < decoded.len() implies (#[trigger] decoded[i]).0 != (
    #[trigger] decoded[j]).0 by {
        assert(listed[i].0 != listed[j].0);
    }
    assert(reorders(decoded, all));
    reveal_strlit("https");
    reveal_strlit("://");
    reveal_strlit("https://");
    reveal_strlit("ttv-boxart");
    reveal_strlit("/ttv-boxart/");
    let routes = parts.skip(2);
    assert(routes.len() == 2);
    assert(routes.drop_last().drop_last() =~= seq![]);
    reveal_with_fuel(routes_text, 3);
    assert(routes_text(routes) =~= thumbnail_path(m.game_id));
    assert(base_text(parts) =~= "https://"@ + THUMBNAIL_HOST@ + thumbnail_path(m.game_id));
}

impl StreamInfo {
    /// The headline once the stream is over.
    pub fn headline_vod(&self) -> (r: String)
        ensures
            r@ == vod_headline(self@),
    {
        match &self.format_offline {
            Some(f) => run_format(f.as_str(), self),
            None => run_format(DEFAULT_OFFLINE_FORMAT, self),
        }
    }

    /// The headline while the stream is on.
    pub fn headline_streaming(&self) -> (r: String)
        ensures
            r@ == streaming_headline(self@),
    {
        match &self.format_online {
            Some(f) => run_format(f.as_str(), self),
            None => run_format(DEFAULT_ONLINE_FORMAT, self),
        }
    }

    /// The buttons while the stream is on.
    pub fn streaming_components(&self) -> (r: Vec<ActionRow>)
        ensures
            rows_model(r@) == streaming_rows(self@),
    {
        let mut buttons: Vec<Button> = vec![self.stream_button()];
        if let Some(b) = self.vod_button() {
            buttons.push(b);
        }
        let row = ActionRow { buttons };
        let rows = vec![row];
        proof {
            assert(row@ =~= streaming_rows(self@)[0]);
            assert(rows_model(rows@) =~= streaming_rows(self@));
        }
        rows
    }

    /// The buttons once the stream is over.
    pub fn vod_components(&self) -> (r: Option<Vec<ActionRow>>)
        ensures
            opt_rows(r) == vod_rows(self@),
    {
        match self.vod_button() {
            Some(b) => {
                let row = ActionRow { buttons: vec![b] };
                let rows = vec![row];
                proof {
                    assert(row@ =~= seq![b@]);
                    assert(rows_model(rows@) =~= seq![seq![b@]]);
                }
                Some(rows)
            },
            None => None,
        }
    }

    /// The button that leads to the recording.
    pub fn vod_button(&self) -> (r: Option<Button>)
        ensures
            opt_button(r) == vod_button_model(self@),
    {
        match &self.video_id {
            Some(v) => Some(
                Button {
                    url: join("https://twitch.tv/videos/", v.as_str()),
                    label: "Watch the VOD!".to_owned(),
                },
            ),
            None => None,
        }
    }

    /// The button that leads to the stream.
    pub fn stream_button(&self) -> (r: Button)
        ensures
            r@ == stream_button_model(self@),
    {
        Button {
            url: join("https://twitch.tv/", self.user_login.as_str()),
            label: "Watch the stream!".to_owned(),
        }
    }

    fn fields(&self, now: UtcTime) -> (r: Vec<EmbedField>)
        ensures
            r@.map_values(|f: EmbedField| f@) == embed_fields(self@, now@),
    {
        let mut fields: Vec<EmbedField> = Vec::new();
        if self.game_name.as_str().unicode_len() > 0 {
            fields.push(
                EmbedField {
                    name: "**Game name**".to_owned(),
                    value: self.game_name.clone(),
                    inline: true,
                },
            );
        }
        fields.push(
            EmbedField {
                name: "**Viewers**".to_owned(),
                value: usize_text(self.viewer_count),
                inline: true,
            },
        );
        if self.offline {
            if let Some(t) = &self.started_at {
                let elapsed: i128 = now.nanos_since(&t.to_utc());
                if elapsed >= 0 {
                    let secs: u64 = (elapsed / NANOS_PER_SEC) as u64;
                    fields.push(
                        EmbedField {
                            name: "**Duration**".to_owned(),
                            value: format_duration(secs),
                            inline: true,
                        },
                    );
                }
            }
        }
        assert(fields@.map_values(|f: EmbedField| f@) =~= embed_fields(self@, now@));
        fields
    }

    /// The address of the game's box art, which carries the information.
    fn thumbnail_url(&self) -> (r: String)
        ensures
            sent_thumbnail(r@, self@),
    {
        let mut url: URLBuilder = new_url();
        set_protocol(&mut url, "https");
        set_host(&mut url, THUMBNAIL_HOST);
        add_route(&mut url, "ttv-boxart");
        let file = join(self.game_id.as_str(), ".jpg");
        add_route(&mut url, file.as_str());
        let ghost parts = seq!["https"@, THUMBNAIL_HOST@, "ttv-boxart"@, file@];
        let (pairs, _thumbnail, _icon) = self.clone().into_pairs_with_context();
        let ghost all = info_pairs(self@);
        proof {
            assert(url_parts(url) =~= parts);
            assert(url_params(url) =~= params_of(all.take(0)));
        }
        let mut i: usize = 0;
        while i < pairs.len()
            invariant
                i <= pairs.len(),
                all == fixed_pairs_model(pairs@),
                url_parts(url) == parts,
                url_port(url) == 0,
                url_params(url) == params_of(all.take(i as int)),
            decreases pairs.len() - i,
        {
            let key = percent_encode(pairs[i].0);
            let value = percent_encode(pairs[i].1.as_str());
            add_param(&mut url, key.as_str(), value.as_str());
            proof {
                assert(all.take(i + 1).drop_last() =~= all.take(i as int));
                assert(all.take(i + 1).last() == (pairs[i as int].0@, pairs[i as int].1@));
            }
            i += 1;
        }
        assert(all.take(i as int) =~= all);
        let text = build(url);
        proof {
            lemma_sent_thumbnail(self@, parts, text@);
        }
        text
    }

    /// The card of the stream, as it is shown at a moment.
    ///
    /// The thumbnail's address carries everything that the notification says.
    pub fn stream_embed(&self, now: UtcTime) -> (r: StreamEmbed)
        ensures
            sent_thumbnail(r@.thumbnail, self@),
            r@ == embed_model(self@, now@, r@.thumbnail),
    {
        proof {
            reveal_strlit("{width}");
            reveal_strlit("{height}");
        }
        let title = if is_blank(self.stream_title.as_str()) {
            "<untitled>".to_owned()
        } else {
            self.stream_title.clone()
        };
        let wide = replace_all(self.stream_thumbnail.as_str(), "{width}", "1080");
        let image = replace_all(wide.as_str(), "{height}", "720");
        let (footer, timestamp) = if self.offline {
            (Some("Last online".to_owned()), Some(now))
        } else {
            (None, None)
        };
        StreamEmbed {
            color: (240, 161, 163),
            title,
            fields: self.fields(now),
            author_name: self.user_name.clone(),
            author_icon: self.user_icon.clone(),
            thumbnail: self.thumbnail_url(),
            image,
            url: join("https://twitch.tv/", self.user_login.as_str()),
            footer,
            timestamp,
        }
    }
}

// ---------------------------------------------------------------------------
// Laws
// ---------------------------------------------------------------------------


/// Whether the stream is on or over, the game comes first wherever it has a name, and
/// behind it how many watch.
pub proof fn law_game_and_viewers_are_shown(m: InfoModel, now: UtcModel)
    ensures
        ({
            let fields = embed_fields(m, now);
            let viewers = FieldModel {
                name: "**Viewers**"@,
                value: decimal(m.viewer_count),
                inline: true,
            };
            &&& m.game_name.len() > 0 ==> fields.len() >= 2 && fields[0] == (FieldModel {
                name: "**Game name**"@,
                value: m.game_name,
                inline: true,
            }) && fields[1] == viewers
            &&& m.game_name.len() == 0 ==> fields.len() >= 1 && fields[0] == viewers
        }),
{
}

/// How long a stream has run is shown, last, once it is over, where it is known when
/// it began; and there are no other fields.
pub proof fn law_the_duration_is_shown_once_over(m: InfoModel, now: UtcModel)
    ensures
        ({
            let fields = embed_fields(m, now);
            let shown = if m.game_name.len() > 0 {
                2int
            } else {
                1int
            };
            let over = m.offline && m.started_at is Some && elapsed_nanos(
                now,
                UtcModel { secs: m.started_at->0.secs, nanos: m.started_at->0.nanos },
            ) >= 0;
            &&& !over ==> fields.len() == shown
            &&& over ==> fields.len() == shown + 1 && fields[shown] == (FieldModel {
                name: "**Duration**"@,
                value: duration_text(
                    elapsed_nanos(
                        now,
                        UtcModel { secs: m.started_at->0.secs, nanos: m.started_at->0.nanos },
                    ) / 1_000_000_000,
                ),
                inline: true,
            })
        }),
{
}

/// The embed shows the stream: its title, or that it has none; who streams, with the
/// icon, and where; and the preview, in its size.
pub proof fn law_the_embed_shows_the_stream(m: InfoModel, now: UtcModel, thumbnail: Seq<char>)
    ensures
        ({
            let e = embed_model(m, now, thumbnail);
            &&& !blank(m.stream_title) ==> e.title == m.stream_title
            &&& blank(m.stream_title) ==> e.title == "<untitled>"@
            &&& e.author_name == m.user_name
            &&& e.author_icon == m.user_icon
            &&& e.url == "https://twitch.tv/"@ + m.user_login
            &&& e.image == replaced(
                replaced(m.stream_thumbnail, "{width}"@, "1080"@),
                "{height}"@,
                "720"@,
            )
            &&& e.thumbnail == thumbnail
            &&& e.fields == embed_fields(m, now)
            &&& e.color == (240u8, 161u8, 163u8)
        }),
{
}

/// Whether a stream is over decides about the duration, the footer and the timestamp
/// alone.
pub proof fn law_the_end_changes_little(m: InfoModel, now: UtcModel, thumbnail: Seq<char>)
    ensures
        ({
            let on = embed_model(InfoModel { offline: false, ..m }, now, thumbnail);
            let over = embed_model(InfoModel { offline: true, ..m }, now, thumbnail);
            &&& over == EmbedModel {
                fields: over.fields,
                footer: over.footer,
                timestamp: over.timestamp,
                ..on
            }
            &&& on.fields.is_prefix_of(over.fields)
            &&& over.fields.len() <= on.fields.len() + 1
            &&& on.footer is None
            &&& on.timestamp is None
            &&& over.footer == Some("Last online"@)
            &&& over.timestamp == Some(now)
        }),
{
    let on = embed_fields(InfoModel { offline: false, ..m }, now);
    let over = embed_fields(InfoModel { offline: true, ..m }, now);
    assert(on =~= over.take(on.len() as int));
}

/// While the stream is on there is one row of buttons: to the stream, and behind it to
/// the recording where there is one.
pub proof fn law_buttons_while_on(m: InfoModel)
    ensures
        ({
            let rows = streaming_rows(m);
            &&& rows.len() == 1
            &&& rows[0].len() == (if m.video_id is Some {
                2int
            } else {
                1int
            })
            &&& rows[0][0].url == "https://twitch.tv/"@ + m.user_login
            &&& rows[0][0].label == "Watch the stream!"@
            &&& m.video_id matches Some(v) ==> rows[0][1].url == "https://twitch.tv/videos/"@ + v
                && rows[0][1].label == "Watch the VOD!"@
        }),
{
}

/// Once the stream is over there is one button, to the recording; and none where there
/// is no recording.
pub proof fn law_buttons_once_over(m: InfoModel)
    ensures
        m.video_id is None ==> vod_rows(m) is None,
        m.video_id matches Some(v) ==> (vod_rows(m) matches Some(rows) && rows.len() == 1
            && rows[0].len() == 1 && rows[0][0].url == "https://twitch.tv/videos/"@ + v
            && rows[0][0].label == "Watch the VOD!"@),
        vod_button_model(m) is Some <==> m.video_id is Some,
        vod_button_model(m) matches Some(b) ==> b.url == "https://twitch.tv/videos/"@
            + m.video_id->0 && b.label == "Watch the VOD!"@,
        stream_button_model(m).url == "https://twitch.tv/"@ + m.user_login,
        stream_button_model(m).label == "Watch the stream!"@,
{
}

/// The headline is what was configured for a stream that is on, or for one that is
/// over, with the names in it filled in. Where nothing was configured it says who
/// streams or streamed, and mentions whom to ping.
pub proof fn law_headlines(m: InfoModel)
    ensures
        m.format_online matches Some(f) ==> streaming_headline(m) == rendered(f, m),
        m.format_offline matches Some(f) ==> vod_headline(m) == rendered(f, m),
        ({
            let ping = match m.ping {
                Some(p) => "<@"@ + p + ">, "@,
                None => Seq::<char>::empty(),
            };
            &&& m.format_online is None ==> streaming_headline(m) == ping + "**"@ + m.user_name
                + "** is streaming! :tada:"@
            &&& m.format_offline is None ==> vod_headline(m) == ping + "**"@ + m.user_name
                + "** streamed :projector:"@
        }),
{
    law_default_formats(m);
}

/// The thumbnail is the box art of the game that is played.
pub proof fn law_the_thumbnail_is_of_the_game(url: Seq<char>, m: InfoModel)
    requires
        sent_thumbnail(url, m),
    ensures
        ("https://static-cdn.jtvnw.net/ttv-boxart/"@ + m.game_id + ".jpg?"@).is_prefix_of(url),
{
    let pairs = choose|pairs: Pairs| #[trigger]
        reorders(pairs, info_pairs(m)) && url == "https://"@ + THUMBNAIL_HOST@ + thumbnail_path(
            m.game_id,
        ) + seq!['?'] + query_text(encoded_pairs(pairs));
    reveal_strlit("https://");
    reveal_strlit("static-cdn.jtvnw.net");
    reveal_strlit("/ttv-boxart/");
    reveal_strlit(".jpg");
    reveal_strlit(".jpg?");
    reveal_strlit("https://static-cdn.jtvnw.net/ttv-boxart/");
    let front = "https://static-cdn.jtvnw.net/ttv-boxart/"@ + m.game_id + ".jpg?"@;
    assert("https://"@ + THUMBNAIL_HOST@ + thumbnail_path(m.game_id) + seq!['?'] =~= front);
    assert(front =~= url.take(front.len() as int));
}

/// What is known of an embed and of a row of buttons is what they show, each thing in its place.
pub proof fn law_nothing_shown_is_left_out(e: StreamEmbed, row: ActionRow, rows: Seq<ActionRow>, i: int)
    ensures
        e@.color == e.color,
        e@.title == e.title@,
        e@.author_name == e.author_name@,
        e.author_icon is None <==> e@.author_icon is None,
        e.author_icon matches Some(x) ==> e@.author_icon == Some(x@),
        e@.thumbnail == e.thumbnail@,
        e@.image == e.image@,
        e@.url == e.url@,
        e.footer is None <==> e@.footer is None,
        e.footer matches Some(x) ==> e@.footer == Some(x@),
        e.timestamp is None <==> e@.timestamp is None,
        e.timestamp matches Some(x) ==> e@.timestamp == Some(x@),
        e@.fields.len() == e.fields@.len(),
        0 <= i < e.fields@.len() ==> e@.fields[i].name == e.fields@[i].name@ && e@.fields[i].value
            == e.fields@[i].value@ && e@.fields[i].inline == e.fields@[i].inline,
        row@.len() == row.buttons@.len(),
        0 <= i < row.buttons@.len() ==> row@[i].url == row.buttons@[i].url@ && row@[i].label
            == row.buttons@[i].label@,
        rows_model(rows).len() == rows.len(),
        0 <= i < rows.len() ==> rows_model(rows)[i] == rows[i]@,
{
}

} // verus!
