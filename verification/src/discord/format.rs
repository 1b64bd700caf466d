//! Format strings: `{name}` stands for a field of the stream, and `{name+text}`
//! for the field followed by `text`, or for nothing where the field is absent.

use vstd::prelude::*;
use vstd::string::*;

use crate::discord::info::{InfoModel, StreamInfo};
use crate::text::{decimal, join, opt_text, same, usize_text};
use crate::time::rfc2822_text;

verus! {

pub const DEFAULT_ONLINE_FORMAT: &'static str = "{ping+, }**{user_name}** is streaming! :tada:";

pub const DEFAULT_OFFLINE_FORMAT: &'static str = "{ping+, }**{user_name}** streamed :projector:";

/// The pattern of a segment, with the name and the text behind the plus as
/// its groups.
pub const FORMAT_SEGMENT_RE: &'static str = r"\{([a-z_]+)(?:\+([^}]+))?\}";

pub open spec fn name_char(c: char) -> bool {
    'a' <= c <= 'z' || c == '_'
}

/// A name is letters and underscores, at least one of them; the text behind a
/// plus is not empty and has no closing brace.
pub open spec fn valid_segment(name: Seq<char>, suffix: Option<Seq<char>>) -> bool {
    &&& name.len() > 0
    &&& forall|i: int| 0 <= i < name.len() ==> name_char(#[trigger] name[i])
    &&& suffix matches Some(x) ==> x.len() > 0 && forall|i: int|
        0 <= i < x.len() ==> #[trigger] x[i] != '}'
}

/// How a segment is written.
pub open spec fn segment_text(name: Seq<char>, suffix: Option<Seq<char>>) -> Seq<char> {
    match suffix {
        Some(x) => seq!['{'] + name + seq!['+'] + x + seq!['}'],
        None => seq!['{'] + name + seq!['}'],
    }
}

/// Whether `s` starts with this segment.
pub open spec fn segment_starts(s: Seq<char>, name: Seq<char>, suffix: Option<Seq<char>>) -> bool {
    valid_segment(name, suffix) && segment_text(name, suffix).is_prefix_of(s)
}

/// Whether `s` starts with a segment.
pub open spec fn at_segment(s: Seq<char>) -> bool {
    exists|name: Seq<char>, suffix: Option<Seq<char>>| segment_starts(s, name, suffix)
}

/// The segment that `s` starts with.
pub open spec fn segment_at(s: Seq<char>) -> (Seq<char>, Option<Seq<char>>) {
    choose|name: Seq<char>, suffix: Option<Seq<char>>| segment_starts(s, name, suffix)
}

/// The field that a segment may name, in the form in which it is shown.
pub open spec fn field(name: Seq<char>, info: InfoModel) -> Option<Seq<char>> {
    if name == "game_name"@ {
        Some(info.game_name)
    } else if name == "viewer_count"@ {
        Some(decimal(info.viewer_count))
    } else if name == "started_at"@ {
        match info.started_at {
            Some(t) => Some(rfc2822_text(t.secs, t.nanos, t.offset)),
            None => None,
        }
    } else if name == "user_name"@ {
        Some(info.user_name)
    } else if name == "user_login"@ {
        Some(info.user_login)
    } else if name == "user_icon"@ {
        info.user_icon
    } else if name == "game_id"@ {
        Some(info.game_id)
    } else if name == "stream_id"@ {
        Some(info.stream_id)
    } else if name == "stream_title"@ {
        Some(info.stream_title)
    } else if name == "stream_thumbnail"@ {
        Some(info.stream_thumbnail)
    } else if name == "video_id"@ {
        info.video_id
    } else if name == "ping"@ {
        match info.ping {
            Some(p) => Some("<@"@ + p + ">"@),
            None => None,
        }
    } else if name == "offline"@ {
        Some(if info.offline { "true"@ } else { "false"@ })
    } else {
        None
    }
}

/// What stands in place of a segment: the field and the text behind the plus,
/// or nothing where there is no such field.
pub open spec fn expansion(name: Seq<char>, suffix: Option<Seq<char>>, info: InfoModel) -> Seq<
    char,
> {
    match field(name, info) {
        Some(value) => match suffix {
            Some(x) => value + x,
            None => value,
        },
        None => seq![],
    }
}

/// A format string with every segment expanded, once, from the left.
pub open spec fn rendered(s: Seq<char>, info: InfoModel) -> Seq<char>
    decreases s.len(),
{
    if s.len() == 0 {
        seq![]
    } else if at_segment(s) {
        let (name, suffix) = segment_at(s);
        expansion(name, suffix, info) + rendered(
            s.skip(segment_text(name, suffix).len() as int),
            info,
        )
    } else {
        seq![s[0]] + rendered(s.skip(1), info)
    }
}

/// A string starts with at most one segment.
proof fn lemma_segment_unique(
    s: Seq<char>,
    n1: Seq<char>,
    x1: Option<Seq<char>>,
    n2: Seq<char>,
    x2: Option<Seq<char>>,
)
    requires
        segment_starts(s, n1, x1),
        segment_starts(s, n2, x2),
    ensures
        n1 == n2,
        x1 == x2,
{
    let t1 = segment_text(n1, x1);
    let t2 = segment_text(n2, x2);
    let l1 = n1.len() as int;
    let l2 = n2.len() as int;
    assert forall|i: int| 0 <= i < n1.len() implies s[1 + i] == n1[i] by {
        assert(t1[1 + i] == n1[i]);
    }
    assert forall|i: int| 0 <= i < n2.len() implies s[1 + i] == n2[i] by {
        assert(t2[1 + i] == n2[i]);
    }
    let c1 = t1[1 + l1];
    let c2 = t2[1 + l2];
    assert(c1 == (if x1 is Some { '+' } else { '}' }));
    assert(c2 == (if x2 is Some { '+' } else { '}' }));
    if n1.len() < n2.len() {
        assert(s[1 + l1] == n2[l1]);
        assert(s[1 + l1] == c1);
        assert(false);
    }
    if n2.len() < n1.len() {
        assert(s[1 + l2] == n1[l2]);
        assert(s[1 + l2] == c2);
        assert(false);
    }
    assert(n1 =~= n2);
    assert(c1 == c2);
    if x1 is Some {
        let y1 = x1->0;
        let y2 = x2->0;
        let at = (2 + n1.len()) as int;
        assert forall|i: int| 0 <= i < y1.len() implies s[at + i] == y1[i] by {
            assert(t1[at + i] == y1[i]);
        }
        assert forall|i: int| 0 <= i < y2.len() implies s[at + i] == y2[i] by {
            assert(t2[at + i] == y2[i]);
        }
        assert(t1[at + y1.len()] == '}');
        assert(t2[at + y2.len()] == '}');
        if y1.len() < y2.len() {
            assert(s[at + y1.len()] == y2[y1.len() as int]);
            assert(false);
        }
        if y2.len() < y1.len() {
            assert(s[at + y2.len()] == y1[y2.len() as int]);
            assert(false);
        }
        assert(y1 =~= y2);
    }
}

/// Text in front of the first segment stays as it is.
proof fn lemma_rendered_before(s: Seq<char>, n: int, info: InfoModel)
    requires
        0 <= n <= s.len(),
        forall|i: int| 0 <= i < n ==> !at_segment(#[trigger] s.skip(i)),
    ensures
        rendered(s, info) == s.take(n) + rendered(s.skip(n), info),
    decreases n,
{
    if n == 0 {
        assert(s.skip(0) =~= s);
        assert(s.take(0) + rendered(s, info) =~= rendered(s, info));
    } else {
        assert(s.skip(0) =~= s);
        assert forall|i: int| 0 <= i < n - 1 implies !at_segment(#[trigger] s.skip(1).skip(i)) by {
            assert(s.skip(1).skip(i) =~= s.skip(i + 1));
        }
        lemma_rendered_before(s.skip(1), n - 1, info);
        assert(s.skip(1).skip(n - 1) =~= s.skip(n));
        assert(seq![s[0]] + s.skip(1).take(n - 1) =~= s.take(n));
        assert(seq![s[0]] + (s.skip(1).take(n - 1) + rendered(s.skip(n), info)) =~= s.take(n)
            + rendered(s.skip(n), info));
    }
}

/// A segment in front is replaced by its expansion.
proof fn lemma_rendered_segment(
    s: Seq<char>,
    name: Seq<char>,
    suffix: Option<Seq<char>>,
    after: Seq<char>,
    info: InfoModel,
)
    requires
        valid_segment(name, suffix),
        s == segment_text(name, suffix) + after,
    ensures
        rendered(s, info) == expansion(name, suffix, info) + rendered(after, info),
{
    assert(segment_text(name, suffix) =~= s.take(segment_text(name, suffix).len() as int));
    assert(segment_starts(s, name, suffix));
    let (n2, x2) = segment_at(s);
    lemma_segment_unique(s, name, suffix, n2, x2);
    assert(s.skip(segment_text(name, suffix).len() as int) =~= after);
}

/// A format string without segments stays as it is.
pub proof fn law_plain_format(s: Seq<char>, info: InfoModel)
    requires
        forall|i: int| 0 <= i < s.len() ==> #[trigger] s[i] != '{',
    ensures
        rendered(s, info) == s,
{
    assert forall|i: int| 0 <= i < s.len() implies !at_segment(#[trigger] s.skip(i)) by {
        if at_segment(s.skip(i)) {
            let (n, x) = segment_at(s.skip(i));
            assert(segment_text(n, x)[0] == '{');
            assert(s.skip(i)[0] == s[i]);
        }
    }
    lemma_rendered_before(s, s.len() as int, info);
    assert(s.take(s.len() as int) =~= s);
    assert(s.skip(s.len() as int) =~= Seq::<char>::empty());
    assert(s + Seq::<char>::empty() =~= s);
}

/// The first segment expands to its field, and what follows it is rendered by
/// itself: what stands in a field is never taken for a segment.
pub proof fn law_segment_expands(
    before: Seq<char>,
    name: Seq<char>,
    suffix: Option<Seq<char>>,
    after: Seq<char>,
    info: InfoModel,
)
    requires
        is_first_segment(
            before + segment_text(name, suffix) + after,
            before,
            name,
            suffix,
            after,
        ),
    ensures
        rendered(before + segment_text(name, suffix) + after, info) == before + expansion(
            name,
            suffix,
            info,
        ) + rendered(after, info),
{
    let s = before + segment_text(name, suffix) + after;
    let n = before.len() as int;
    lemma_rendered_before(s, n, info);
    assert(s.take(n) =~= before);
    assert(s.skip(n) =~= segment_text(name, suffix) + after);
    lemma_rendered_segment(s.skip(n), name, suffix, after, info);
    assert(before + (expansion(name, suffix, info) + rendered(after, info)) =~= before
        + expansion(name, suffix, info) + rendered(after, info));
}

/// The field that `id` names, in the form in which it is shown.
pub fn extract(id: &str, msg: &StreamInfo) -> (r: Option<String>)
    ensures
        opt_text(r) == field(id@, msg@),
{
    if same(id, "game_name") {
        Some(msg.game_name.clone())
    } else if same(id, "viewer_count") {
        Some(usize_text(msg.viewer_count))
    } else if same(id, "started_at") {
        match &msg.started_at {
            Some(t) => Some(t.to_rfc2822()),
            None => None,
        }
    } else if same(id, "user_name") {
        Some(msg.user_name.clone())
    } else if same(id, "user_login") {
        Some(msg.user_login.clone())
    } else if same(id, "user_icon") {
        msg.user_icon.clone()
    } else if same(id, "game_id") {
        Some(msg.game_id.clone())
    } else if same(id, "stream_id") {
        Some(msg.stream_id.clone())
    } else if same(id, "stream_title") {
        Some(msg.stream_title.clone())
    } else if same(id, "stream_thumbnail") {
        Some(msg.stream_thumbnail.clone())
    } else if same(id, "video_id") {
        msg.video_id.clone()
    } else if same(id, "ping") {
        match &msg.ping {
            Some(p) => Some(join("<@", p.as_str()).concat(">")),
            None => None,
        }
    } else if same(id, "offline") {
        Some(
            if msg.offline {
                "true".to_owned()
            } else {
                "false".to_owned()
            },
        )
    } else {
        None
    }
}

/// Replaces every segment of a format string by the field that it names.
pub fn run_format(fmt: &str, msg: &StreamInfo) -> (r: String)
    ensures
        r@ == rendered(fmt@, msg@),
{
    let mut out = String::new();
    let mut rest = fmt.to_owned();
    proof {
        assert(out@ + rendered(rest@, msg@) =~= rendered(fmt@, msg@));
    }
    loop
        invariant_except_break
            rendered(fmt@, msg@) == out@ + rendered(rest@, msg@),
        ensures
            rendered(fmt@, msg@) == out@,
        decreases rest@.len(),
    {
        match first_segment(FORMAT_SEGMENT_RE, rest.as_str()) {
            Some((before, name, suffix, after)) => {
                let ghost start = out@;
                let ghost n = before@.len() as int;
                let ghost x = opt_text(suffix);
                out.append(before.as_str());
                if let Some(value) = extract(name.as_str(), msg) {
                    out.append(value.as_str());
                    if let Some(more) = &suffix {
                        out.append(more.as_str());
                    }
                }
                proof {
                    lemma_rendered_before(rest@, n, msg@);
                    assert(rest@.take(n) =~= before@);
                    assert(rest@.skip(n) =~= segment_text(name@, x) + after@);
                    lemma_rendered_segment(rest@.skip(n), name@, x, after@, msg@);
                    assert(out@ =~= start + before@ + expansion(name@, x, msg@));
                    assert(start + (before@ + (expansion(name@, x, msg@) + rendered(after@, msg@)))
                        =~= out@ + rendered(after@, msg@));
                }
                rest = after;
            },
            None => {
                proof {
                    let n = rest@.len() as int;
                    lemma_rendered_before(rest@, n, msg@);
                    assert(rest@.take(n) =~= rest@);
                    assert(rest@.skip(n) =~= Seq::<char>::empty());
                    assert(rest@ + Seq::<char>::empty() =~= rest@);
                }
                out.append(rest.as_str());
                break;
            },
        }
    }
    out
}

/// Whether the parts that the pattern finds in `text` are the first segment,
/// what is before it and what is after it.
pub open spec fn is_first_segment(
    text: Seq<char>,
    before: Seq<char>,
    name: Seq<char>,
    suffix: Option<Seq<char>>,
    after: Seq<char>,
) -> bool {
    &&& text == before + segment_text(name, suffix) + after
    &&& valid_segment(name, suffix)
    &&& forall|i: int| 0 <= i < before.len() ==> !at_segment(#[trigger] text.skip(i))
}

/// `regex::Regex::captures` of [`FORMAT_SEGMENT_RE`], as the text before the
/// match, the two groups, and the text after the match.
///
/// Trusted: the match is the first segment of the text, and there is none
/// exactly where the text holds no segment.
#[verifier::external_body]
fn first_segment(pattern: &str, text: &str) -> (r: Option<
    (String, String, Option<String>, String),
>)
    requires
        pattern@ == FORMAT_SEGMENT_RE@,
    ensures
        r matches Some(p) ==> is_first_segment(text@, p.0@, p.1@, opt_text(p.2), p.3@),
        r is None ==> forall|i: int| 0 <= i <= text@.len() ==> !at_segment(#[trigger] text@.skip(i)),
{
    let caps = regex::Regex::new(pattern).unwrap().captures(text)?;
    let whole = caps.get_match();
    Some((
        text[..whole.start()].to_string(),
        caps[1].to_string(),
        caps.get(2).map(|m| m.as_str().to_string()),
        text[whole.end()..].to_string(),
    ))
}

// ---------------------------------------------------------------------------
// Laws
// ---------------------------------------------------------------------------


/// Each name stands for its field, as it is shown: numbers in decimal, a ping as a
/// mention, the start as RFC 2822 writes it. A field that is absent stands for
/// nothing.
pub proof fn law_names_stand_for_fields(m: InfoModel)
    ensures
        field("game_name"@, m) == Some(m.game_name),
        field("viewer_count"@, m) == Some(decimal(m.viewer_count)),
        field("user_name"@, m) == Some(m.user_name),
        field("user_login"@, m) == Some(m.user_login),
        field("user_icon"@, m) == m.user_icon,
        field("game_id"@, m) == Some(m.game_id),
        field("stream_id"@, m) == Some(m.stream_id),
        field("stream_title"@, m) == Some(m.stream_title),
        field("stream_thumbnail"@, m) == Some(m.stream_thumbnail),
        field("video_id"@, m) == m.video_id,
        m.ping is None ==> field("ping"@, m) is None,
        m.ping matches Some(p) ==> field("ping"@, m) == Some("<@"@ + p + ">"@),
        m.started_at is None ==> field("started_at"@, m) is None,
        m.started_at matches Some(t) ==> field("started_at"@, m) == Some(
            rfc2822_text(t.secs, t.nanos, t.offset),
        ),
        m.offline ==> field("offline"@, m) == Some("true"@),
        !m.offline ==> field("offline"@, m) == Some("false"@),
{
    lemma_field_names();
}

/// What tells the names of fields apart.
proof fn lemma_field_names()
    ensures
        "game_name"@.len() == 9 && "game_name"@[0] == 'g' && "game_name"@[5] == 'n',
        "viewer_count"@.len() == 12 && "viewer_count"@[0] == 'v',
        "started_at"@.len() == 10 && "started_at"@[0] == 's',
        "user_name"@.len() == 9 && "user_name"@[0] == 'u' && "user_name"@[5] == 'n',
        "user_login"@.len() == 10 && "user_login"@[0] == 'u',
        "user_icon"@.len() == 9 && "user_icon"@[0] == 'u' && "user_icon"@[5] == 'i',
        "game_id"@.len() == 7 && "game_id"@[0] == 'g',
        "stream_id"@.len() == 9 && "stream_id"@[0] == 's',
        "stream_title"@.len() == 12 && "stream_title"@[0] == 's',
        "stream_thumbnail"@.len() == 16,
        "video_id"@.len() == 8,
        "ping"@.len() == 4,
        "offline"@.len() == 7 && "offline"@[0] == 'o',
{
    reveal_strlit("game_name");
    reveal_strlit("viewer_count");
    reveal_strlit("started_at");
    reveal_strlit("user_name");
    reveal_strlit("user_login");
    reveal_strlit("user_icon");
    reveal_strlit("game_id");
    reveal_strlit("stream_id");
    reveal_strlit("stream_title");
    reveal_strlit("stream_thumbnail");
    reveal_strlit("video_id");
    reveal_strlit("ping");
    reveal_strlit("offline");
}

/// A name in braces, of small letters and underscores, is replaced by its field; with
/// a plus and a text behind it, by the field and the text. Without such a field both
/// are replaced by nothing. What follows is read by itself.
pub proof fn law_names_in_braces(
    name: Seq<char>,
    text: Seq<char>,
    after: Seq<char>,
    m: InfoModel,
)
    requires
        name.len() > 0,
        forall|i: int| 0 <= i < name.len() ==> ('a' <= #[trigger] name[i] <= 'z' || name[i] == '_'),
        text.len() > 0,
        forall|i: int| 0 <= i < text.len() ==> #[trigger] text[i] != '}',
    ensures
        field(name, m) matches Some(value) ==> rendered(
            seq!['{'] + name + seq!['}'] + after,
            m,
        ) == value + rendered(after, m) && rendered(
            seq!['{'] + name + seq!['+'] + text + seq!['}'] + after,
            m,
        ) == value + text + rendered(after, m),
        field(name, m) is None ==> rendered(seq!['{'] + name + seq!['}'] + after, m) == rendered(
            after,
            m,
        ) && rendered(seq!['{'] + name + seq!['+'] + text + seq!['}'] + after, m) == rendered(
            after,
            m,
        ),
{
    lemma_rendered_segment(
        seq!['{'] + name + seq!['}'] + after,
        name,
        None,
        after,
        m,
    );
    lemma_rendered_segment(
        seq!['{'] + name + seq!['+'] + text + seq!['}'] + after,
        name,
        Some(text),
        after,
        m,
    );
    assert(seq![] + rendered(after, m) =~= rendered(after, m));
    if let Some(value) = field(name, m) {
        assert(value + text + rendered(after, m) =~= (value + text) + rendered(after, m));
    }
}

/// Text in front of the first brace stays as it is, and so does a brace that no name
/// follows.
pub proof fn law_the_rest_stays(c: char, next: Seq<char>, m: InfoModel)
    ensures
        rendered(seq![], m) == Seq::<char>::empty(),
        c != '{' ==> rendered(seq![c] + next, m) == seq![c] + rendered(next, m),
        next.len() == 0 || !('a' <= next[0] <= 'z' || next[0] == '_') ==> rendered(
            seq!['{'] + next,
            m,
        ) == seq!['{'] + rendered(next, m),
{
    let s = seq![c] + next;
    assert(s.skip(1) =~= next);
    if c != '{' && at_segment(s) {
        let (n, x) = segment_at(s);
        assert(segment_text(n, x)[0] == '{');
    }
    let t = seq!['{'] + next;
    assert(t.skip(1) =~= next);
    if at_segment(t) {
        let (n, x) = segment_at(t);
        let text = segment_text(n, x);
        assert(text[1] == n[0]);
        assert(t[1] == n[0]);
        assert(name_char(n[0]));
        assert(next[0] == n[0]);
    }
}

proof fn lemma_plain_start(plain: Seq<char>, rest: Seq<char>, m: InfoModel)
    requires
        forall|i: int| 0 <= i < plain.len() ==> #[trigger] plain[i] != '{',
    ensures
        rendered(plain + rest, m) == plain + rendered(rest, m),
    decreases plain.len(),
{
    if plain.len() == 0 {
        assert(plain + rest =~= rest);
        assert(plain + rendered(rest, m) =~= rendered(rest, m));
    } else {
        let tail = plain.skip(1);
        assert(plain + rest =~= seq![plain[0]] + (tail + rest));
        assert forall|i: int| 0 <= i < tail.len() implies #[trigger] tail[i] != '{' by {
            assert(tail[i] == plain[i + 1]);
        }
        lemma_plain_start(tail, rest, m);
        law_the_rest_stays(plain[0], tail + rest, m);
        assert(seq![plain[0]] + (tail + rendered(rest, m)) =~= plain + rendered(rest, m));
    }
}

/// What is said where nothing was configured: who streams, in bold, and in front of
/// that a mention of whom to ping, where there is someone.
pub proof fn law_default_formats(m: InfoModel)
    ensures
        ({
            let ping = match m.ping {
                Some(p) => "<@"@ + p + ">, "@,
                None => Seq::<char>::empty(),
            };
            &&& rendered(DEFAULT_ONLINE_FORMAT@, m) == ping + "**"@ + m.user_name
                + "** is streaming! :tada:"@
            &&& rendered(DEFAULT_OFFLINE_FORMAT@, m) == ping + "**"@ + m.user_name
                + "** streamed :projector:"@
        }),
{
    lemma_default_format(DEFAULT_ONLINE_FORMAT@, "** is streaming! :tada:"@, m);
    lemma_default_format(DEFAULT_OFFLINE_FORMAT@, "** streamed :projector:"@, m);
}

proof fn lemma_default_format(s: Seq<char>, end: Seq<char>, m: InfoModel)
    requires
        (s == DEFAULT_ONLINE_FORMAT@ && end == "** is streaming! :tada:"@) || (s
            == DEFAULT_OFFLINE_FORMAT@ && end == "** streamed :projector:"@),
    ensures
        ({
            let ping = match m.ping {
                Some(p) => "<@"@ + p + ">, "@,
                None => Seq::<char>::empty(),
            };
            rendered(s, m) == ping + "**"@ + m.user_name + end
        }),
{
    reveal_strlit("{ping+, }**{user_name}** is streaming! :tada:");
    reveal_strlit("{ping+, }**{user_name}** streamed :projector:");
    reveal_strlit("** is streaming! :tada:");
    reveal_strlit("** streamed :projector:");
    reveal_strlit("ping");
    reveal_strlit("user_name");
    reveal_strlit("**");
    reveal_strlit(", ");
    reveal_strlit(">");
    reveal_strlit(">, ");
    let ping_name = "ping"@;
    let comma = ", "@;
    let user = "user_name"@;
    let rest2 = end;
    let rest1 = "**"@ + (seq!['{'] + user + seq!['}'] + rest2);
    assert(s =~= seq!['{'] + ping_name + seq!['+'] + comma + seq!['}'] + rest1);
    law_names_stand_for_fields(m);
    law_names_in_braces(ping_name, comma, rest1, m);
    lemma_plain_start("**"@, seq!['{'] + user + seq!['}'] + rest2, m);
    law_names_in_braces(user, comma, rest2, m);
    law_plain_format(rest2, m);
    let tail = "**"@ + m.user_name + end;
    assert("**"@ + (m.user_name + end) =~= tail);
    match m.ping {
        Some(p) => {
            assert("<@"@ + p + ">"@ + comma + tail =~= "<@"@ + p + ">, "@ + "**"@ + m.user_name
                + end);
        },
        None => {
            assert(tail =~= Seq::<char>::empty() + "**"@ + m.user_name + end);
        },
    }
}

/// Any other name stands for nothing.
pub proof fn law_other_names_stand_for_nothing(name: Seq<char>, m: InfoModel)
    requires
        name != "game_name"@,
        name != "viewer_count"@,
        name != "started_at"@,
        name != "user_name"@,
        name != "user_login"@,
        name != "user_icon"@,
        name != "game_id"@,
        name != "stream_id"@,
        name != "stream_title"@,
        name != "stream_thumbnail"@,
        name != "video_id"@,
        name != "ping"@,
        name != "offline"@,
    ensures
        field(name, m) is None,
{
}

/// A brace that a name follows, but neither a closing brace nor a plus behind it, stays as it
/// is; and so does one with nothing between the plus and the closing brace.
pub proof fn law_broken_braces_stay(
    name: Seq<char>,
    c: char,
    rest: Seq<char>,
    m: InfoModel,
)
    requires
        forall|i: int| 0 <= i < name.len() ==> ('a' <= #[trigger] name[i] <= 'z' || name[i] == '_'),
        !('a' <= c <= 'z') && c != '_' && c != '}' && c != '+',
    ensures
        rendered(seq!['{'] + name + seq![c] + rest, m) == seq!['{'] + rendered(
            name + seq![c] + rest,
            m,
        ),
        rendered(seq!['{'] + name + seq!['+', '}'] + rest, m) == seq!['{'] + rendered(
            name + seq!['+', '}'] + rest,
            m,
        ),
        rendered(seq!['{'] + name, m) == seq!['{'] + rendered(name, m),
{
    let s = seq!['{'] + name + seq![c] + rest;
    assert(s.skip(1) =~= name + seq![c] + rest);
    assert forall|i: int| 0 <= i < name.len() implies s[1 + i] == name[i] by {}
    assert(s[1 + name.len() as int] == c);
    if at_segment(s) {
        lemma_segment_name(s, name, segment_at(s).0, segment_at(s).1);
    }
    let t = seq!['{'] + name + seq!['+', '}'] + rest;
    assert(t.skip(1) =~= name + seq!['+', '}'] + rest);
    assert forall|i: int| 0 <= i < name.len() implies t[1 + i] == name[i] by {}
    assert(t[1 + name.len() as int] == '+');
    assert(t[2 + name.len() as int] == '}');
    if at_segment(t) {
        let (n, x) = segment_at(t);
        lemma_segment_name(t, name, n, x);
        let y = x->0;
        assert(segment_text(n, x)[2 + n.len() as int] == y[0]);
        assert(y[0] != '}');
    }
    let u = seq!['{'] + name;
    assert(u.skip(1) =~= name);
    if at_segment(u) {
        let (n, x) = segment_at(u);
        let text = segment_text(n, x);
        let end = text[1 + n.len() as int];
        assert(end == (if x is Some { '+' } else { '}' }));
        assert(u[1 + n.len() as int] == end);
        assert(name[n.len() as int] == end);
    }
}

proof fn lemma_segment_name(s: Seq<char>, name: Seq<char>, n: Seq<char>, x: Option<Seq<char>>)
    requires
        segment_starts(s, n, x),
        s.len() > 1 + name.len(),
        forall|i: int| 0 <= i < name.len() ==> s[1 + i] == #[trigger] name[i],
        forall|i: int| 0 <= i < name.len() ==> name_char(#[trigger] name[i]),
        !name_char(s[1 + name.len() as int]),
    ensures
        n.len() == name.len(),
        s[1 + name.len() as int] == (if x is Some {
            '+'
        } else {
            '}'
        }),
{
    let text = segment_text(n, x);
    assert forall|i: int| 0 <= i < n.len() implies s[1 + i] == #[trigger] n[i] by {
        assert(text[1 + i] == n[i]);
    }
    let end = text[1 + n.len() as int];
    assert(end == (if x is Some { '+' } else { '}' }));
    assert(s[1 + n.len() as int] == end);
    if n.len() < name.len() {
        assert(name[n.len() as int] == end);
    }
    if n.len() > name.len() {
        assert(name_char(n[name.len() as int]));
    }
}

} // verus!
