//! Addresses: percent-encoding, building a URL, reading its query back.

use url_builder::URLBuilder;
use vstd::prelude::*;
use vstd::string::*;
use vstd::utf8::encode_utf8;

verus! {

// ---------------------------------------------------------------------------
// Percent-encoding
// ---------------------------------------------------------------------------

/// The bytes that stand for themselves: letters, digits and `-._~`.
pub open spec fn unreserved(b: u8) -> bool {
    ||| 0x30 <= b <= 0x39
    ||| 0x41 <= b <= 0x5A
    ||| 0x61 <= b <= 0x7A
    ||| b == 0x2D
    ||| b == 0x2E
    ||| b == 0x5F
    ||| b == 0x7E
}

/// A hexadecimal digit, in upper case.
pub open spec fn hex_digit(d: int) -> char {
    if d < 10 {
        (48 + d) as char
    } else {
        (55 + d) as char
    }
}

/// A byte as itself, or as `%` and two hexadecimal digits.
pub open spec fn encoded_byte(b: u8) -> Seq<char> {
    if unreserved(b) {
        seq![b as char]
    } else {
        seq!['%', hex_digit(b as int / 16), hex_digit(b as int % 16)]
    }
}

pub open spec fn encoded_bytes(bytes: Seq<u8>) -> Seq<char>
    decreases bytes.len(),
{
    if bytes.len() == 0 {
        seq![]
    } else {
        encoded_bytes(bytes.drop_last()) + encoded_byte(bytes.last())
    }
}

/// `text` with every byte of its UTF-8 form percent-encoded but the unreserved
/// ones.
pub open spec fn encoded(text: Seq<char>) -> Seq<char> {
    encoded_bytes(encode_utf8(text))
}

/// What needs no encoding stays as it is.
pub proof fn lemma_encoded_plain(text: Seq<char>)
    requires
        forall|i: int| 0 <= i < text.len() ==> '\0' <= #[trigger] text[i] <= '\u{7f}',
        forall|i: int| 0 <= i < text.len() ==> unreserved((#[trigger] text[i]) as u8),
    ensures
        encoded(text) == text,
{
    assert(vstd::utf8::is_ascii_chars(text));
    vstd::utf8::is_ascii_chars_encode_utf8(text);
    let bytes = encode_utf8(text);
    assert forall|i: int| 0 <= i < bytes.len() implies unreserved(#[trigger] bytes[i]) by {
        assert(text[i] as u8 == bytes[i]);
    }
    lemma_encoded_bytes_plain(bytes);
    assert forall|i: int| 0 <= i < text.len() implies #[trigger] text[i] == bytes[i] as char by {
        assert(text[i] as u8 == bytes[i]);
    }
    assert(encoded(text) =~= text);
}

proof fn lemma_encoded_bytes_plain(bytes: Seq<u8>)
    requires
        forall|i: int| 0 <= i < bytes.len() ==> unreserved(#[trigger] bytes[i]),
    ensures
        encoded_bytes(bytes) == bytes.map_values(|b: u8| b as char),
    decreases bytes.len(),
{
    if bytes.len() > 0 {
        let rest = bytes.drop_last();
        lemma_encoded_bytes_plain(rest);
    }
    assert(encoded_bytes(bytes) =~= bytes.map_values(|b: u8| b as char));
}

/// `urlencoding::encode`.
///
/// Trusted: every byte of the UTF-8 form is percent-encoded, in upper case,
/// except letters, digits, `-`, `.`, `_` and `~`, which stay.
#[verifier::external_body]
pub(crate) fn percent_encode(text: &str) -> (r: String)
    ensures
        r@ == encoded(text@),
{
    urlencoding::encode(text).into_owned()
}

// ---------------------------------------------------------------------------
// Building
// ---------------------------------------------------------------------------

/// `url_builder::URLBuilder`: a protocol, a host, a port, routes, and
/// parameters in no order.
#[verifier::external_type_specification]
#[verifier::external_body]
pub struct ExURLBuilder(URLBuilder);

/// The parameters that a builder holds.
pub uninterp spec fn url_params(b: URLBuilder) -> Map<Seq<char>, Seq<char>>;

/// What a builder puts before its parameters: the protocol, the host, then
/// each route.
pub uninterp spec fn url_parts(b: URLBuilder) -> Seq<Seq<char>>;

/// The port of a builder, zero for none.
pub uninterp spec fn url_port(b: URLBuilder) -> u16;

/// Each route behind a slash.
pub open spec fn routes_text(routes: Seq<Seq<char>>) -> Seq<char>
    decreases routes.len(),
{
    if routes.len() == 0 {
        seq![]
    } else {
        routes_text(routes.drop_last()) + seq!['/'] + routes.last()
    }
}

/// `key=value` pairs with `&` between them.
pub open spec fn query_text(pairs: Seq<(Seq<char>, Seq<char>)>) -> Seq<char>
    decreases pairs.len(),
{
    if pairs.len() == 0 {
        seq![]
    } else if pairs.len() == 1 {
        pairs[0].0 + seq!['='] + pairs[0].1
    } else {
        query_text(pairs.drop_last()) + seq!['&'] + pairs.last().0 + seq!['='] + pairs.last().1
    }
}

/// Protocol, host and routes, without a port.
pub open spec fn base_text(parts: Seq<Seq<char>>) -> Seq<char> {
    parts[0] + "://"@ + parts[1] + routes_text(parts.skip(2))
}

/// Whether `pairs` lists the parameters `params`, each once, in some order.
pub open spec fn lists_params(
    pairs: Seq<(Seq<char>, Seq<char>)>,
    params: Map<Seq<char>, Seq<char>>,
) -> bool {
    &&& forall|i: int|
        0 <= i < pairs.len() ==> params.contains_pair((#[trigger] pairs[i]).0, pairs[i].1)
    &&& forall|i: int, j: int| 0 <= i < j < pairs.len() ==> pairs[i].0 != pairs[j].0
    &&& forall|k: Seq<char>| #[trigger]
        params.contains_key(k) ==> exists|i: int| 0 <= i < pairs.len() && pairs[i].0 == k
}

/// `url_builder::URLBuilder::new`.
///
/// Trusted: protocol and host are empty, and nothing else is set.
#[verifier::external_body]
pub(crate) fn new_url() -> (r: URLBuilder)
    ensures
        url_parts(r) == seq![Seq::<char>::empty(), Seq::<char>::empty()],
        url_params(r).dom().is_empty(),
        url_port(r) == 0,
{
    URLBuilder::new()
}

/// `url_builder::URLBuilder::set_protocol`.
///
/// Trusted: it replaces the protocol and nothing else.
#[verifier::external_body]
pub(crate) fn set_protocol(b: &mut URLBuilder, protocol: &str)
    ensures
        url_parts(*final(b)) == url_parts(*old(b)).update(0, protocol@),
        url_params(*final(b)) == url_params(*old(b)),
        url_port(*final(b)) == url_port(*old(b)),
{
    b.set_protocol(protocol);
}

/// `url_builder::URLBuilder::set_host`.
///
/// Trusted: it replaces the host and nothing else.
#[verifier::external_body]
pub(crate) fn set_host(b: &mut URLBuilder, host: &str)
    ensures
        url_parts(*final(b)) == url_parts(*old(b)).update(1, host@),
        url_params(*final(b)) == url_params(*old(b)),
        url_port(*final(b)) == url_port(*old(b)),
{
    b.set_host(host);
}

/// `url_builder::URLBuilder::add_route`.
///
/// Trusted: it adds a route behind the others and changes nothing else.
#[verifier::external_body]
pub(crate) fn add_route(b: &mut URLBuilder, route: &str)
    ensures
        url_parts(*final(b)) == url_parts(*old(b)).push(route@),
        url_params(*final(b)) == url_params(*old(b)),
        url_port(*final(b)) == url_port(*old(b)),
{
    b.add_route(route);
}

/// `url_builder::URLBuilder::add_param`.
///
/// Trusted: it sets the parameter, over an earlier one of the same name, and
/// changes nothing else.
#[verifier::external_body]
pub(crate) fn add_param(b: &mut URLBuilder, param: &str, value: &str)
    ensures
        url_parts(*final(b)) == url_parts(*old(b)),
        url_params(*final(b)) == url_params(*old(b)).insert(param@, value@),
        url_port(*final(b)) == url_port(*old(b)),
{
    b.add_param(param, value);
}

/// Whether `text` is what a builder without a port can build: its parameters
/// follow a question mark, in some order, where there are any.
pub open spec fn built_url(
    parts: Seq<Seq<char>>,
    params: Map<Seq<char>, Seq<char>>,
    text: Seq<char>,
) -> bool {
    if params == Map::<Seq<char>, Seq<char>>::empty() {
        text == base_text(parts)
    } else {
        exists|pairs: Seq<(Seq<char>, Seq<char>)>|
            #![trigger query_text(pairs)]
            lists_params(pairs, params) && text == base_text(parts) + seq!['?'] + query_text(pairs)
    }
}

/// `url_builder::URLBuilder::build`.
///
/// Trusted: the text is the protocol, `://`, the host, the routes and, behind
/// a question mark, the parameters, each once. Their order is left unsaid: the
/// builder keeps them in a hash map.
#[verifier::external_body]
pub(crate) fn build(b: URLBuilder) -> (r: String)
    requires
        url_port(b) == 0,
    ensures
        built_url(url_parts(b), url_params(b), r@),
{
    b.build()
}

// ---------------------------------------------------------------------------
// Reading
// ---------------------------------------------------------------------------

/// The decoded query pairs that `reqwest::Url` finds in a URL, if it accepts
/// the URL.
pub uninterp spec fn query_pairs(url: Seq<char>) -> Option<Seq<(Seq<char>, Seq<char>)>>;

/// Both sides of each pair percent-encoded.
pub open spec fn encoded_pairs(pairs: Seq<(Seq<char>, Seq<char>)>) -> Seq<
    (Seq<char>, Seq<char>),
> {
    pairs.map_values(|p: (Seq<char>, Seq<char>)| (encoded(p.0), encoded(p.1)))
}

/// What pairs of strings hold.
pub open spec fn pairs_model(pairs: Seq<(String, String)>) -> Seq<(Seq<char>, Seq<char>)> {
    pairs.map_values(|p: (String, String)| (p.0@, p.1@))
}

/// What optional pairs of strings hold.
pub open spec fn opt_pairs_model(r: Option<Vec<(String, String)>>) -> Option<
    Seq<(Seq<char>, Seq<char>)>,
> {
    match r {
        Some(pairs) => Some(pairs_model(pairs@)),
        None => None,
    }
}

/// The host of the thumbnails.
pub const THUMBNAIL_HOST: &'static str = "static-cdn.jtvnw.net";

/// Whether `path` starts at a slash and ends where the query begins.
pub open spec fn plain_path(path: Seq<char>) -> bool {
    &&& path.len() > 0 && path[0] == '/'
    &&& forall|i: int| 0 <= i < path.len() ==> #[trigger] path[i] != '?' && path[i] != '#'
}

/// Whether a character stands in a path as it is, in one byte.
pub open spec fn plain_in_path(c: char) -> bool {
    ||| 'a' <= c <= 'z'
    ||| 'A' <= c <= 'Z'
    ||| '0' <= c <= '9'
    ||| c == '-'
    ||| c == '_'
    ||| c == '.'
    ||| c == '~'
    ||| c == '/'
}

/// Whether the reader can tell where the query behind a path begins: it counts
/// the bytes in front of it in 32 bits, and a character takes up to twelve once
/// it is encoded. How long the query is does not matter.
pub open spec fn in_reach(path: Seq<char>) -> bool {
    let front = ("https://"@ + THUMBNAIL_HOST@).len();
    ||| front + 12 * path.len() < u32::MAX
    ||| front + path.len() < u32::MAX && forall|i: int|
        0 <= i < path.len() ==> plain_in_path(#[trigger] path[i])
}

/// Whether `url` is the address of something at `path` on the host of the
/// thumbnails, with `pairs` percent-encoded in its query.
pub open spec fn carries_pairs(
    url: Seq<char>,
    path: Seq<char>,
    pairs: Seq<(Seq<char>, Seq<char>)>,
) -> bool {
    &&& url == "https://"@ + THUMBNAIL_HOST@ + path + seq!['?'] + query_text(encoded_pairs(pairs))
    &&& plain_path(path)
    &&& in_reach(path)
}

/// `reqwest::Url::parse` and `reqwest::Url::query_pairs`.
///
/// Trusted: whether the URL is accepted, and what pairs it holds, depends on
/// its text alone; and the pairs that were percent-encoded into the query of a
/// URL on the host of the thumbnails come back decoded, in order.
#[verifier::external_body]
pub(crate) fn read_query_pairs(url: &str) -> (r: Option<Vec<(String, String)>>)
    ensures
        opt_pairs_model(r) == query_pairs(url@),
        forall|path: Seq<char>, pairs: Seq<(Seq<char>, Seq<char>)>| #[trigger]
            carries_pairs(url@, path, pairs) ==> opt_pairs_model(r) == Some(pairs),
{
    let url = reqwest::Url::parse(url).ok()?;
    Some(url.query_pairs().map(|(a, b)| (a.into_owned(), b.into_owned())).collect())
}

} // verus!
