//! Where Twitch is found.

use vstd::prelude::*;

use crate::text::opt_text;

verus! {

/// Where Twitch delivers events, unless told otherwise.
pub const EVENTSUB_WEBSOCKET_URL: &'static str = "wss://eventsub.wss.twitch.tv/ws";

/// `twitch_api::TWITCH_EVENTSUB_WEBSOCKET_URL`, as text.
///
/// Trusted: it is this address, as the `mock_api` feature of `twitch_api` is
/// not enabled.
#[verifier::external_body]
fn default_ws_url() -> (r: String)
    ensures
        r@ == EVENTSUB_WEBSOCKET_URL@,
{
    twitch_api::TWITCH_EVENTSUB_WEBSOCKET_URL.to_string()
}

/// Where to connect: the address that was set, or the one of Twitch.
pub open spec fn ws_url(init: Option<Seq<char>>) -> Seq<char> {
    match init {
        Some(url) => url,
        None => EVENTSUB_WEBSOCKET_URL@,
    }
}

/// Where to connect, given the value of `TWITCH_INIT`.
pub fn twitch_ws_url(init: Option<String>) -> (r: String)
    ensures
        r@ == ws_url(opt_text(init)),
{
    match init {
        Some(url) => url,
        None => default_ws_url(),
    }
}

// ---------------------------------------------------------------------------
// Laws
// ---------------------------------------------------------------------------


/// An address that was set is where to connect, whatever it is; where none was
/// set, it is the one of Twitch.
pub proof fn law_a_set_address_counts(url: Seq<char>)
    ensures
        ws_url(Some(url)) == url,
        ws_url(None) == "wss://eventsub.wss.twitch.tv/ws"@,
{
}

} // verus!
