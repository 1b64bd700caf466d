//! What comes in over the websocket.

use std::borrow::Cow;

use twitch_api::eventsub::Event::{self, StreamOfflineV1, StreamOnlineV1};
use twitch_api::eventsub::EventsubWebsocketData::{
    Keepalive as KeepaliveData, Notification as Notified, Reconnect as ReconnectData,
    Revocation as RevocationData, Welcome as WelcomeData,
};
use twitch_api::eventsub::Message::Notification as Notice;
use twitch_api::eventsub::{Payload, PayloadParseError};
use vstd::prelude::*;

use self::EventKind::{
    Keepalive, Offline, Online, OtherNotification, Reconnect, Revocation, Unknown, Welcome,
};
use crate::text::opt_text;
use crate::time::{
    elapsed_nanos, rfc3339_moment, rfc3339_parts, zoned, UtcModel, UtcTime, ZonedModel, ZonedTime,
};

verus! {

/// What an event is about.
pub enum KindModel {
    Welcome(Seq<char>, Option<i64>),
    Keepalive,
    Online(Seq<char>),
    Offline(Seq<char>),
    OtherNotification(Seq<char>),
    Revocation,
    Reconnect(Option<Seq<char>>),
    Unknown(Seq<char>),
}

/// What an event is about.
#[derive(Debug)]
pub enum EventKind {
    /// A session began: its identifier, and how many seconds may pass without
    /// a word.
    Welcome(String, Option<i64>),
    /// The session is alive.
    Keepalive,
    /// A user's stream began.
    Online(String),
    /// A user's stream ended.
    Offline(String),
    /// Something else happened: what was said of it, as it prints.
    OtherNotification(String),
    /// A subscription was taken away.
    Revocation,
    /// The session is about to end, and goes on at another address.
    Reconnect(Option<String>),
    /// None of these: what was said, as it prints.
    Unknown(String),
}

impl View for EventKind {
    type V = KindModel;

    open spec fn view(&self) -> KindModel {
        match *self {
            EventKind::Welcome(id, keepalive) => KindModel::Welcome(id@, keepalive),
            EventKind::Keepalive => KindModel::Keepalive,
            EventKind::Online(user) => KindModel::Online(user@),
            EventKind::Offline(user) => KindModel::Offline(user@),
            EventKind::OtherNotification(text) => KindModel::OtherNotification(text@),
            EventKind::Revocation => KindModel::Revocation,
            EventKind::Reconnect(url) => KindModel::Reconnect(opt_text(url)),
            EventKind::Unknown(text) => KindModel::Unknown(text@),
        }
    }
}

/// An event: its identifier, when it was sent, and what it is about.
pub type EventModel = (Seq<char>, Seq<char>, KindModel);

/// An event.
#[derive(Debug)]
pub struct EventData {
    pub message_id: String,
    pub message_timestamp: String,
    pub kind: EventKind,
}

impl View for EventData {
    type V = EventModel;

    open spec fn view(&self) -> EventModel {
        (self.message_id@, self.message_timestamp@, self.kind@)
    }
}

/// `twitch_api::eventsub::PayloadParseError`: why an event could not be read.
#[verifier::external_type_specification]
#[verifier::external_body]
pub struct ExPayloadParseError(PayloadParseError);

/// The event that a text holds, if it holds one.
pub uninterp spec fn parsed_event(text: Seq<char>) -> Option<(Seq<char>, Seq<char>, KindModel)>;

/// What the parts of an event hold.
pub open spec fn parts_of_event(
    r: Result<(String, String, EventKind), PayloadParseError>,
) -> Option<EventModel> {
    match r {
        Ok(parts) => Some((parts.0@, parts.1@, parts.2@)),
        Err(_) => None,
    }
}

/// `twitch_api::eventsub::Event::parse_websocket`, with
/// `EventsubWebsocketData::message_id` and `message_timestamp`.
///
/// Trusted: whether a text is an event, and which, depends on the text alone,
/// and so does how an event prints that is none of those this library knows.
/// How events are written and how they print is left unsaid. A notification of
/// a stream that is read from a text always carries what happened, never the
/// answer to a subscription.
#[verifier::external_body]
fn parse_websocket(text: &str) -> (r: Result<(String, String, EventKind), PayloadParseError>)
    ensures
        parts_of_event(r) == parsed_event(text@),
{
    let data = Event::parse_websocket(text)?;
    Ok((data.message_id().into(), data.message_timestamp().to_string(), match data {
        WelcomeData { payload: p, .. } => Welcome(p.session.id.into(), p.session.keepalive_timeout_seconds),
        KeepaliveData { .. } => Keepalive,
        Notified { payload, .. } => match payload {
            StreamOnlineV1(Payload { message: Notice(n), .. }) => Online(n.broadcaster_user_id.take()),
            StreamOfflineV1(Payload { message: Notice(n), .. }) => Offline(n.broadcaster_user_id.take()),
            other => OtherNotification(format!("{other:?}"))
        }
        RevocationData { .. } => Revocation,
        ReconnectData { payload: p, .. } => Reconnect(p.session.reconnect_url.map(Cow::into_owned)),
        other => Unknown(format!("{other:?}"))
    }))
}

/// What an optional event holds.
pub open spec fn opt_event(r: Option<EventData>) -> Option<EventModel> {
    match r {
        Some(e) => Some(e@),
        None => None,
    }
}

/// Reads an event.
pub fn parse_event(text: &str) -> (r: Option<EventData>)
    ensures
        opt_event(r) == parsed_event(text@),
{
    match parse_websocket(text) {
        Ok((message_id, message_timestamp, kind)) => Some(
            EventData { message_id, message_timestamp, kind },
        ),
        Err(_) => None,
    }
}

/// Whether a moment, if there is one, lies more than ten minutes back.
pub open spec fn long_ago(sent: Option<ZonedModel>, now: UtcModel) -> bool {
    sent matches Some(t) && elapsed_nanos(now, t.utc()) > 600_000_000_000
}

/// Whether a moment, if there is one, lies more than ten minutes back.
pub fn is_long_ago(sent: Option<ZonedTime>, now: UtcTime) -> (r: bool)
    ensures
        r == long_ago(zoned(sent), now@),
{
    match sent {
        Some(t) => now.nanos_since(&t.to_utc()) > 600_000_000_000,
        None => false,
    }
}

/// Whether an event was sent more than ten minutes ago, as far as it says when
/// it was sent.
pub open spec fn old_event(e: EventModel, now: UtcModel) -> bool {
    e.2 !is Unknown && long_ago(rfc3339_moment(e.1), now)
}

/// Whether an event was sent more than ten minutes ago.
pub fn is_old(e: &EventData, now: UtcTime) -> (r: bool)
    ensures
        r == old_event(e@, now@),
{
    if let EventKind::Unknown(_) = &e.kind {
        return false;
    }
    is_long_ago(ZonedTime::parse_from_rfc3339(e.message_timestamp.as_str()), now)
}

/// The name under which events of a kind are counted.
pub open spec fn kind_text(kind: KindModel) -> Seq<char> {
    match kind {
        KindModel::Welcome(..) => "EventsubWebsocketData::Welcome"@,
        KindModel::Keepalive => "EventsubWebsocketData::Keepalive"@,
        KindModel::Online(_) => "EventsubWebsocketData::Notification"@,
        KindModel::Offline(_) => "EventsubWebsocketData::Notification"@,
        KindModel::OtherNotification(_) => "EventsubWebsocketData::Notification"@,
        KindModel::Revocation => "EventsubWebsocketData::Revocation"@,
        KindModel::Reconnect(_) => "EventsubWebsocketData::Reconnect"@,
        KindModel::Unknown(_) => "unknown"@,
    }
}

/// The name under which an event is counted.
pub fn twitch_msg_type(e: &EventData) -> (r: &'static str)
    ensures
        r@ == kind_text(e@.2),
{
    match &e.kind {
        EventKind::Welcome(..) => "EventsubWebsocketData::Welcome",
        EventKind::Keepalive => "EventsubWebsocketData::Keepalive",
        EventKind::Online(_) => "EventsubWebsocketData::Notification",
        EventKind::Offline(_) => "EventsubWebsocketData::Notification",
        EventKind::OtherNotification(_) => "EventsubWebsocketData::Notification",
        EventKind::Revocation => "EventsubWebsocketData::Revocation",
        EventKind::Reconnect(_) => "EventsubWebsocketData::Reconnect",
        EventKind::Unknown(_) => "unknown",
    }
}

// ---------------------------------------------------------------------------
// Laws
// ---------------------------------------------------------------------------


/// An event of any known kind is too old if and only if more than ten minutes
/// have passed since it was sent; one that does not say when it was sent never
/// is, and neither is one of an unknown kind.
pub proof fn law_old_after_ten_minutes(
    id: Seq<char>,
    sent: Seq<char>,
    kind: KindModel,
    now: UtcModel,
)
    ensures
        rfc3339_parts(sent) is None ==> !old_event((id, sent, kind), now),
        kind is Unknown ==> !old_event((id, sent, kind), now),
        kind !is Unknown ==> (rfc3339_parts(sent) matches Some(p) ==> (old_event(
            (id, sent, kind),
            now,
        ) <==> elapsed_nanos(now, UtcModel { secs: p.0, nanos: p.1 }) > 600 * 1_000_000_000)),
        kind !is Unknown && now.nanos < 1_000_000_000 ==> (rfc3339_parts(sent) matches Some(p)
            ==> (p.1 < 1_000_000_000 ==> (old_event((id, sent, kind), now) <==> (now.secs - p.0)
            * 1_000_000_000 + now.nanos - p.1 > 600 * 1_000_000_000))),
{
}

/// What a known kind of event is about does not make it older.
pub proof fn law_age_is_of_the_time_alone(e: EventModel, other: EventModel, now: UtcModel)
    requires
        e.1 == other.1,
        e.2 !is Unknown,
        other.2 !is Unknown,
    ensures
        old_event(e, now) == old_event(other, now),
{
}

/// A moment lies long ago if it is one, and more than ten minutes back.
pub proof fn law_long_ago(t: ZonedModel, now: UtcModel)
    ensures
        !long_ago(None, now),
        t.nanos < 1_000_000_000 && now.nanos < 1_000_000_000 ==> (long_ago(Some(t), now) <==> (
        now.secs - t.secs) * 1_000_000_000 + now.nanos - t.nanos > 600 * 1_000_000_000),
{
}

/// Whether two events are counted together: both are notifications, or both of
/// one kind.
pub open spec fn counted_together(a: KindModel, b: KindModel) -> bool {
    match a {
        KindModel::Welcome(..) => b is Welcome,
        KindModel::Keepalive => b is Keepalive,
        KindModel::Revocation => b is Revocation,
        KindModel::Reconnect(_) => b is Reconnect,
        KindModel::Unknown(_) => b is Unknown,
        _ => b is Online || b is Offline || b is OtherNotification,
    }
}

/// Notifications are counted together, and the other kinds each by itself, under
/// their names.
pub proof fn law_kinds_are_counted_apart(a: KindModel, b: KindModel)
    ensures
        a is Welcome ==> kind_text(a) == "EventsubWebsocketData::Welcome"@,
        a is Keepalive ==> kind_text(a) == "EventsubWebsocketData::Keepalive"@,
        a is Online || a is Offline || a is OtherNotification ==> kind_text(a)
            == "EventsubWebsocketData::Notification"@,
        a is Revocation ==> kind_text(a) == "EventsubWebsocketData::Revocation"@,
        a is Reconnect ==> kind_text(a) == "EventsubWebsocketData::Reconnect"@,
        a is Unknown ==> kind_text(a) == "unknown"@,
        kind_text(a) == kind_text(b) <==> counted_together(a, b),
        kind_text(a).len() > 0,
{
    reveal_strlit("EventsubWebsocketData::Welcome");
    reveal_strlit("EventsubWebsocketData::Keepalive");
    reveal_strlit("EventsubWebsocketData::Notification");
    reveal_strlit("EventsubWebsocketData::Revocation");
    reveal_strlit("EventsubWebsocketData::Reconnect");
    reveal_strlit("unknown");
    assert("EventsubWebsocketData::Welcome"@.len() == 30);
    assert("EventsubWebsocketData::Keepalive"@.len() == 32);
    assert("EventsubWebsocketData::Notification"@.len() == 35);
    assert("EventsubWebsocketData::Revocation"@.len() == 33);
    assert("EventsubWebsocketData::Reconnect"@.len() == 32);
    assert("EventsubWebsocketData::Keepalive"@[23] == 'K');
    assert("EventsubWebsocketData::Reconnect"@[23] == 'R');
}

/// What is known of an event is what it says, each thing in its place.
pub proof fn law_nothing_about_an_event_is_left_out(e: EventData)
    ensures
        e@.0 == e.message_id@,
        e@.1 == e.message_timestamp@,
        e@.2 == e.kind@,
        e.kind matches EventKind::Welcome(id, secs) ==> e.kind@ == KindModel::Welcome(id@, secs),
        e.kind is Keepalive <==> e.kind@ is Keepalive,
        e.kind matches EventKind::Online(user) ==> e.kind@ == KindModel::Online(user@),
        e.kind matches EventKind::Offline(user) ==> e.kind@ == KindModel::Offline(user@),
        e.kind matches EventKind::OtherNotification(text) ==> e.kind@
            == KindModel::OtherNotification(text@),
        e.kind is Revocation <==> e.kind@ is Revocation,
        e.kind matches EventKind::Reconnect(Some(url)) ==> e.kind@ == KindModel::Reconnect(
            Some(url@),
        ),
        e.kind == EventKind::Reconnect(None) ==> e.kind@ == KindModel::Reconnect(None),
        e.kind matches EventKind::Unknown(text) ==> e.kind@ == KindModel::Unknown(text@),
{
}

} // verus!
