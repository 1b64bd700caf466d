//! The websocket over which Twitch delivers events.
//!
//! Twitch tries hard to deliver each event at least once, even while it moves
//! a session to another place. A socket is then told that it is about to end,
//! and to connect anew with a special address. The new socket is opened first;
//! once it was welcomed, the old one is closed.

use vstd::prelude::*;
use vstd::string::*;

use crate::text::{join, opt_text};
use crate::time::{elapsed_nanos, rfc3339_parts, UtcModel, UtcTime};
use crate::twitch::client::{
    age, recently_seen, ClientModel, InnerOnlineClient,
};
use crate::twitch::event::{
    is_old, old_event, opt_event, parse_event, parsed_event, EventData, EventKind, EventModel, KindModel,
};
use crate::twitch::look::{new_look, SyncModel, SyncRun};

verus! {

// ---------------------------------------------------------------------------
// What comes in, and what to do about it
// ---------------------------------------------------------------------------

/// A message on a websocket.
#[derive(Debug)]
pub enum Message {
    Text(String),
    Binary,
    Ping,
    Pong,
    /// The end, with the reason where one was given.
    Close(Option<String>),
    /// A raw frame, which is written but never read.
    Frame,
}

/// The name under which messages of a kind are counted.
pub open spec fn msg_type_text(m: Message) -> Seq<char> {
    match m {
        Message::Text(_) => "Message::Text"@,
        Message::Binary => "Message::Binary"@,
        Message::Ping => "Message::Ping"@,
        Message::Pong => "Message::Pong"@,
        Message::Close(_) => "Message::Close"@,
        Message::Frame => "Message::Frame"@,
    }
}

/// The name under which a message is counted.
pub fn msg_type(message: &Message) -> (r: &'static str)
    ensures
        r@ == msg_type_text(*message),
{
    match message {
        Message::Text(_) => "Message::Text",
        Message::Binary => "Message::Binary",
        Message::Ping => "Message::Ping",
        Message::Pong => "Message::Pong",
        Message::Close(_) => "Message::Close",
        Message::Frame => "Message::Frame",
    }
}

/// Why a message was not dealt with.
pub enum WsErrorModel {
    Unreadable,
    Binary,
    Closed(Seq<char>),
    TooOld,
    PreviouslySeen,
    UnknownNotification(Seq<char>),
    NoReconnectAddress,
    UnknownEvent(Seq<char>),
    Subscriptions(Seq<char>),
}

/// Why a message was not dealt with.
#[derive(Debug)]
pub enum WsError {
    /// The text is no event.
    Unreadable,
    /// The message is no text.
    Binary,
    /// The socket was closed, for this reason.
    Closed(String),
    /// The event was sent too long ago.
    TooOld,
    /// The event came in before.
    PreviouslySeen,
    /// The event tells something that was not asked for.
    UnknownNotification(String),
    /// The session moves, and the event does not say where.
    NoReconnectAddress,
    /// The event is of no known kind.
    UnknownEvent(String),
    /// These subscriptions failed.
    Subscriptions(String),
}

impl View for WsError {
    type V = WsErrorModel;

    open spec fn view(&self) -> WsErrorModel {
        match *self {
            WsError::Unreadable => WsErrorModel::Unreadable,
            WsError::Binary => WsErrorModel::Binary,
            WsError::Closed(reason) => WsErrorModel::Closed(reason@),
            WsError::TooOld => WsErrorModel::TooOld,
            WsError::PreviouslySeen => WsErrorModel::PreviouslySeen,
            WsError::UnknownNotification(text) => WsErrorModel::UnknownNotification(text@),
            WsError::NoReconnectAddress => WsErrorModel::NoReconnectAddress,
            WsError::UnknownEvent(text) => WsErrorModel::UnknownEvent(text@),
            WsError::Subscriptions(list) => WsErrorModel::Subscriptions(list@),
        }
    }
}

impl WsErrorModel {
    /// The error in words.
    pub open spec fn text(self) -> Seq<char> {
        match self {
            WsErrorModel::Unreadable => "parsing failure"@,
            WsErrorModel::Binary => "Got binary message, but we don't support that"@,
            WsErrorModel::Closed(reason) => "Websocket closed? "@ + reason,
            WsErrorModel::TooOld => "Incoming message was too old to process."@,
            WsErrorModel::PreviouslySeen => "ID previously seen"@,
            WsErrorModel::UnknownNotification(text) => "Unknown event "@ + text,
            WsErrorModel::NoReconnectAddress => "Reconnect data did not have reconnect address?"@,
            WsErrorModel::UnknownEvent(text) => "Got unknown event type "@ + text + "??"@,
            WsErrorModel::Subscriptions(list) => "Multiple errors occured:\n"@ + list,
        }
    }
}

impl WsError {
    /// The error in words.
    pub fn text(&self) -> (r: String)
        ensures
            r@ == self@.text(),
    {
        match self {
            WsError::Unreadable => "parsing failure".to_owned(),
            WsError::Binary => "Got binary message, but we don't support that".to_owned(),
            WsError::Closed(reason) => join("Websocket closed? ", reason.as_str()),
            WsError::TooOld => "Incoming message was too old to process.".to_owned(),
            WsError::PreviouslySeen => "ID previously seen".to_owned(),
            WsError::UnknownNotification(text) => join("Unknown event ", text.as_str()),
            WsError::NoReconnectAddress => {
                "Reconnect data did not have reconnect address?".to_owned()
            },
            WsError::UnknownEvent(text) => {
                let mut r = join("Got unknown event type ", text.as_str());
                r.append("??");
                r
            },
            WsError::Subscriptions(list) => join("Multiple errors occured:\n", list.as_str()),
        }
    }
}

/// What to do about a message.
pub enum ReactionModel {
    Nothing,
    Disconnect,
    Subscribe(Seq<char>),
    Welcomed,
    CheckToken,
    Look(SyncModel),
    Reconnect(Seq<char>),
}

/// What to do about a message.
#[derive(Debug)]
pub enum Reaction {
    /// Nothing; the socket stays open.
    Nothing,
    /// Close the socket.
    Disconnect,
    /// Announce that this session was welcomed, deliver events to it, and
    /// subscribe to the events of every broadcaster.
    Subscribe(String),
    /// Announce that the session was welcomed: it goes on where another one
    /// left off.
    Welcomed,
    /// Refresh the access token if it is about to expire.
    CheckToken,
    /// Look at the user whom an event is about.
    Look(SyncRun),
    /// Open another socket, at this address.
    Reconnect(String),
}

impl View for Reaction {
    type V = ReactionModel;

    open spec fn view(&self) -> ReactionModel {
        match *self {
            Reaction::Nothing => ReactionModel::Nothing,
            Reaction::Disconnect => ReactionModel::Disconnect,
            Reaction::Subscribe(id) => ReactionModel::Subscribe(id@),
            Reaction::Welcomed => ReactionModel::Welcomed,
            Reaction::CheckToken => ReactionModel::CheckToken,
            Reaction::Look(sync) => ReactionModel::Look(sync@),
            Reaction::Reconnect(url) => ReactionModel::Reconnect(url@),
        }
    }
}

/// What the outcome of a message holds.
pub open spec fn outcome(r: Result<Reaction, WsError>) -> Result<ReactionModel, WsErrorModel> {
    match r {
        Ok(reaction) => Ok(reaction@),
        Err(e) => Err(e@),
    }
}

// ---------------------------------------------------------------------------
// One connection
// ---------------------------------------------------------------------------

/// One connection, which another may take the place of.
#[verifier::ext_equal]
pub struct ConnectionModel {
    pub url: Seq<char>,
    pub is_reconnect: bool,
    pub id: u16,
    /// How many seconds may pass without a word; zero until it was said.
    pub keepalive: i64,
    /// When the last sign of life came, in nanoseconds.
    pub last_keepalive: u64,
}

/// One connection, which another may take the place of.
#[derive(Debug)]
pub struct WebsocketConnection {
    pub url: String,
    pub is_reconnect: bool,
    pub id: u16,
    pub keepalive: i64,
    pub last_keepalive: u64,
}

impl View for WebsocketConnection {
    type V = ConnectionModel;

    open spec fn view(&self) -> ConnectionModel {
        ConnectionModel {
            url: self.url@,
            is_reconnect: self.is_reconnect,
            id: self.id,
            keepalive: self.keepalive,
            last_keepalive: self.last_keepalive,
        }
    }
}

/// Whether an event counts: it is recent, of a known kind, and new.
pub open spec fn accepted(client: ClientModel, e: EventModel, now: UtcModel, clock: u64) -> bool {
    &&& !old_event(e, now)
    &&& e.2 !is Unknown
    &&& !recently_seen(client.seen, e.0, clock)
}

/// What to do about an event that counts.
pub open spec fn reaction(conn: ConnectionModel, kind: KindModel) -> Result<
    ReactionModel,
    WsErrorModel,
> {
    match kind {
        KindModel::Welcome(id, _) => if conn.is_reconnect {
            Ok(ReactionModel::Welcomed)
        } else {
            Ok(ReactionModel::Subscribe(id))
        },
        KindModel::Keepalive => Ok(ReactionModel::CheckToken),
        KindModel::Online(user) => Ok(
            ReactionModel::Look(new_look(seq![user])),
        ),
        KindModel::Offline(user) => Ok(
            ReactionModel::Look(new_look(seq![user])),
        ),
        KindModel::OtherNotification(text) => Err(WsErrorModel::UnknownNotification(text)),
        KindModel::Revocation => Ok(ReactionModel::Disconnect),
        KindModel::Reconnect(url) => match url {
            Some(url) => Ok(ReactionModel::Reconnect(url)),
            None => Err(WsErrorModel::NoReconnectAddress),
        },
        KindModel::Unknown(text) => Err(WsErrorModel::UnknownEvent(text)),
    }
}

/// What to do about an event.
pub open spec fn event_outcome(
    conn: ConnectionModel,
    client: ClientModel,
    e: EventModel,
    now: UtcModel,
    clock: u64,
) -> Result<ReactionModel, WsErrorModel> {
    if old_event(e, now) {
        Err(WsErrorModel::TooOld)
    } else if e.2 !is Unknown && recently_seen(client.seen, e.0, clock) {
        Err(WsErrorModel::PreviouslySeen)
    } else {
        reaction(conn, e.2)
    }
}

/// The client after an event: it remembers the event, and the session where
/// one began.
pub open spec fn client_after(
    conn: ConnectionModel,
    client: ClientModel,
    e: EventModel,
    now: UtcModel,
    clock: u64,
) -> ClientModel {
    if accepted(client, e, now, clock) {
        ClientModel {
            seen: client.seen.insert(e.0, clock),
            curr_client_id: match e.2 {
                KindModel::Welcome(id, _) => if conn.is_reconnect {
                    client.curr_client_id
                } else {
                    Some(id)
                },
                _ => client.curr_client_id,
            },
            ..client
        }
    } else {
        client
    }
}

/// The connection after an event: it has shown a sign of life, or has said how
/// often it will.
pub open spec fn connection_after(
    conn: ConnectionModel,
    client: ClientModel,
    e: EventModel,
    now: UtcModel,
    clock: u64,
) -> ConnectionModel {
    match e.2 {
        KindModel::Keepalive => if old_event(e, now) {
            conn
        } else {
            ConnectionModel { last_keepalive: clock, ..conn }
        },
        KindModel::Welcome(_, Some(keepalive)) => if accepted(client, e, now, clock) {
            ConnectionModel { keepalive, ..conn }
        } else {
            conn
        },
        _ => conn,
    }
}

/// Whether the last sign of life is much longer ago than it was said to be:
/// more than twice as long.
pub open spec fn likely_dead(conn: ConnectionModel, clock: u64) -> bool {
    conn.keepalive > 0 && age(clock, conn.last_keepalive) > 2 * conn.keepalive * 1_000_000_000
}

/// What to do about a message.
pub open spec fn message_outcome(
    conn: ConnectionModel,
    client: ClientModel,
    m: Message,
    now: UtcModel,
    clock: u64,
) -> Result<ReactionModel, WsErrorModel> {
    match read_outcome(m) {
        Ok(Some(e)) => event_outcome(conn, client, e, now, clock),
        Ok(None) => Ok(ReactionModel::Nothing),
        Err(e) => Err(e),
    }
}

/// What a message holds: an event, or nothing to act on.
pub open spec fn read_outcome(m: Message) -> Result<Option<EventModel>, WsErrorModel> {
    match m {
        Message::Text(text) => match parsed_event(text@) {
            Some(e) => Ok(Some(e)),
            None => Err(WsErrorModel::Unreadable),
        },
        Message::Binary => Err(WsErrorModel::Binary),
        Message::Ping => Ok(None),
        Message::Pong => Ok(None),
        Message::Close(reason) => Err(
            WsErrorModel::Closed(
                match reason {
                    Some(reason) => reason@,
                    None => "<no reason provided>"@,
                },
            ),
        ),
        Message::Frame => Ok(None),
    }
}

/// What was read from a message.
pub open spec fn read_model(r: Result<Option<EventData>, WsError>) -> Result<
    Option<EventModel>,
    WsErrorModel,
> {
    match r {
        Ok(event) => Ok(opt_event(event)),
        Err(e) => Err(e@),
    }
}

/// Reads a message: the event in it, if it holds anything to act on, or why it
/// cannot be read.
pub fn read_msg(msg: Message) -> (r: Result<Option<EventData>, WsError>)
    requires
        msg !is Frame,
    ensures
        read_model(r) == read_outcome(msg),
{
    match msg {
        Message::Text(text) => match parse_event(text.as_str()) {
            Some(event) => Ok(Some(event)),
            None => Err(WsError::Unreadable),
        },
        Message::Binary => Err(WsError::Binary),
        Message::Ping => Ok(None),
        Message::Pong => Ok(None),
        Message::Close(reason) => Err(
            WsError::Closed(
                match reason {
                    Some(reason) => reason,
                    None => "<no reason provided>".to_owned(),
                },
            ),
        ),
        Message::Frame => Ok(None),
    }
}

/// The event that a message holds, if it holds one.
pub open spec fn event_in(m: Message) -> Option<EventModel> {
    match m {
        Message::Text(text) => parsed_event(text@),
        _ => None,
    }
}

/// A connection that has not shown a sign of life yet.
pub open spec fn new_connection(
    url: Seq<char>,
    is_reconnect: bool,
    id: u16,
    clock: u64,
) -> ConnectionModel {
    ConnectionModel { url, is_reconnect, id, keepalive: 0, last_keepalive: clock }
}

impl WebsocketConnection {
    /// A connection that has not shown a sign of life yet.
    pub fn new(url: String, is_reconnect: bool, id: u16, clock: u64) -> (r: WebsocketConnection)
        ensures
            r@ == new_connection(url@, is_reconnect, id, clock),
            r@ == (ConnectionModel {
                url: url@,
                is_reconnect,
                id,
                keepalive: 0,
                last_keepalive: clock,
            }),
    {
        WebsocketConnection { url, is_reconnect, id, keepalive: 0, last_keepalive: clock }
    }

    /// Whether the last sign of life is far past when it was due.
    pub fn is_likely_dead(&self, clock: u64) -> (r: bool)
        ensures
            r == likely_dead(self@, clock),
    {
        if self.keepalive <= 0 {
            return false;
        }
        let silence: u64 = if clock >= self.last_keepalive {
            clock - self.last_keepalive
        } else {
            0
        };
        silence as i128 > 2 * self.keepalive as i128 * 1_000_000_000
    }

    /// Takes a message in: says what to do about it, or why nothing is done.
    pub fn handle_websocket_msg(
        &mut self,
        client: &mut InnerOnlineClient,
        msg: Message,
        now: UtcTime,
        clock: u64,
    ) -> (r: Result<Reaction, WsError>)
        requires
            msg !is Frame,
        ensures
            outcome(r) == message_outcome(old(self)@, old(client)@, msg, now@, clock),
            match event_in(msg) {
                Some(e) => {
                    &&& final(client)@ == client_after(
                        old(self)@,
                        old(client)@,
                        e,
                        now@,
                        clock,
                    )
                    &&& final(self)@ == connection_after(
                        old(self)@,
                        old(client)@,
                        e,
                        now@,
                        clock,
                    )
                },
                None => final(client)@ == old(client)@ && final(self)@ == old(self)@,
            },
    {
        match read_msg(msg) {
            Ok(Some(event)) => self.handle_event_data(client, event, now, clock),
            Ok(None) => Ok(Reaction::Nothing),
            Err(e) => Err(e),
        }
    }

    /// Takes an event in: says what to do about it, or why nothing is done.
    pub fn handle_event_data(
        &mut self,
        client: &mut InnerOnlineClient,
        event: EventData,
        now: UtcTime,
        clock: u64,
    ) -> (r: Result<Reaction, WsError>)
        ensures
            outcome(r) == event_outcome(old(self)@, old(client)@, event@, now@, clock),
            final(client)@ == client_after(old(self)@, old(client)@, event@, now@, clock),
            final(self)@ == connection_after(old(self)@, old(client)@, event@, now@, clock),
    {
        if is_old(&event, now) {
            return Err(WsError::TooOld);
        }
        match event.kind {
            EventKind::Unknown(text) => {
                return Err(WsError::UnknownEvent(text));
            },
            EventKind::Keepalive => {
                self.last_keepalive = clock;
            },
            _ => {},
        }
        if client.dedupe(event.message_id, clock).is_err() {
            return Err(WsError::PreviouslySeen);
        }
        match event.kind {
            EventKind::Welcome(session_id, keepalive) => {
                if let Some(keepalive) = keepalive {
                    self.keepalive = keepalive;
                }
                if self.is_reconnect {
                    Ok(Reaction::Welcomed)
                } else {
                    client.set_client_id(session_id.clone());
                    Ok(Reaction::Subscribe(session_id))
                }
            },
            EventKind::Keepalive => Ok(Reaction::CheckToken),
            EventKind::Online(user) => Ok(Reaction::Look(client.notify(user))),
            EventKind::Offline(user) => Ok(Reaction::Look(client.notify(user))),
            EventKind::OtherNotification(text) => Err(WsError::UnknownNotification(text)),
            EventKind::Revocation => Ok(Reaction::Disconnect),
            EventKind::Reconnect(url) => match url {
                Some(url) => Ok(Reaction::Reconnect(url)),
                None => Err(WsError::NoReconnectAddress),
            },
            EventKind::Unknown(text) => Err(WsError::UnknownEvent(text)),
        }
    }
}

/// Whether a socket stays open.
pub open spec fn stays_open(reaction: ReactionModel) -> bool {
    reaction !is Disconnect
}

impl Reaction {
    /// Whether the socket stays open: it is closed only to start over.
    pub fn stays_connected(&self) -> (r: bool)
        ensures
            r == stays_open(self@),
            r == (self@ !is Disconnect),
    {
        match self {
            Reaction::Disconnect => false,
            _ => true,
        }
    }
}

// ---------------------------------------------------------------------------
// Subscriptions
// ---------------------------------------------------------------------------

/// What went wrong with the two subscriptions of each broadcaster.
pub type Failures = Seq<(Option<Seq<char>>, Option<Seq<char>>)>;

/// What a list of failures holds.
pub open spec fn failures_model(results: Seq<(Option<String>, Option<String>)>) -> Failures {
    results.map_values(
        |p: (Option<String>, Option<String>)|
            (opt_text(p.0), opt_text(p.1)),
    )
}

/// A list with one line more, where there is something to say.
pub open spec fn and_line(lines: Seq<Seq<char>>, error: Option<Seq<char>>) -> Seq<Seq<char>> {
    match error {
        Some(e) => lines.push("- "@ + e),
        None => lines,
    }
}

/// A line for each failure, in order.
pub open spec fn failure_lines(results: Failures) -> Seq<Seq<char>>
    decreases results.len(),
{
    if results.len() == 0 {
        seq![]
    } else {
        and_line(
            and_line(failure_lines(results.drop_last()), results.last().0),
            results.last().1,
        )
    }
}

/// Lines with line breaks between them.
pub open spec fn joined(lines: Seq<Seq<char>>) -> Seq<char>
    decreases lines.len(),
{
    if lines.len() == 0 {
        seq![]
    } else if lines.len() == 1 {
        lines[0]
    } else {
        joined(lines.drop_last()) + "\n"@ + lines.last()
    }
}

fn add_line(text: &mut String, lines: Ghost<Seq<Seq<char>>>, some: bool, error: &Option<String>)
    -> (r: bool)
    requires
        old(text)@ == joined(lines@),
        some == (lines@.len() > 0),
    ensures
        final(text)@ == joined(and_line(lines@, opt_text(*error))),
        r == (and_line(lines@, opt_text(*error)).len() > 0),
{
    match error {
        Some(e) => {
            let line = join("- ", e.as_str());
            let ghost after = lines@.push(line@);
            if some {
                text.append("\n");
            }
            text.append(line.as_str());
            proof {
                assert(after.drop_last() =~= lines@);
                if !some {
                    assert(text@ =~= after[0]);
                }
            }
            true
        },
        None => some,
    }
}

/// Whether the subscriptions of all broadcasters went well.
pub fn subscriptions_outcome(results: &Vec<(Option<String>, Option<String>)>) -> (r: Result<
    (),
    WsError,
>)
    ensures
        ({
            let lines = failure_lines(failures_model(results@));
            match r {
                Ok(_) => lines.len() == 0,
                Err(e) => lines.len() > 0 && e@ == WsErrorModel::Subscriptions(joined(lines)),
            }
        }),
{
    let mut text = String::new();
    let mut some = false;
    let mut i: usize = 0;
    let ghost all = failures_model(results@);
    while i < results.len()
        invariant
            i <= results.len(),
            all == failures_model(results@),
            text@ == joined(failure_lines(all.take(i as int))),
            some == (failure_lines(all.take(i as int)).len() > 0),
        decreases results.len() - i,
    {
        let ghost lines = failure_lines(all.take(i as int));
        proof {
            assert(all.take(i + 1).drop_last() =~= all.take(i as int));
            assert(all.take(i + 1).last() == all[i as int]);
        }
        let ghost first = opt_text(results[i as int].0);
        some = add_line(&mut text, Ghost(lines), some, &results[i].0);
        some = add_line(&mut text, Ghost(and_line(lines, first)), some, &results[i].1);
        i += 1;
    }
    assert(all.take(i as int) =~= all);
    if some {
        Err(WsError::Subscriptions(text))
    } else {
        Ok(())
    }
}

// ---------------------------------------------------------------------------
// The loop of one connection
// ---------------------------------------------------------------------------

/// What a connection meets with.
#[derive(Clone, Copy, Debug, PartialEq, Eq, Structural)]
pub enum SocketInput {
    /// The bot is shutting down.
    Closing,
    /// Another connection has taken over.
    Replaced,
    /// The other side is gone.
    Ended,
    /// A message could not be read.
    Failed,
    /// A message was dealt with, and the socket stays open or does not.
    Handled(bool),
    /// A message was not dealt with.
    NotHandled,
}

/// What a connection does next.
#[derive(Clone, Copy, Debug, PartialEq, Eq, Structural)]
pub enum SocketStep {
    /// It waits for the next message.
    Continue,
    /// It ends.
    Stop,
    /// It closes the socket and ends.
    CloseAndStop,
}

/// What a connection does next.
pub open spec fn socket_step(input: SocketInput) -> SocketStep {
    match input {
        SocketInput::Handled(true) => SocketStep::Continue,
        SocketInput::Handled(false) => SocketStep::CloseAndStop,
        SocketInput::NotHandled => SocketStep::Continue,
        _ => SocketStep::Stop,
    }
}

/// What a connection does next. A message that was not dealt with is no reason
/// to end it.
pub fn run_websocket_inner(input: SocketInput) -> (r: SocketStep)
    ensures
        r == socket_step(input),
        r == match input {
            SocketInput::Closing => SocketStep::Stop,
            SocketInput::Replaced => SocketStep::Stop,
            SocketInput::Ended => SocketStep::Stop,
            SocketInput::Failed => SocketStep::Stop,
            SocketInput::Handled(true) => SocketStep::Continue,
            SocketInput::Handled(false) => SocketStep::CloseAndStop,
            SocketInput::NotHandled => SocketStep::Continue,
        },
{
    match input {
        SocketInput::Closing => SocketStep::Stop,
        SocketInput::Replaced => SocketStep::Stop,
        SocketInput::Ended => SocketStep::Stop,
        SocketInput::Failed => SocketStep::Stop,
        SocketInput::Handled(stay_connected) => if stay_connected {
            SocketStep::Continue
        } else {
            SocketStep::CloseAndStop
        },
        SocketInput::NotHandled => SocketStep::Continue,
    }
}

// ---------------------------------------------------------------------------
// Laws
// ---------------------------------------------------------------------------

/// An event that was dealt with is refused when it comes in again within ten
/// minutes, on this connection or on another, and changes nothing but the time
/// of the last sign of life.
pub proof fn law_events_count_once(
    conn: ConnectionModel,
    other: ConnectionModel,
    client: ClientModel,
    e: EventModel,
    now: UtcModel,
    clock: u64,
    later: UtcModel,
    later_clock: u64,
)
    requires
        accepted(client, e, now, clock),
        clock <= later_clock < clock + 600_000_000_000,
    ensures
        ({
            let after = client_after(conn, client, e, now, clock);
            &&& event_outcome(other, after, e, later, later_clock) is Err
            &&& client_after(other, after, e, later, later_clock) == after
            &&& connection_after(other, after, e, later, later_clock).keepalive == other.keepalive
        }),
{
}

/// A connection that was just opened, or that just showed a sign of life, does
/// not look dead.
pub proof fn law_signs_of_life(conn: ConnectionModel, clock: u64)
    requires
        conn.last_keepalive == clock,
    ensures
        !likely_dead(conn, clock),
{
    if conn.keepalive > 0 {
        assert(2 * conn.keepalive * 1_000_000_000 >= 0) by (nonlinear_arith)
            requires
                conn.keepalive > 0,
        ;
    }
}

/// Whether an event is new: of a known kind, sent no more than ten minutes ago as
/// far as it says, and not let through in the last ten minutes.
pub open spec fn is_new(client: ClientModel, e: EventModel, now: UtcModel, clock: u64) -> bool {
    &&& e.2 !is Unknown
    &&& rfc3339_parts(e.1) matches Some(p) ==> elapsed_nanos(
        now,
        UtcModel { secs: p.0, nanos: p.1 },
    ) <= 600 * 1_000_000_000
    &&& client.seen.contains_key(e.0) ==> clock - client.seen[e.0] >= 600 * 1_000_000_000
}

/// An event is refused as too old, or as seen before, exactly where it is; one of
/// an unknown kind is refused as such.
pub proof fn law_refusals_have_a_reason(
    conn: ConnectionModel,
    client: ClientModel,
    e: EventModel,
    now: UtcModel,
    clock: u64,
)
    ensures
        ({
            let r = event_outcome(conn, client, e, now, clock);
            let late = e.2 !is Unknown && (rfc3339_parts(e.1) matches Some(p) && elapsed_nanos(
                now,
                UtcModel { secs: p.0, nanos: p.1 },
            ) > 600 * 1_000_000_000);
            &&& r == Err::<ReactionModel, WsErrorModel>(WsErrorModel::TooOld) <==> late
            &&& r == Err::<ReactionModel, WsErrorModel>(WsErrorModel::PreviouslySeen) <==> e.2
                !is Unknown && !late && client.seen.contains_key(e.0) && clock
                - client.seen[e.0] < 600 * 1_000_000_000
            &&& e.2 matches KindModel::Unknown(text) ==> r == Err::<ReactionModel, WsErrorModel>(
                WsErrorModel::UnknownEvent(text),
            )
            &&& !is_new(client, e, now, clock) ==> r is Err
        }),
{
}

/// A stream that begins or ends leads to a look at its user, and at nobody else.
pub proof fn law_streams_are_looked_at(
    conn: ConnectionModel,
    client: ClientModel,
    id: Seq<char>,
    sent: Seq<char>,
    user: Seq<char>,
    now: UtcModel,
    clock: u64,
)
    ensures
        is_new(client, (id, sent, KindModel::Online(user)), now, clock) ==> (event_outcome(
            conn,
            client,
            (id, sent, KindModel::Online(user)),
            now,
            clock,
        ) matches Ok(ReactionModel::Look(look)) && look.keys == seq![user] && look.observed
            == Set::<Seq<char>>::empty() && look.next == 0 && look.phase is Listing),
        is_new(client, (id, sent, KindModel::Offline(user)), now, clock) ==> (event_outcome(
            conn,
            client,
            (id, sent, KindModel::Offline(user)),
            now,
            clock,
        ) matches Ok(ReactionModel::Look(look)) && look.keys == seq![user] && look.observed
            == Set::<Seq<char>>::empty() && look.next == 0 && look.phase is Listing),
{
}

/// A session that begins and starts over is the one that events are delivered to
/// and subscribed for; one that goes on where another left off changes nothing
/// about that. Either says how often it will show a sign of life.
pub proof fn law_welcomes(
    conn: ConnectionModel,
    client: ClientModel,
    id: Seq<char>,
    sent: Seq<char>,
    session: Seq<char>,
    keepalive: Option<i64>,
    now: UtcModel,
    clock: u64,
)
    requires
        is_new(client, (id, sent, KindModel::Welcome(session, keepalive)), now, clock),
    ensures
        ({
            let e = (id, sent, KindModel::Welcome(session, keepalive));
            let r = event_outcome(conn, client, e, now, clock);
            let after = client_after(conn, client, e, now, clock);
            let then = connection_after(conn, client, e, now, clock);
            &&& !conn.is_reconnect ==> r == Ok::<ReactionModel, WsErrorModel>(
                ReactionModel::Subscribe(session),
            ) && after.curr_client_id == Some(session)
            &&& conn.is_reconnect ==> r == Ok::<ReactionModel, WsErrorModel>(
                ReactionModel::Welcomed,
            ) && after.curr_client_id == client.curr_client_id
            &&& keepalive matches Some(secs) ==> then.keepalive == secs
            &&& keepalive is None ==> then.keepalive == conn.keepalive
            &&& then.last_keepalive == conn.last_keepalive
        }),
{
}

/// What the other events lead to: a sign of life to a look at the token, a
/// subscription that was taken away to the end of the connection, a session that
/// moves to another connection at the address that was given, and anything else to
/// an error that says what it was.
pub proof fn law_other_events(
    conn: ConnectionModel,
    client: ClientModel,
    e: EventModel,
    now: UtcModel,
    clock: u64,
)
    requires
        is_new(client, e, now, clock),
    ensures
        ({
            let r = event_outcome(conn, client, e, now, clock);
            &&& e.2 is Keepalive ==> r == Ok::<ReactionModel, WsErrorModel>(
                ReactionModel::CheckToken,
            )
            &&& e.2 is Revocation ==> r == Ok::<ReactionModel, WsErrorModel>(
                ReactionModel::Disconnect,
            )
            &&& e.2 matches KindModel::Reconnect(Some(url)) ==> r == Ok::<
                ReactionModel,
                WsErrorModel,
            >(ReactionModel::Reconnect(url))
            &&& e.2 == KindModel::Reconnect(None) ==> r == Err::<ReactionModel, WsErrorModel>(
                WsErrorModel::NoReconnectAddress,
            )
            &&& e.2 matches KindModel::OtherNotification(text) ==> r == Err::<
                ReactionModel,
                WsErrorModel,
            >(WsErrorModel::UnknownNotification(text))
        }),
{
}

/// A connection is closed to start over when a subscription was taken away, and
/// for no other event.
pub proof fn law_only_a_revocation_closes(
    conn: ConnectionModel,
    client: ClientModel,
    e: EventModel,
    now: UtcModel,
    clock: u64,
)
    ensures
        event_outcome(conn, client, e, now, clock) matches Ok(r) ==> (!stays_open(r) <==> e.2
            is Revocation),
{
}

/// A new event is remembered with the time at which it came; one that is refused
/// is not. What is known of other events, of streams and of channels stays.
pub proof fn law_new_events_are_remembered(
    conn: ConnectionModel,
    client: ClientModel,
    e: EventModel,
    now: UtcModel,
    clock: u64,
)
    ensures
        ({
            let after = client_after(conn, client, e, now, clock);
            &&& is_new(client, e, now, clock) ==> after.seen == client.seen.insert(e.0, clock)
            &&& !is_new(client, e, now, clock) ==> after == client
            &&& after.state == client.state
            &&& after.broadcaster_ids == client.broadcaster_ids
            &&& e.2 !is Welcome ==> after.curr_client_id == client.curr_client_id
        }),
{
}

/// A sign of life that is not too old counts, even if it was seen before; no other
/// event is one. An event never changes where a connection leads.
pub proof fn law_what_shows_life(
    conn: ConnectionModel,
    client: ClientModel,
    e: EventModel,
    now: UtcModel,
    clock: u64,
)
    ensures
        ({
            let after = connection_after(conn, client, e, now, clock);
            let late = rfc3339_parts(e.1) matches Some(p) && elapsed_nanos(
                now,
                UtcModel { secs: p.0, nanos: p.1 },
            ) > 600 * 1_000_000_000;
            &&& after.last_keepalive == (if e.2 is Keepalive && !late {
                clock
            } else {
                conn.last_keepalive
            })
            &&& e.2 !is Welcome ==> after.keepalive == conn.keepalive
            &&& after.url == conn.url
            &&& after.is_reconnect == conn.is_reconnect
            &&& after.id == conn.id
        }),
{
}

/// A connection looks dead once it has been silent for more than twice as long as
/// it said it would be, and never before it said so.
pub proof fn law_silence(conn: ConnectionModel, clock: u64)
    ensures
        conn.keepalive <= 0 ==> !likely_dead(conn, clock),
        conn.keepalive > 0 && clock >= conn.last_keepalive ==> (likely_dead(conn, clock) <==> clock
            - conn.last_keepalive > 2 * conn.keepalive * 1_000_000_000),
        !likely_dead(new_connection(conn.url, conn.is_reconnect, conn.id, conn.last_keepalive), clock),
        new_connection(conn.url, conn.is_reconnect, conn.id, clock).last_keepalive == clock,
{
}

/// A text is the event that is read in it, or is refused. Pings and pongs call for
/// nothing, bytes are refused, and so is the end, with the reason that was given.
pub proof fn law_messages_are_read(
    conn: ConnectionModel,
    client: ClientModel,
    text: String,
    m: Message,
    now: UtcModel,
    clock: u64,
)
    ensures
        parsed_event(text@) matches Some(e) ==> message_outcome(
            conn,
            client,
            Message::Text(text),
            now,
            clock,
        ) == event_outcome(conn, client, e, now, clock) && event_in(Message::Text(text)) == Some(e)
            && read_outcome(Message::Text(text)) == Ok::<Option<EventModel>, WsErrorModel>(
            Some(e),
        ),
        parsed_event(text@) is None ==> message_outcome(
            conn,
            client,
            Message::Text(text),
            now,
            clock,
        ) == Err::<ReactionModel, WsErrorModel>(WsErrorModel::Unreadable),
        m is Binary ==> message_outcome(conn, client, m, now, clock) == Err::<
            ReactionModel,
            WsErrorModel,
        >(WsErrorModel::Binary),
        m is Ping || m is Pong ==> message_outcome(conn, client, m, now, clock) == Ok::<
            ReactionModel,
            WsErrorModel,
        >(ReactionModel::Nothing),
        m matches Message::Close(Some(why)) ==> message_outcome(conn, client, m, now, clock)
            == Err::<ReactionModel, WsErrorModel>(WsErrorModel::Closed(why@)),
        m matches Message::Close(None) ==> message_outcome(conn, client, m, now, clock) == Err::<
            ReactionModel,
            WsErrorModel,
        >(WsErrorModel::Closed("<no reason provided>"@)),
        m !is Text ==> event_in(m) is None,
{
}

/// What went wrong is said in full: each error says what it is about.
pub proof fn law_errors_say_why(text: Seq<char>)
    ensures
        WsErrorModel::Unreadable.text() == "parsing failure"@,
        WsErrorModel::Binary.text() == "Got binary message, but we don't support that"@,
        WsErrorModel::TooOld.text() == "Incoming message was too old to process."@,
        WsErrorModel::PreviouslySeen.text() == "ID previously seen"@,
        WsErrorModel::NoReconnectAddress.text()
            == "Reconnect data did not have reconnect address?"@,
        WsErrorModel::Closed(text).text() == "Websocket closed? "@ + text,
        WsErrorModel::UnknownNotification(text).text() == "Unknown event "@ + text,
        WsErrorModel::UnknownEvent(text).text() == "Got unknown event type "@ + text + "??"@,
        WsErrorModel::Subscriptions(text).text() == "Multiple errors occured:\n"@ + text,
{
}

/// The failures of some broadcasters and of some more are those of the first, and
/// behind them those of the others. A broadcaster has a line for each subscription
/// that failed, that for the beginning of streams first.
pub proof fn law_failures_are_listed(a: Failures, b: Failures, one: (Option<Seq<char>>, Option<Seq<char>>))
    ensures
        failure_lines(a + b) == failure_lines(a) + failure_lines(b),
        failure_lines(seq![one]) == match one {
            (Some(x), Some(y)) => seq!["- "@ + x, "- "@ + y],
            (Some(x), None) => seq!["- "@ + x],
            (None, Some(y)) => seq!["- "@ + y],
            (None, None) => seq![],
        },
    decreases b.len(),
{
    assert(seq![one].drop_last() =~= seq![]);
    reveal_with_fuel(failure_lines, 2);
    assert(failure_lines(seq![one]) =~= match one {
        (Some(x), Some(y)) => seq!["- "@ + x, "- "@ + y],
        (Some(x), None) => seq!["- "@ + x],
        (None, Some(y)) => seq!["- "@ + y],
        (None, None) => seq![],
    });
    if b.len() == 0 {
        assert(a + b =~= a);
        assert(failure_lines(a) + failure_lines(b) =~= failure_lines(a));
    } else {
        law_failures_are_listed(a, b.drop_last(), one);
        assert((a + b).drop_last() =~= a + b.drop_last());
        assert(failure_lines(a + b) =~= failure_lines(a) + failure_lines(b));
    }
}

/// There are lines if and only if some subscription failed.
pub proof fn law_one_failure_is_one_too_many(results: Failures)
    ensures
        failure_lines(results).len() == 0 <==> forall|i: int|
            0 <= i < results.len() ==> (#[trigger] results[i]).0 is None && results[i].1 is None,
    decreases results.len(),
{
    if results.len() > 0 {
        let init = results.drop_last();
        law_one_failure_is_one_too_many(init);
        assert(results[results.len() - 1] == results.last());
        if failure_lines(init).len() > 0 {
            let i = choose|i: int|
                0 <= i < init.len() && !((#[trigger] init[i]).0 is None && init[i].1 is None);
            assert(results[i] == init[i]);
        } else {
            assert forall|i: int| 0 <= i < init.len() implies (#[trigger] results[i]).0 is None
                && results[i].1 is None by {
                assert(results[i] == init[i]);
            }
        }
    }
}

/// Lines are joined by line breaks, one between each two and none at the ends.
pub proof fn law_lines_are_joined(lines: Seq<Seq<char>>, line: Seq<char>)
    ensures
        joined(seq![]) == Seq::<char>::empty(),
        joined(seq![line]) == line,
        lines.len() > 0 ==> joined(lines.push(line)) == joined(lines) + "\n"@ + line,
{
    assert(lines.push(line).drop_last() =~= lines);
}

/// A connection goes on as long as messages can be read and do not ask for its
/// end, whether or not they were dealt with; it is closed only where one asked.
pub proof fn law_connections_go_on(input: SocketInput)
    ensures
        socket_step(input) is Continue <==> input == SocketInput::NotHandled || input
            == SocketInput::Handled(true),
        socket_step(input) is CloseAndStop <==> input == SocketInput::Handled(false),
{
}

/// Messages are counted by their kind.
pub proof fn law_messages_are_counted(m: Message)
    ensures
        m is Text ==> msg_type_text(m) == "Message::Text"@,
        m is Binary ==> msg_type_text(m) == "Message::Binary"@,
        m is Ping ==> msg_type_text(m) == "Message::Ping"@,
        m is Pong ==> msg_type_text(m) == "Message::Pong"@,
        m is Close ==> msg_type_text(m) == "Message::Close"@,
        m is Frame ==> msg_type_text(m) == "Message::Frame"@,
{
}

/// What is to be done about a message, and why nothing is, are what was said, each thing in
/// its place.
pub proof fn law_nothing_about_a_reaction_is_left_out(r: Reaction, e: WsError)
    ensures
        r is Nothing <==> r@ is Nothing,
        r is Disconnect <==> r@ is Disconnect,
        r matches Reaction::Subscribe(id) ==> r@ == ReactionModel::Subscribe(id@),
        r is Welcomed <==> r@ is Welcomed,
        r is CheckToken <==> r@ is CheckToken,
        r matches Reaction::Look(look) ==> r@ == ReactionModel::Look(look@),
        r matches Reaction::Reconnect(url) ==> r@ == ReactionModel::Reconnect(url@),
        e is Unreadable <==> e@ is Unreadable,
        e is Binary <==> e@ is Binary,
        e matches WsError::Closed(why) ==> e@ == WsErrorModel::Closed(why@),
        e is TooOld <==> e@ is TooOld,
        e is PreviouslySeen <==> e@ is PreviouslySeen,
        e matches WsError::UnknownNotification(text) ==> e@ == WsErrorModel::UnknownNotification(
            text@,
        ),
        e is NoReconnectAddress <==> e@ is NoReconnectAddress,
        e matches WsError::UnknownEvent(text) ==> e@ == WsErrorModel::UnknownEvent(text@),
        e matches WsError::Subscriptions(list) ==> e@ == WsErrorModel::Subscriptions(list@),
{
}

/// What is known of a connection is what it is, each thing in its place.
pub proof fn law_nothing_about_a_connection_is_left_out(c: WebsocketConnection)
    ensures
        c@.url == c.url@,
        c@.is_reconnect == c.is_reconnect,
        c@.id == c.id,
        c@.keepalive == c.keepalive,
        c@.last_keepalive == c.last_keepalive,
{
}

/// What was told of the subscriptions of each broadcaster is what failed.
pub proof fn law_nothing_that_failed_is_left_out(
    results: Seq<(Option<String>, Option<String>)>,
    i: int,
)
    ensures
        failures_model(results).len() == results.len(),
        0 <= i < results.len() ==> {
            &&& results[i].0 is None <==> failures_model(results)[i].0 is None
            &&& results[i].0 matches Some(x) ==> failures_model(results)[i].0 == Some(x@)
            &&& results[i].1 is None <==> failures_model(results)[i].1 is None
            &&& results[i].1 matches Some(x) ==> failures_model(results)[i].1 == Some(x@)
        },
{
}

} // verus!
