//! Which connection delivers events, and when another takes its place.

use vstd::prelude::*;

use crate::text::opt_text;
use crate::twitch::event::KindModel;
use crate::twitch::util::{twitch_ws_url, ws_url};
use crate::twitch::websocket::{new_connection, reaction, ReactionModel, WsErrorModel};

verus! {

/// A connection that is to be opened: where, whether it goes on where another
/// left off, and under which number.
#[verifier::ext_equal]
pub struct SocketModel {
    pub url: Seq<char>,
    pub is_reconnect: bool,
    pub id: u16,
}

/// A connection that is to be opened.
#[derive(Debug)]
pub struct Socket {
    pub url: String,
    pub is_reconnect: bool,
    pub id: u16,
}

impl View for Socket {
    type V = SocketModel;

    open spec fn view(&self) -> SocketModel {
        SocketModel { url: self.url@, is_reconnect: self.is_reconnect, id: self.id }
    }
}

/// The connection that delivers events, the one that is to take its place if
/// there is one, and the number of the next.
#[verifier::ext_equal]
pub struct RunnerModel {
    pub primary: u16,
    pub replacement: Option<u16>,
    pub next_id: u16,
}

/// Keeps one connection open, and moves to another when told to.
#[derive(Debug)]
pub struct WebsocketRunner {
    primary: u16,
    replacement: Option<u16>,
    next_id: u16,
}

impl View for WebsocketRunner {
    type V = RunnerModel;

    closed spec fn view(&self) -> RunnerModel {
        RunnerModel {
            primary: self.primary,
            replacement: self.replacement,
            next_id: self.next_id,
        }
    }
}

/// What happens while one connection is open.
pub enum RunnerEventModel {
    Close,
    Reconnect(Seq<char>, bool),
    SocketClosed,
    Tick(bool),
}

/// What happens while one connection is open.
#[derive(Debug)]
pub enum RunnerEvent {
    /// The bot is shutting down.
    Close,
    /// A connection is asked for, at this address; it goes on where the
    /// present one leaves off, or starts over.
    Reconnect(String, bool),
    /// The connection that was opened last is gone.
    SocketClosed,
    /// Some time has passed, and the connection looks dead or does not.
    Tick(bool),
}

impl View for RunnerEvent {
    type V = RunnerEventModel;

    open spec fn view(&self) -> RunnerEventModel {
        match *self {
            RunnerEvent::Close => RunnerEventModel::Close,
            RunnerEvent::Reconnect(url, is_reconnect) => RunnerEventModel::Reconnect(
                url@,
                is_reconnect,
            ),
            RunnerEvent::SocketClosed => RunnerEventModel::SocketClosed,
            RunnerEvent::Tick(dead) => RunnerEventModel::Tick(dead),
        }
    }
}

/// What happens while a second connection is being opened.
#[derive(Clone, Copy, Debug, PartialEq, Eq, Structural)]
pub enum ReplacementEvent {
    /// The bot is shutting down.
    Close,
    /// The second connection was welcomed.
    Welcomed,
    /// The second connection is gone before it was welcomed.
    SocketClosed,
}

/// What to do.
pub enum RunnerActionModel {
    Stop,
    Open(SocketModel),
    Retire(u16, u64),
    AskAgain(Seq<char>, u64),
    Wait,
}

/// What to do.
#[derive(Debug)]
pub enum RunnerAction {
    /// Shut down.
    Stop,
    /// Open a connection, and wait until it is welcomed or gone.
    Open(Socket),
    /// Tell a connection to end. Wait until it has ended, up to so many
    /// seconds.
    Retire(u16, u64),
    /// Wait so many seconds, and ask for a connection that starts over, at
    /// this address, unless one is asked for already.
    AskAgain(String, u64),
    /// Wait for what happens next.
    Wait,
}

impl View for RunnerAction {
    type V = RunnerActionModel;

    open spec fn view(&self) -> RunnerActionModel {
        match *self {
            RunnerAction::Stop => RunnerActionModel::Stop,
            RunnerAction::Open(socket) => RunnerActionModel::Open(socket@),
            RunnerAction::Retire(id, secs) => RunnerActionModel::Retire(id, secs),
            RunnerAction::AskAgain(url, secs) => RunnerActionModel::AskAgain(url@, secs),
            RunnerAction::Wait => RunnerActionModel::Wait,
        }
    }
}

/// How often a connection is watched for signs of life, in seconds.
pub const TICK_SECS: u64 = 10;

/// How long a connection that was told to end is waited for.
pub const RETIRE_SECS: u64 = 300;

/// How long to wait before a connection that was lost is replaced.
pub const RETRY_SECS: u64 = 5;

/// The number after this one; the numbers start over where they run out.
pub open spec fn following(id: u16) -> u16 {
    if id == u16::MAX {
        0
    } else {
        (id + 1) as u16
    }
}

/// What to do while one connection is open. `init` is an address that was set
/// in place of the one of Twitch.
pub open spec fn runner_action(
    runner: RunnerModel,
    event: RunnerEventModel,
    init: Option<Seq<char>>,
) -> RunnerActionModel {
    match event {
        RunnerEventModel::Close => RunnerActionModel::Stop,
        RunnerEventModel::Reconnect(url, is_reconnect) => RunnerActionModel::Open(
            SocketModel { url, is_reconnect, id: runner.next_id },
        ),
        RunnerEventModel::SocketClosed => RunnerActionModel::AskAgain(ws_url(init), RETRY_SECS),
        RunnerEventModel::Tick(dead) => if dead {
            RunnerActionModel::Retire(runner.primary, 0)
        } else {
            RunnerActionModel::Wait
        },
    }
}

/// The runner after something happened while one connection was open.
pub open spec fn runner_after(runner: RunnerModel, event: RunnerEventModel) -> RunnerModel {
    match event {
        RunnerEventModel::Reconnect(..) => RunnerModel {
            replacement: Some(runner.next_id),
            next_id: following(runner.next_id),
            ..runner
        },
        _ => runner,
    }
}

/// What to do while a second connection is being opened.
pub open spec fn replacement_action(
    runner: RunnerModel,
    event: ReplacementEvent,
) -> RunnerActionModel {
    match event {
        ReplacementEvent::Close => RunnerActionModel::Stop,
        ReplacementEvent::Welcomed => RunnerActionModel::Retire(runner.primary, RETIRE_SECS),
        ReplacementEvent::SocketClosed => RunnerActionModel::Wait,
    }
}

/// The runner after something happened while a second connection was being
/// opened.
pub open spec fn replacement_after(runner: RunnerModel, event: ReplacementEvent) -> RunnerModel {
    match (event, runner.replacement) {
        (ReplacementEvent::Welcomed, Some(id)) => RunnerModel {
            primary: id,
            replacement: None,
            ..runner
        },
        (ReplacementEvent::SocketClosed, _) => RunnerModel { replacement: None, ..runner },
        _ => runner,
    }
}

/// A runner at its beginning, and the connection that it begins with.
pub open spec fn first_connection(init: Option<Seq<char>>) -> (RunnerModel, SocketModel) {
    (
        RunnerModel { primary: 1, replacement: None, next_id: 2 },
        SocketModel { url: ws_url(init), is_reconnect: false, id: 1 },
    )
}

impl WebsocketRunner {
    /// Begins with a first connection.
    pub fn new(init: Option<String>) -> (r: (WebsocketRunner, Socket))
        ensures
            (r.0@, r.1@) == first_connection(opt_text(init)),
            r.0@ == (RunnerModel { primary: 1, replacement: None, next_id: 2 }),
            r.1@ == (SocketModel {
                url: ws_url(opt_text(init)),
                is_reconnect: false,
                id: 1,
            }),
    {
        let socket = Socket { url: twitch_ws_url(init), is_reconnect: false, id: 1 };
        (WebsocketRunner { primary: 1, replacement: None, next_id: 2 }, socket)
    }

    /// What to do about something that happens while one connection is open.
    pub fn run(&mut self, event: RunnerEvent, init: Option<String>) -> (r: RunnerAction)
        requires
            old(self)@.replacement is None,
        ensures
            r@ == runner_action(old(self)@, event@, opt_text(init)),
            final(self)@ == runner_after(old(self)@, event@),
    {
        match event {
            RunnerEvent::Close => RunnerAction::Stop,
            RunnerEvent::Reconnect(url, is_reconnect) => {
                let id: u16 = self.next_id;
                self.next_id = if id == u16::MAX {
                    0
                } else {
                    id + 1
                };
                self.replacement = Some(id);
                RunnerAction::Open(Socket { url, is_reconnect, id })
            },
            RunnerEvent::SocketClosed => RunnerAction::AskAgain(twitch_ws_url(init), RETRY_SECS),
            RunnerEvent::Tick(dead) => if dead {
                RunnerAction::Retire(self.primary, 0)
            } else {
                RunnerAction::Wait
            },
        }
    }

    /// What to do about something that happens while a second connection is
    /// being opened.
    pub fn replace(&mut self, event: ReplacementEvent) -> (r: RunnerAction)
        requires
            old(self)@.replacement is Some,
        ensures
            r@ == replacement_action(old(self)@, event),
            final(self)@ == replacement_after(old(self)@, event),
    {
        match event {
            ReplacementEvent::Close => RunnerAction::Stop,
            ReplacementEvent::Welcomed => {
                let retired: u16 = self.primary;
                if let Some(id) = self.replacement {
                    self.primary = id;
                }
                self.replacement = None;
                RunnerAction::Retire(retired, RETIRE_SECS)
            },
            ReplacementEvent::SocketClosed => {
                self.replacement = None;
                RunnerAction::Wait
            },
        }
    }

    /// Whether a second connection is being opened.
    pub fn is_replacing(&self) -> (r: bool)
        ensures
            r == (self@.replacement is Some),
    {
        self.replacement.is_some()
    }
}

// ---------------------------------------------------------------------------
// Laws
// ---------------------------------------------------------------------------

/// The runner stops when the bot shuts down, and never else.
pub proof fn law_stops_only_on_close(
    runner: RunnerModel,
    event: RunnerEventModel,
    second: ReplacementEvent,
    init: Option<Seq<char>>,
)
    ensures
        runner_action(runner, event, init) is Stop <==> event is Close,
        replacement_action(runner, second) is Stop <==> second is Close,
{
}

/// Whether each connection has a number that no earlier one had.
pub open spec fn numbered(runner: RunnerModel) -> bool {
    &&& runner.primary < runner.next_id
    &&& runner.replacement matches Some(id) ==> runner.primary < id < runner.next_id
}

/// Connections are numbered in the order in which they are opened, until the
/// numbers run out.
pub proof fn law_numbers_increase(
    runner: RunnerModel,
    event: RunnerEventModel,
    second: ReplacementEvent,
    init: Option<Seq<char>>,
)
    requires
        numbered(runner),
        runner.next_id < u16::MAX,
    ensures
        runner.replacement is None ==> numbered(runner_after(runner, event)),
        runner.replacement is Some ==> numbered(replacement_after(runner, second)),
        runner_action(runner, event, init) matches RunnerActionModel::Open(socket)
            ==> runner.primary < socket.id == runner.next_id < runner_after(runner, event).next_id,
{
}

/// The connection that delivers events is told to end only once the one that
/// takes its place was welcomed, or where it looks dead; and the one that takes
/// its place is not told to end with it.
pub proof fn law_welcome_before_farewell(
    runner: RunnerModel,
    event: RunnerEventModel,
    second: ReplacementEvent,
    init: Option<Seq<char>>,
)
    requires
        numbered(runner),
    ensures
        runner_action(runner, event, init) is Retire <==> event == RunnerEventModel::Tick(true),
        replacement_action(runner, second) is Retire <==> second is Welcomed,
        second is Welcomed && runner.replacement is Some ==> {
            let after = replacement_after(runner, second);
            &&& after.primary == runner.replacement->0
            &&& replacement_action(runner, second) == RunnerActionModel::Retire(
                runner.primary,
                RETIRE_SECS,
            )
            &&& after.primary != runner.primary
        },
{
}

/// A second connection that is gone before it was welcomed leaves the first
/// one where it was, and a new one is asked for.
pub proof fn law_lost_replacement_is_replaced(runner: RunnerModel, init: Option<Seq<char>>)
    requires
        runner.replacement is Some,
    ensures
        ({
            let after = replacement_after(runner, ReplacementEvent::SocketClosed);
            &&& after.primary == runner.primary
            &&& after.replacement is None
            &&& runner_action(after, RunnerEventModel::SocketClosed, init)
                == RunnerActionModel::AskAgain(ws_url(init), RETRY_SECS)
        }),
{
}

/// The connection that is opened is the one that was asked for: at that address,
/// and going on where another left off if and only if that was asked. It is the
/// one that is then to take the place of the first.
pub proof fn law_connections_are_opened_as_asked(
    runner: RunnerModel,
    url: Seq<char>,
    goes_on: bool,
    init: Option<Seq<char>>,
)
    ensures
        runner_action(runner, RunnerEventModel::Reconnect(url, goes_on), init) matches
            RunnerActionModel::Open(socket) && {
            let after = runner_after(runner, RunnerEventModel::Reconnect(url, goes_on));
            &&& socket.url == url
            &&& socket.is_reconnect == goes_on
            &&& after.replacement == Some(socket.id)
            &&& after.primary == runner.primary
            &&& after.next_id != socket.id
        },
{
}

/// Only what was asked for is opened, and nothing else changes the runner while
/// one connection is open.
pub proof fn law_nothing_is_opened_unasked(
    runner: RunnerModel,
    event: RunnerEventModel,
    init: Option<Seq<char>>,
)
    ensures
        runner_action(runner, event, init) is Open <==> event is Reconnect,
        event !is Reconnect ==> runner_after(runner, event) == runner,
{
}

/// The first connection starts over, at the address that was set or else at that
/// of Twitch, and no other is being opened beside it.
pub proof fn law_the_first_connection_starts_over(init: Option<Seq<char>>)
    ensures
        ({
            let (runner, socket) = first_connection(init);
            &&& !socket.is_reconnect
            &&& init matches Some(url) ==> socket.url == url
            &&& init is None ==> socket.url == "wss://eventsub.wss.twitch.tv/ws"@
            &&& runner.primary == socket.id
            &&& runner.replacement is None
            &&& numbered(runner)
        }),
{
}

/// A connection that was lost is asked for again, after five seconds, at the
/// address that was set or else at that of Twitch. One that is alive is left
/// alone, and one that looks dead is told to end at once.
pub proof fn law_a_connection_is_kept_open(
    runner: RunnerModel,
    url: Seq<char>,
    dead: bool,
    init: Option<Seq<char>>,
)
    ensures
        runner_action(runner, RunnerEventModel::SocketClosed, Some(url))
            == RunnerActionModel::AskAgain(url, 5),
        runner_action(runner, RunnerEventModel::SocketClosed, None) == RunnerActionModel::AskAgain(
            "wss://eventsub.wss.twitch.tv/ws"@,
            5,
        ),
        dead ==> runner_action(runner, RunnerEventModel::Tick(dead), init)
            == RunnerActionModel::Retire(runner.primary, 0),
        !dead ==> runner_action(runner, RunnerEventModel::Tick(dead), init) is Wait,
{
}

/// Once the second connection was welcomed it delivers events, and the first has
/// five minutes to end. If it is gone before, the first goes on delivering. When
/// the bot shuts down nothing moves.
pub proof fn law_the_second_takes_over(runner: RunnerModel, second: u16)
    requires
        runner.replacement == Some(second),
    ensures
        ({
            let after = replacement_after(runner, ReplacementEvent::Welcomed);
            &&& after == RunnerModel { primary: second, replacement: None, next_id: runner.next_id }
            &&& replacement_action(runner, ReplacementEvent::Welcomed)
                == RunnerActionModel::Retire(runner.primary, 300)
        }),
        ({
            let after = replacement_after(runner, ReplacementEvent::SocketClosed);
            &&& after == RunnerModel {
                primary: runner.primary,
                replacement: None,
                next_id: runner.next_id,
            }
            &&& replacement_action(runner, ReplacementEvent::SocketClosed) is Wait
        }),
        replacement_after(runner, ReplacementEvent::Close) == runner,
{
}

/// The numbers go up by one, and start over only where they run out.
pub proof fn law_numbers_follow(id: u16)
    ensures
        id < u16::MAX ==> following(id) == id + 1,
        following(u16::MAX) == 0,
{
}

/// A connection that was asked for after one was lost starts over: when it is
/// welcomed, events are delivered to it and subscribed to. One that goes on where
/// another left off is only announced.
pub proof fn law_a_lost_session_is_subscribed_anew(
    runner: RunnerModel,
    url: Seq<char>,
    goes_on: bool,
    init: Option<Seq<char>>,
    opened: u64,
    session: Seq<char>,
    keepalive: Option<i64>,
)
    ensures
        runner_action(runner, RunnerEventModel::Reconnect(url, goes_on), init) matches
            RunnerActionModel::Open(socket) && {
            let conn = new_connection(socket.url, socket.is_reconnect, socket.id, opened);
            let welcome = reaction(conn, KindModel::Welcome(session, keepalive));
            &&& conn.url == url
            &&& !goes_on ==> welcome == Ok::<ReactionModel, WsErrorModel>(
                ReactionModel::Subscribe(session),
            )
            &&& goes_on ==> welcome == Ok::<ReactionModel, WsErrorModel>(ReactionModel::Welcomed)
        },
{
}

/// A connection is watched every ten seconds, a lost one asked for after five, and one that
/// was told to end waited for up to five minutes.
pub proof fn law_how_long_to_wait()
    ensures
        TICK_SECS == 10,
        RETRY_SECS == 5,
        RETIRE_SECS == 5 * 60,
{
}

/// What happened and what is to be done are what was said, each thing in its place.
pub proof fn law_nothing_asked_is_left_out(
    event: RunnerEvent,
    action: RunnerAction,
)
    ensures
        event is Close <==> event@ is Close,
        event is SocketClosed <==> event@ is SocketClosed,
        event matches RunnerEvent::Reconnect(url, goes_on) ==> event@
            == RunnerEventModel::Reconnect(url@, goes_on),
        event matches RunnerEvent::Tick(dead) ==> event@ == RunnerEventModel::Tick(dead),
        action is Stop <==> action@ is Stop,
        action is Wait <==> action@ is Wait,
        action matches RunnerAction::Open(s) ==> (action@ matches RunnerActionModel::Open(socket)
            && socket.url == s.url@ && socket.is_reconnect == s.is_reconnect && socket.id == s.id),
        action matches RunnerAction::Retire(id, secs) ==> action@ == RunnerActionModel::Retire(
            id,
            secs,
        ),
        action matches RunnerAction::AskAgain(url, secs) ==> action@
            == RunnerActionModel::AskAgain(url@, secs),
{
}

} // verus!
