//! One session on one socket: what each thing that can happen on it leads to.
//!
//! The caller owns the socket and the control channel. It reports what
//! happened as a [`SessionEvent`] and carries out the [`SessionOutput`] that
//! comes back: it writes the frames, publishes the events, and ends the
//! session when told so.

use vstd::prelude::*;
use crate::events::{
    connection_event, game_event, ConnectionEventView, ControlView, GameEventView,
    TlcsConnectionEvent, TlcsConnectionStatus, TlcsControl, TlcsGameEvent,
};
use crate::frames::{framed, login_frame, login_text, normalize_frame, subscribe_text};
use crate::game_state::{
    initial_state, next_state, opt_text, update_state_from_line, GameStateView, TlcsGameState,
};
use crate::incoming::{handle_incoming_line, incoming_line, IncomingLine, IncomingLineView};
use crate::subscriptions::SubscriptionSet;
use crate::text::texts;

verus! {

/// Where a session stands.
#[derive(Clone, Copy, Debug, PartialEq, Eq, Structural)]
pub enum SessionPhase {
    /// The socket is being opened.
    Dialing,
    /// The socket is open; lines and commands are served.
    Connected,
    /// The session is over. Nothing happens in it any more.
    Closed,
}

/// Why a session is over, as far as the supervisor needs to know.
#[derive(Clone, Copy, Debug, PartialEq, Eq, Structural)]
pub enum SessionEnd {
    /// The user disconnected: do not dial again.
    Stopped,
    /// The user asked for a new connection: dial again at once.
    Redial,
    /// The connection was lost or could not be made.
    Lost,
}

/// What can happen to a session.
#[derive(Clone, Debug, PartialEq, Eq)]
pub enum SessionEvent {
    /// The relay sent a line.
    Line(String),
    /// The relay closed the connection.
    RemoteClosed,
    /// Reading failed, with the text of the error.
    ReadFailed(String),
    /// Writing a frame failed, with the text of the error.
    WriteFailed(String),
    /// A message arrived on the control channel.
    Control(TlcsControl),
    /// The control channel was closed.
    ControlClosed,
}

/// What a [`SessionEvent`] holds, as the contracts speak of it.
pub enum SessionEventView {
    Line(Seq<char>),
    RemoteClosed,
    ReadFailed(Seq<char>),
    WriteFailed(Seq<char>),
    Control(ControlView),
    ControlClosed,
}

impl View for SessionEvent {
    type V = SessionEventView;

    open spec fn view(&self) -> SessionEventView {
        match self {
            SessionEvent::Line(l) => SessionEventView::Line(l@),
            SessionEvent::RemoteClosed => SessionEventView::RemoteClosed,
            SessionEvent::ReadFailed(e) => SessionEventView::ReadFailed(e@),
            SessionEvent::WriteFailed(e) => SessionEventView::WriteFailed(e@),
            SessionEvent::Control(c) => SessionEventView::Control(c@),
            SessionEvent::ControlClosed => SessionEventView::ControlClosed,
        }
    }
}

/// What the caller has to do after an event.
#[derive(Clone, Debug, PartialEq, Eq)]
pub struct SessionOutput {
    /// A frame to write to the socket, as it goes on the wire.
    pub frame: Option<String>,
    /// A status change to publish.
    pub status: Option<TlcsConnectionEvent>,
    /// A game-state update to publish.
    pub game: Option<TlcsGameEvent>,
    /// The line that came in, sorted.
    pub incoming: Option<IncomingLine>,
    /// Set when the session is over.
    pub end: Option<SessionEnd>,
}

/// What a [`SessionOutput`] holds, as the contracts speak of it.
pub struct SessionOutputView {
    pub frame: Option<Seq<char>>,
    pub status: Option<ConnectionEventView>,
    pub game: Option<GameEventView>,
    pub incoming: Option<IncomingLineView>,
    pub end: Option<SessionEnd>,
}

impl View for SessionOutput {
    type V = SessionOutputView;

    open spec fn view(&self) -> SessionOutputView {
        SessionOutputView {
            frame: opt_text(self.frame),
            status: match self.status {
                Some(e) => Some(e@),
                None => None,
            },
            game: match self.game {
                Some(e) => Some(e@),
                None => None,
            },
            incoming: match self.incoming {
                Some(e) => Some(e@),
                None => None,
            },
            end: self.end,
        }
    }
}

/// The session: its phase and the game state that its lines have built up.
#[derive(Debug, PartialEq, Eq)]
pub struct ConnectionSession {
    phase: SessionPhase,
    game_state: TlcsGameState,
}

/// What a [`ConnectionSession`] holds, as the contracts speak of it.
pub struct SessionView {
    pub phase: SessionPhase,
    pub game: GameStateView,
}

impl View for ConnectionSession {
    type V = SessionView;

    closed spec fn view(&self) -> SessionView {
        SessionView { phase: self.phase, game: self.game_state@ }
    }
}

/// The output that asks for nothing.
pub open spec fn quiet() -> SessionOutputView {
    SessionOutputView { frame: None, status: None, game: None, incoming: None, end: None }
}

/// The output that ends the session for the reason `end`, with the status
/// change `status`.
pub open spec fn closing(status: Option<ConnectionEventView>, end: SessionEnd) -> SessionOutputView {
    SessionOutputView { frame: None, status, game: None, incoming: None, end: Some(end) }
}

/// The status change `status` with the explanation `message`.
pub open spec fn status_with(status: TlcsConnectionStatus, message: Seq<char>) -> Option<
    ConnectionEventView,
> {
    Some(ConnectionEventView { status, message: Some(message) })
}

/// The session `s` once it is closed.
pub open spec fn closed(s: SessionView) -> SessionView {
    SessionView { phase: SessionPhase::Closed, game: s.game }
}

/// What the event `e` does to a session in the state `s`: the state that
/// follows, and what the caller has to do.
///
/// Only a connected session reacts. A line updates the game state and is
/// published; a command is framed for the wire; the end of the stream, a
/// failed read or write, a closed control channel and the two closing
/// commands end the session.
pub open spec fn session_step(s: SessionView, e: SessionEventView) -> (SessionView, SessionOutputView) {
    if s.phase != SessionPhase::Connected {
        (s, quiet())
    } else {
        match e {
            SessionEventView::Line(line) => (
                SessionView { phase: s.phase, game: next_state(s.game, line) },
                SessionOutputView {
                    frame: None,
                    status: None,
                    game: Some(GameEventView { state: next_state(s.game, line), raw: Some(line) }),
                    incoming: Some(incoming_line(line)),
                    end: None,
                },
            ),
            SessionEventView::RemoteClosed => (closed(s), closing(None, SessionEnd::Lost)),
            SessionEventView::ReadFailed(err) => (
                closed(s),
                closing(status_with(TlcsConnectionStatus::Error, err), SessionEnd::Lost),
            ),
            SessionEventView::WriteFailed(err) => (
                closed(s),
                closing(status_with(TlcsConnectionStatus::Error, err), SessionEnd::Lost),
            ),
            SessionEventView::Control(ControlView::Send(command)) => (
                s,
                SessionOutputView {
                    frame: Some(framed(command)),
                    status: None,
                    game: None,
                    incoming: None,
                    end: None,
                },
            ),
            SessionEventView::Control(ControlView::Disconnect) => (
                closed(s),
                closing(
                    status_with(TlcsConnectionStatus::Disconnected, "Disconnected by user"@),
                    SessionEnd::Stopped,
                ),
            ),
            SessionEventView::Control(ControlView::Reconnect) => (
                closed(s),
                closing(
                    status_with(TlcsConnectionStatus::Connecting, "Manual reconnect"@),
                    SessionEnd::Redial,
                ),
            ),
            SessionEventView::ControlClosed => (closed(s), closing(None, SessionEnd::Lost)),
        }
    }
}

/// The frames that open a connection: the login line where a user name is
/// configured, then one subscription for each game of `subscriptions`.
pub open spec fn opening_frames(
    username: Seq<char>,
    password: Seq<char>,
    subscriptions: Seq<Seq<char>>,
) -> Seq<Seq<char>> {
    let login = if username.len() > 0 {
        seq![framed(login_text(username, password))]
    } else {
        Seq::empty()
    };
    login + Seq::new(subscriptions.len(), |i: int| framed(subscribe_text(subscriptions[i])))
}

fn silent() -> (o: SessionOutput)
    ensures
        o@ == quiet(),
{
    SessionOutput { frame: None, status: None, game: None, incoming: None, end: None }
}

fn ending(status: Option<TlcsConnectionEvent>, end: SessionEnd) -> (o: SessionOutput)
    ensures
        o@ == closing(
            match status {
                Some(e) => Some(e@),
                None => None,
            },
            end,
        ),
{
    SessionOutput { frame: None, status, game: None, incoming: None, end: Some(end) }
}

impl ConnectionSession {
    /// A session whose socket is being opened.
    pub fn dialing() -> (s: Self)
        ensures
            s@.phase == SessionPhase::Dialing,
            s@.game == initial_state(),
    {
        ConnectionSession { phase: SessionPhase::Dialing, game_state: TlcsGameState::default() }
    }

    /// The phase of the session.
    pub fn phase(&self) -> (p: SessionPhase)
        ensures
            p == self@.phase,
    {
        self.phase
    }

    /// Whether the session is over.
    pub fn is_closed(&self) -> (b: bool)
        ensures
            b == (self@.phase == SessionPhase::Closed),
    {
        match self.phase {
            SessionPhase::Closed => true,
            _ => false,
        }
    }

    /// A copy of the game state that the session has built up.
    pub fn game_state(&self) -> (g: TlcsGameState)
        ensures
            g@ == self@.game,
    {
        self.game_state.duplicate()
    }

    /// The socket is open. A dialing session becomes connected, and the
    /// frames to write before any other traffic come back: the login line
    /// where a user name is configured, then the subscriptions to restore.
    /// In any other phase nothing changes and nothing is to be written.
    pub fn connected(
        &mut self,
        username: &str,
        password: &str,
        subscriptions: &SubscriptionSet,
    ) -> (frames: Vec<String>)
        ensures
            old(self)@.phase == SessionPhase::Dialing ==> final(self)@ == (SessionView {
                phase: SessionPhase::Connected,
                game: old(self)@.game,
            }) && texts(frames@) == opening_frames(username@, password@, subscriptions@),
            old(self)@.phase != SessionPhase::Dialing ==> final(self)@ == old(self)@
                && frames@.len() == 0,
    {
        match self.phase {
            SessionPhase::Dialing => {
                self.phase = SessionPhase::Connected;
                let mut frames: Vec<String> = Vec::new();
                match login_frame(username, password) {
                    Some(login) => {
                        frames.push(normalize_frame(login.as_str()));
                    },
                    None => {},
                }
                let ghost head = texts(frames@);
                let mut replay = subscriptions.replay_frames();
                let ghost tail = texts(replay@);
                frames.append(&mut replay);
                assert(texts(frames@) =~= head + tail);
                assert(tail =~= Seq::new(
                    subscriptions@.len(),
                    |i: int| framed(subscribe_text(subscriptions@[i])),
                ));
                assert(texts(frames@) =~= opening_frames(username@, password@, subscriptions@));
                frames
            },
            _ => Vec::new(),
        }
    }

    /// The socket could not be opened. A dialing session is closed, and the
    /// error is reported. In any other phase nothing changes.
    pub fn dial_failed(&mut self, error: String) -> (out: SessionOutput)
        ensures
            old(self)@.phase == SessionPhase::Dialing ==> final(self)@ == closed(old(self)@)
                && out@ == closing(
                status_with(TlcsConnectionStatus::Error, error@),
                SessionEnd::Lost,
            ),
            old(self)@.phase != SessionPhase::Dialing ==> final(self)@ == old(self)@ && out@
                == quiet(),
    {
        match self.phase {
            SessionPhase::Dialing => {
                self.phase = SessionPhase::Closed;
                ending(
                    Some(connection_event(TlcsConnectionStatus::Error, Some(error))),
                    SessionEnd::Lost,
                )
            },
            _ => silent(),
        }
    }

    /// Applies one event to the session and says what the caller has to do.
    pub fn step(&mut self, event: SessionEvent) -> (out: SessionOutput)
        ensures
            (final(self)@, out@) == session_step(old(self)@, event@),
    {
        match self.phase {
            SessionPhase::Connected => {},
            _ => {
                return silent();
            },
        }
        match event {
            SessionEvent::Line(line) => {
                update_state_from_line(&mut self.game_state, line.as_str());
                let incoming = handle_incoming_line(line.as_str());
                let game = game_event(&self.game_state, Some(line));
                SessionOutput {
                    frame: None,
                    status: None,
                    game: Some(game),
                    incoming: Some(incoming),
                    end: None,
                }
            },
            SessionEvent::RemoteClosed => {
                self.phase = SessionPhase::Closed;
                ending(None, SessionEnd::Lost)
            },
            SessionEvent::ReadFailed(error) => {
                self.phase = SessionPhase::Closed;
                ending(
                    Some(connection_event(TlcsConnectionStatus::Error, Some(error))),
                    SessionEnd::Lost,
                )
            },
            SessionEvent::WriteFailed(error) => {
                self.phase = SessionPhase::Closed;
                ending(
                    Some(connection_event(TlcsConnectionStatus::Error, Some(error))),
                    SessionEnd::Lost,
                )
            },
            SessionEvent::Control(TlcsControl::Send(command)) => SessionOutput {
                frame: Some(normalize_frame(command.as_str())),
                status: None,
                game: None,
                incoming: None,
                end: None,
            },
            SessionEvent::Control(TlcsControl::Disconnect) => {
                self.phase = SessionPhase::Closed;
                ending(
                    Some(
                        connection_event(
                            TlcsConnectionStatus::Disconnected,
                            Some(String::from_str("Disconnected by user")),
                        ),
                    ),
                    SessionEnd::Stopped,
                )
            },
            SessionEvent::Control(TlcsControl::Reconnect) => {
                self.phase = SessionPhase::Closed;
                ending(
                    Some(
                        connection_event(
                            TlcsConnectionStatus::Connecting,
                            Some(String::from_str("Manual reconnect")),
                        ),
                    ),
                    SessionEnd::Redial,
                )
            },
            SessionEvent::ControlClosed => {
                self.phase = SessionPhase::Closed;
                ending(None, SessionEnd::Lost)
            },
        }
    }
}

/// A closed session stays closed: no event changes it or asks for anything.
pub proof fn lemma_closed_is_final(s: SessionView, e: SessionEventView)
    requires
        s.phase == SessionPhase::Closed,
    ensures
        session_step(s, e) == (s, quiet()),
{
}

/// An event ends a connected session exactly when it is not a line and not a
/// command to send; and the session is then closed.
pub proof fn lemma_session_ends(s: SessionView, e: SessionEventView)
    requires
        s.phase == SessionPhase::Connected,
    ensures
        session_step(s, e).1.end is Some <==> !(e is Line) && !(e matches SessionEventView::Control(
            ControlView::Send(_),
        )),
        session_step(s, e).1.end is Some <==> session_step(s, e).0.phase == SessionPhase::Closed,
        session_step(s, e).1.end is None ==> session_step(s, e).0.phase == SessionPhase::Connected,
{
}

/// Every subscription is restored when a connection opens: for each game of
/// the set, the opening frames hold the frame that subscribes to it, and
/// nothing but the login line stands before these frames.
pub proof fn lemma_opening_restores_subscriptions(
    username: Seq<char>,
    password: Seq<char>,
    subscriptions: Seq<Seq<char>>,
    i: int,
)
    requires
        0 <= i < subscriptions.len(),
    ensures
        ({
            let frames = opening_frames(username, password, subscriptions);
            let lead: int = if username.len() > 0 {
                1
            } else {
                0
            };
            &&& frames.len() == lead + subscriptions.len()
            &&& frames[lead + i] == framed(subscribe_text(subscriptions[i]))
            &&& lead == 1 ==> frames[0] == framed(login_text(username, password))
        }),
{
}

} // verus!
