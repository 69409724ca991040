//! The values that pass between the client core and its host: connection
//! parameters, user intents, and the events that the core reports.

use vstd::prelude::*;
use crate::game_state::{opt_text, GameStateView, TlcsGameState};

verus! {

/// The health of the connection, as the host shows it.
#[derive(Clone, Copy, Debug, PartialEq, Eq, Structural)]
pub enum TlcsConnectionStatus {
    Disconnected,
    Connecting,
    Connected,
    Error,
}

/// A change of connection status, with an optional explanation.
#[derive(Clone, Debug, PartialEq, Eq)]
pub struct TlcsConnectionEvent {
    pub status: TlcsConnectionStatus,
    pub message: Option<String>,
}

/// What a [`TlcsConnectionEvent`] holds, as the contracts speak of it.
pub struct ConnectionEventView {
    pub status: TlcsConnectionStatus,
    pub message: Option<Seq<char>>,
}

impl View for TlcsConnectionEvent {
    type V = ConnectionEventView;

    open spec fn view(&self) -> ConnectionEventView {
        ConnectionEventView { status: self.status, message: opt_text(self.message) }
    }
}

/// A snapshot of the game state, with the line that led to it.
#[derive(Clone, Debug, PartialEq, Eq)]
pub struct TlcsGameEvent {
    pub state: TlcsGameState,
    pub raw: Option<String>,
}

/// What a [`TlcsGameEvent`] holds, as the contracts speak of it.
pub struct GameEventView {
    pub state: GameStateView,
    pub raw: Option<Seq<char>>,
}

impl View for TlcsGameEvent {
    type V = GameEventView;

    open spec fn view(&self) -> GameEventView {
        GameEventView { state: self.state@, raw: opt_text(self.raw) }
    }
}

impl Default for TlcsGameEvent {
    fn default() -> (e: Self)
        ensures
            e.state@ == crate::game_state::initial_state(),
            e.raw is None,
    {
        TlcsGameEvent { state: TlcsGameState::default(), raw: None }
    }
}

/// Whether the subscription client is connected, and to which address.
#[derive(Clone, Debug, PartialEq, Eq)]
pub struct TlcsStatusEvent {
    pub connected: bool,
    pub address: String,
    pub message: Option<String>,
}

/// What a [`TlcsStatusEvent`] holds, as the contracts speak of it.
pub struct StatusEventView {
    pub connected: bool,
    pub address: Seq<char>,
    pub message: Option<Seq<char>>,
}

impl View for TlcsStatusEvent {
    type V = StatusEventView;

    open spec fn view(&self) -> StatusEventView {
        StatusEventView {
            connected: self.connected,
            address: self.address@,
            message: opt_text(self.message),
        }
    }
}

/// A line of the relay: a move frame of one game, or an opaque message.
#[derive(Clone, Debug, PartialEq, Eq)]
pub struct TlcsMessageEvent {
    pub game_id: Option<String>,
    pub payload: String,
}

/// What a [`TlcsMessageEvent`] holds, as the contracts speak of it.
pub struct MessageEventView {
    pub game_id: Option<Seq<char>>,
    pub payload: Seq<char>,
}

impl View for TlcsMessageEvent {
    type V = MessageEventView;

    open spec fn view(&self) -> MessageEventView {
        MessageEventView { game_id: opt_text(self.game_id), payload: self.payload@ }
    }
}

/// A failure that the host should show.
#[derive(Clone, Debug, PartialEq, Eq)]
pub struct TlcsErrorEvent {
    pub message: String,
}

impl View for TlcsErrorEvent {
    type V = Seq<char>;

    open spec fn view(&self) -> Seq<char> {
        self.message@
    }
}

/// Whether a recording runs, where it writes, and how many moves it holds.
#[derive(Clone, Debug, PartialEq, Eq)]
pub struct TlcsStatus {
    pub recording: bool,
    pub pgn_path: Option<String>,
    pub moves_recorded: usize,
}

/// What a [`TlcsStatus`] holds, as the contracts speak of it.
pub struct StatusView {
    pub recording: bool,
    pub pgn_path: Option<Seq<char>>,
    pub moves_recorded: nat,
}

impl View for TlcsStatus {
    type V = StatusView;

    open spec fn view(&self) -> StatusView {
        StatusView {
            recording: self.recording,
            pgn_path: opt_text(self.pgn_path),
            moves_recorded: self.moves_recorded as nat,
        }
    }
}

/// What a recording session is started with.
#[derive(Clone, Debug, PartialEq, Eq)]
pub struct TlcsConnectOptions {
    pub host: String,
    pub port: u16,
    pub event: Option<String>,
    pub site: Option<String>,
    pub white: Option<String>,
    pub black: Option<String>,
    pub initial_fen: Option<String>,
    pub pgn_path: Option<String>,
}

/// What a [`TlcsConnectOptions`] holds, as the contracts speak of it.
pub struct ConnectOptionsView {
    pub host: Seq<char>,
    pub port: u16,
    pub event: Option<Seq<char>>,
    pub site: Option<Seq<char>>,
    pub white: Option<Seq<char>>,
    pub black: Option<Seq<char>>,
    pub initial_fen: Option<Seq<char>>,
    pub pgn_path: Option<Seq<char>>,
}

impl View for TlcsConnectOptions {
    type V = ConnectOptionsView;

    open spec fn view(&self) -> ConnectOptionsView {
        ConnectOptionsView {
            host: self.host@,
            port: self.port,
            event: opt_text(self.event),
            site: opt_text(self.site),
            white: opt_text(self.white),
            black: opt_text(self.black),
            initial_fen: opt_text(self.initial_fen),
            pgn_path: opt_text(self.pgn_path),
        }
    }
}

/// What a supervised connection is opened with.
#[derive(Clone, Debug, PartialEq, Eq)]
pub struct TlcsConnectArgs {
    pub host: String,
    pub port: u16,
    pub username: String,
    pub password: String,
    pub auto_reconnect: bool,
    pub reconnect_interval_ms: u64,
}

/// What a [`TlcsConnectArgs`] holds, as the contracts speak of it.
pub struct ConnectArgsView {
    pub host: Seq<char>,
    pub port: u16,
    pub username: Seq<char>,
    pub password: Seq<char>,
    pub auto_reconnect: bool,
    pub reconnect_interval_ms: u64,
}

impl View for TlcsConnectArgs {
    type V = ConnectArgsView;

    open spec fn view(&self) -> ConnectArgsView {
        ConnectArgsView {
            host: self.host@,
            port: self.port,
            username: self.username@,
            password: self.password@,
            auto_reconnect: self.auto_reconnect,
            reconnect_interval_ms: self.reconnect_interval_ms,
        }
    }
}

impl TlcsConnectArgs {
    /// A copy of these parameters.
    pub fn duplicate(&self) -> (r: Self)
        ensures
            r == *self,
    {
        TlcsConnectArgs {
            host: self.host.clone(),
            port: self.port,
            username: self.username.clone(),
            password: self.password.clone(),
            auto_reconnect: self.auto_reconnect,
            reconnect_interval_ms: self.reconnect_interval_ms,
        }
    }
}

/// What the user can ask of a live game.
#[derive(Clone, Copy, Debug, PartialEq, Eq, Structural)]
pub enum TlcsUserAction {
    AcceptOffer,
    OfferDraw,
    Resign,
    DeclineDraw,
    RequestReconnect,
}

/// A message on the control channel of a session.
#[derive(Clone, Debug, PartialEq, Eq)]
pub enum TlcsControl {
    Send(String),
    Disconnect,
    Reconnect,
}

/// What a [`TlcsControl`] holds, as the contracts speak of it.
pub enum ControlView {
    Send(Seq<char>),
    Disconnect,
    Reconnect,
}

impl View for TlcsControl {
    type V = ControlView;

    open spec fn view(&self) -> ControlView {
        match self {
            TlcsControl::Send(frame) => ControlView::Send(frame@),
            TlcsControl::Disconnect => ControlView::Disconnect,
            TlcsControl::Reconnect => ControlView::Reconnect,
        }
    }
}

/// The event that reports `status` with `message`.
pub fn connection_event(status: TlcsConnectionStatus, message: Option<String>) -> (e:
    TlcsConnectionEvent)
    ensures
        e.status == status,
        e.message == message,
{
    TlcsConnectionEvent { status, message }
}

/// The event that reports a snapshot of `state` together with `raw`.
pub fn game_event(state: &TlcsGameState, raw: Option<String>) -> (e: TlcsGameEvent)
    ensures
        e.state == *state,
        e.raw == raw,
{
    TlcsGameEvent { state: state.duplicate(), raw }
}

/// The event that reports the failure `message`.
pub fn error_event(message: &str) -> (e: TlcsErrorEvent)
    ensures
        e@ == message@,
{
    TlcsErrorEvent { message: String::from_str(message) }
}

/// The event that reports whether the client is connected to `address`.
pub fn status_event(connected: bool, address: &str, message: &str) -> (e: TlcsStatusEvent)
    ensures
        e@ == (StatusEventView {
            connected,
            address: address@,
            message: Some(message@),
        }),
{
    TlcsStatusEvent {
        connected,
        address: String::from_str(address),
        message: Some(String::from_str(message)),
    }
}

} // verus!
