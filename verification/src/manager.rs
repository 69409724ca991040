//! The manager of the one connection that the host has: it starts and stops
//! sessions and turns what the host asks for into what goes to the session.
//!
//! The manager holds no socket and no task. It says which session to shut
//! down and which to start, in that order, and the caller does so.

use vstd::prelude::*;
use crate::backoff::{BackoffPolicy, MAX_BACKOFF_MS, MIN_BACKOFF_MS};
use crate::events::{ConnectArgsView, ControlView, TlcsConnectArgs, TlcsControl, TlcsUserAction};
use crate::frames::{
    action_control, control_for, framed, move_frame, move_text, normalize_frame, subscribe_frame,
    subscribe_text,
};
use crate::keep_alive::{keep_alive_choice, KeepAliveConfig, KeepAliveView};
use crate::subscriptions::SubscriptionSet;

verus! {

/// Why the manager cannot do what was asked.
#[derive(Clone, Copy, Debug, PartialEq, Eq, Structural)]
pub enum ManagerError {
    /// An action was sent while no session runs.
    NotConnected,
    /// A reconnect was asked for before any connect.
    NoPreviousConnection,
    /// A frame was to be sent while no socket is open.
    NoActiveConnection,
}

/// The words that describe `error`.
pub open spec fn error_text(error: ManagerError) -> Seq<char> {
    match error {
        ManagerError::NotConnected => "Not connected"@,
        ManagerError::NoPreviousConnection => "No previous connection"@,
        ManagerError::NoActiveConnection => "No active TLCS connection"@,
    }
}

impl ManagerError {
    /// The words that describe this error.
    pub fn message(&self) -> (m: String)
        ensures
            m@ == error_text(*self),
    {
        match self {
            ManagerError::NotConnected => String::from_str("Not connected"),
            ManagerError::NoPreviousConnection => String::from_str("No previous connection"),
            ManagerError::NoActiveConnection => String::from_str("No active TLCS connection"),
        }
    }
}

/// Which of the two backoff policies the sessions of a manager use.
#[derive(Clone, Copy, Debug, PartialEq, Eq, Structural)]
pub enum BackoffChoice {
    /// The interval that the connection parameters give.
    FixedInterval,
    /// One second, doubling up to thirty.
    Exponential,
}

/// The backoff policy of a session opened with `interval_ms` under `choice`.
pub open spec fn policy_for(choice: BackoffChoice, interval_ms: u64) -> BackoffPolicy {
    match choice {
        BackoffChoice::FixedInterval => BackoffPolicy::Fixed { interval_ms },
        BackoffChoice::Exponential => BackoffPolicy::Exponential {
            min_ms: MIN_BACKOFF_MS,
            max_ms: MAX_BACKOFF_MS,
        },
    }
}

/// One thing for the caller to do to the sessions.
#[derive(Clone, Debug, PartialEq, Eq)]
pub enum ManagerStep {
    /// Signal the session with this number to stop, and wait until it has.
    Shutdown(u64),
    /// Start a session under this number, with these parameters and this
    /// backoff policy.
    Spawn(u64, TlcsConnectArgs, BackoffPolicy),
}

/// What a [`ManagerStep`] holds, as the contracts speak of it.
pub enum ManagerStepView {
    Shutdown(u64),
    Spawn(u64, ConnectArgsView, BackoffPolicy),
}

impl View for ManagerStep {
    type V = ManagerStepView;

    open spec fn view(&self) -> ManagerStepView {
        match self {
            ManagerStep::Shutdown(id) => ManagerStepView::Shutdown(*id),
            ManagerStep::Spawn(id, args, policy) => ManagerStepView::Spawn(*id, args@, *policy),
        }
    }
}

/// The views of a list of steps.
pub open spec fn steps_view(steps: Seq<ManagerStep>) -> Seq<ManagerStepView> {
    Seq::new(steps.len(), |i: int| steps[i]@)
}

/// The manager: the session that runs, if any, the parameters of the last
/// connect, the subscriptions, and the keep-alive configuration.
#[derive(Debug, PartialEq, Eq)]
pub struct TlcsManager {
    running: Option<u64>,
    next_session: u64,
    last_options: Option<TlcsConnectArgs>,
    subscriptions: SubscriptionSet,
    keep_alive: KeepAliveConfig,
    backoff: BackoffChoice,
}

/// What a [`TlcsManager`] holds, as the contracts speak of it.
pub struct ManagerView {
    /// The number of the live session, if there is one.
    pub running: Option<u64>,
    /// The number that the next session gets.
    pub next_session: u64,
    pub last_options: Option<ConnectArgsView>,
    pub subscriptions: Seq<Seq<char>>,
    pub keep_alive: KeepAliveView,
    pub backoff: BackoffChoice,
}

impl View for TlcsManager {
    type V = ManagerView;

    closed spec fn view(&self) -> ManagerView {
        ManagerView {
            running: self.running,
            next_session: self.next_session,
            last_options: match self.last_options {
                Some(o) => Some(o@),
                None => None,
            },
            subscriptions: self.subscriptions@,
            keep_alive: self.keep_alive@,
            backoff: self.backoff,
        }
    }
}

/// The number after `id`, starting over after the last.
pub open spec fn following(id: u64) -> u64 {
    if id == u64::MAX {
        0
    } else {
        (id + 1) as u64
    }
}

/// The steps of a connect with `options`: the live session, if there is one,
/// is shut down first, then the new one is started.
pub open spec fn connect_steps(s: ManagerView, options: ConnectArgsView) -> Seq<ManagerStepView> {
    let start = ManagerStepView::Spawn(
        s.next_session,
        options,
        policy_for(s.backoff, options.reconnect_interval_ms),
    );
    match s.running {
        Some(id) => seq![ManagerStepView::Shutdown(id), start],
        None => seq![start],
    }
}

/// The manager after a connect with `options`.
pub open spec fn connected(s: ManagerView, options: ConnectArgsView) -> ManagerView {
    ManagerView {
        running: Some(s.next_session),
        next_session: following(s.next_session),
        last_options: Some(options),
        subscriptions: s.subscriptions,
        keep_alive: s.keep_alive,
        backoff: s.backoff,
    }
}

/// The steps of a disconnect: the live session, if there is one, is shut
/// down.
pub open spec fn disconnect_steps(s: ManagerView) -> Seq<ManagerStepView> {
    match s.running {
        Some(id) => seq![ManagerStepView::Shutdown(id)],
        None => Seq::empty(),
    }
}

/// The manager `s` with no live session.
pub open spec fn disconnected(s: ManagerView) -> ManagerView {
    ManagerView {
        running: None,
        next_session: s.next_session,
        last_options: s.last_options,
        subscriptions: s.subscriptions,
        keep_alive: s.keep_alive,
        backoff: s.backoff,
    }
}

/// The sessions that are live once the caller has done `steps`, where `live`
/// were live before.
pub open spec fn live_after(live: Set<u64>, steps: Seq<ManagerStepView>) -> Set<u64>
    decreases steps.len(),
{
    if steps.len() == 0 {
        live
    } else {
        match steps.last() {
            ManagerStepView::Shutdown(id) => live_after(live, steps.drop_last()).remove(id),
            ManagerStepView::Spawn(id, _, _) => live_after(live, steps.drop_last()).insert(id),
        }
    }
}

/// The sessions that the manager takes to be live.
pub open spec fn live_sessions(s: ManagerView) -> Set<u64> {
    match s.running {
        Some(id) => set![id],
        None => Set::empty(),
    }
}

impl TlcsManager {
    /// A manager with no session, no subscriptions, the default keep-alive
    /// and the given choice of backoff.
    pub fn new(backoff: BackoffChoice) -> (m: Self)
        ensures
            m@ == (ManagerView {
                running: None,
                next_session: 0,
                last_options: None,
                subscriptions: Seq::empty(),
                keep_alive: keep_alive_choice(None, None),
                backoff,
            }),
    {
        TlcsManager {
            running: None,
            next_session: 0,
            last_options: None,
            subscriptions: SubscriptionSet::new(),
            keep_alive: KeepAliveConfig::new(None, None),
            backoff,
        }
    }

    /// Whether a session runs.
    pub fn is_running(&self) -> (b: bool)
        ensures
            b == self@.running is Some,
    {
        self.running.is_some()
    }

    /// The subscriptions to restore after every connect.
    pub fn subscriptions(&self) -> (s: &SubscriptionSet)
        ensures
            s@ == self@.subscriptions,
            self@.subscriptions.no_duplicates(),
    {
        let _held: usize = self.subscriptions.len();
        &self.subscriptions
    }

    /// The keep-alive configuration in force.
    pub fn keep_alive_config(&self) -> (c: KeepAliveConfig)
        ensures
            c@ == self@.keep_alive,
    {
        self.keep_alive.duplicate()
    }

    /// The parameters of the last connect.
    pub fn last_options(&self) -> (o: Option<TlcsConnectArgs>)
        ensures
            match o {
                Some(args) => self@.last_options == Some(args@),
                None => self@.last_options is None,
            },
    {
        match &self.last_options {
            Some(args) => Some(args.duplicate()),
            None => None,
        }
    }

    fn replace_running(&mut self, next: Option<u64>) -> (previous: Option<u64>)
        ensures
            previous == old(self)@.running,
            final(self)@ == (ManagerView {
                running: next,
                next_session: old(self)@.next_session,
                last_options: old(self)@.last_options,
                subscriptions: old(self)@.subscriptions,
                keep_alive: old(self)@.keep_alive,
                backoff: old(self)@.backoff,
            }),
    {
        let previous = self.running;
        self.running = next;
        previous
    }

    /// Opens a connection with `options`. The parameters are remembered for
    /// a later reconnect. The steps that come back shut down the live
    /// session, where there is one, before they start the new one.
    pub fn connect(&mut self, options: TlcsConnectArgs) -> (steps: Vec<ManagerStep>)
        ensures
            steps_view(steps@) == connect_steps(old(self)@, options@),
            final(self)@ == connected(old(self)@, options@),
    {
        let id = self.next_session;
        let policy = match self.backoff {
            BackoffChoice::FixedInterval => BackoffPolicy::Fixed {
                interval_ms: options.reconnect_interval_ms,
            },
            BackoffChoice::Exponential => BackoffPolicy::Exponential {
                min_ms: MIN_BACKOFF_MS,
                max_ms: MAX_BACKOFF_MS,
            },
        };
        self.last_options = Some(options.duplicate());
        let mut steps: Vec<ManagerStep> = Vec::new();
        match self.replace_running(None) {
            Some(previous) => {
                steps.push(ManagerStep::Shutdown(previous));
            },
            None => {},
        }
        steps.push(ManagerStep::Spawn(id, options, policy));
        self.replace_running(Some(id));
        self.next_session = if id == u64::MAX {
            0
        } else {
            id + 1
        };
        assert(steps_view(steps@) =~= connect_steps(old(self)@, options@));
        steps
    }

    /// Closes the connection: the live session, where there is one, is to be
    /// shut down, and none is started.
    pub fn disconnect(&mut self) -> (steps: Vec<ManagerStep>)
        ensures
            steps_view(steps@) == disconnect_steps(old(self)@),
            final(self)@ == disconnected(old(self)@),
    {
        let mut steps: Vec<ManagerStep> = Vec::new();
        match self.replace_running(None) {
            Some(previous) => {
                steps.push(ManagerStep::Shutdown(previous));
            },
            None => {},
        }
        assert(steps_view(steps@) =~= disconnect_steps(old(self)@));
        steps
    }

    /// Turns a user intent into the control message for the live session.
    /// Fails, with nothing done, where no session runs.
    pub fn send_action(&self, action: TlcsUserAction) -> (r: Result<TlcsControl, ManagerError>)
        ensures
            self@.running is None ==> r == Err::<TlcsControl, ManagerError>(
                ManagerError::NotConnected,
            ),
            self@.running is Some ==> r is Ok && r->Ok_0@ == action_control(action),
    {
        if self.running.is_none() {
            return Err(ManagerError::NotConnected);
        }
        Ok(control_for(action))
    }

    /// Connects again with the parameters of the last connect. Fails, with
    /// nothing done, where there was none.
    pub fn reconnect(&mut self) -> (r: Result<Vec<ManagerStep>, ManagerError>)
        ensures
            old(self)@.last_options is None ==> r == Err::<Vec<ManagerStep>, ManagerError>(
                ManagerError::NoPreviousConnection,
            ) && final(self)@ == old(self)@,
            old(self)@.last_options is Some ==> r is Ok && steps_view(r->Ok_0@) == connect_steps(
                old(self)@,
                old(self)@.last_options->0,
            ) && final(self)@ == connected(old(self)@, old(self)@.last_options->0),
    {
        let options = match self.last_options() {
            Some(options) => options,
            None => {
                return Err(ManagerError::NoPreviousConnection);
            },
        };
        Ok(self.connect(options))
    }

    /// The frame that carries `message`, where a socket is open.
    pub fn send_frame(message: &str, link_up: bool) -> (r: Result<String, ManagerError>)
        ensures
            !link_up ==> r == Err::<String, ManagerError>(ManagerError::NoActiveConnection),
            link_up ==> r is Ok && r->Ok_0@ == framed(message@),
    {
        if !link_up {
            return Err(ManagerError::NoActiveConnection);
        }
        Ok(normalize_frame(message))
    }

    /// Subscribes to `game_id`. The game joins the subscriptions, so that it
    /// is restored after every connect, whether or not a socket is open now;
    /// the frame to send comes back where one is.
    pub fn subscribe_game(&mut self, game_id: &str, link_up: bool) -> (r: Result<
        String,
        ManagerError,
    >)
        ensures
            final(self)@.subscriptions == if old(self)@.subscriptions.contains(game_id@) {
                old(self)@.subscriptions
            } else {
                old(self)@.subscriptions.push(game_id@)
            },
            final(self)@.subscriptions.contains(game_id@),
            final(self)@.subscriptions.no_duplicates(),
            final(self)@.running == old(self)@.running,
            final(self)@.next_session == old(self)@.next_session,
            final(self)@.last_options == old(self)@.last_options,
            final(self)@.keep_alive == old(self)@.keep_alive,
            final(self)@.backoff == old(self)@.backoff,
            !link_up ==> r == Err::<String, ManagerError>(ManagerError::NoActiveConnection),
            link_up ==> r is Ok && r->Ok_0@ == framed(subscribe_text(game_id@)),
    {
        self.subscriptions.insert(game_id);
        let line = subscribe_frame(game_id);
        Self::send_frame(line.as_str(), link_up)
    }

    /// The frame that sends the move `mv` of the game `game_id`, where a
    /// socket is open.
    pub fn send_move(&self, game_id: &str, mv: &str, link_up: bool) -> (r: Result<
        String,
        ManagerError,
    >)
        ensures
            !link_up ==> r == Err::<String, ManagerError>(ManagerError::NoActiveConnection),
            link_up ==> r is Ok && r->Ok_0@ == framed(move_text(game_id@, mv@)),
    {
        let line = move_frame(game_id, mv);
        Self::send_frame(line.as_str(), link_up)
    }

    /// Sets the keep-alive interval and payload, with the defaults where one
    /// is `None`, and returns the configuration for the ticker to restart
    /// with. Session and subscriptions stay as they are.
    pub fn keep_alive(&mut self, interval_secs: Option<u64>, payload: Option<String>) -> (c:
        KeepAliveConfig)
        ensures
            c@ == keep_alive_choice(
                interval_secs,
                match payload {
                    Some(p) => Some(p@),
                    None => None,
                },
            ),
            final(self)@ == (ManagerView {
                running: old(self)@.running,
                next_session: old(self)@.next_session,
                last_options: old(self)@.last_options,
                subscriptions: old(self)@.subscriptions,
                keep_alive: c@,
                backoff: old(self)@.backoff,
            }),
    {
        let config = KeepAliveConfig::new(interval_secs, payload);
        self.keep_alive = config.duplicate();
        config
    }
}

/// At most one session is live at any time: where the manager's record of
/// the live session is right, then after every step of a connect no more
/// than one session is live, none is live when the new one starts, and at
/// the end the new one is live alone and is the one on record.
pub proof fn lemma_connect_keeps_one_session(s: ManagerView, options: ConnectArgsView, k: int)
    requires
        0 <= k <= connect_steps(s, options).len(),
    ensures
        live_after(live_sessions(s), connect_steps(s, options).take(k)).finite(),
        live_after(live_sessions(s), connect_steps(s, options).take(k)).len() <= 1,
        k == connect_steps(s, options).len() - 1 ==> live_after(
            live_sessions(s),
            connect_steps(s, options).take(k),
        ) == Set::<u64>::empty(),
        live_after(live_sessions(s), connect_steps(s, options)) == live_sessions(
            connected(s, options),
        ),
{
    let steps = connect_steps(s, options);
    let live = live_sessions(s);
    assert(steps.take(0) =~= Seq::<ManagerStepView>::empty());
    assert(steps.take(steps.len() as int) =~= steps);
    assert(live_after(live, steps.take(0)) == live);
    match s.running {
        Some(id) => {
            assert(steps.take(1) =~= seq![ManagerStepView::Shutdown(id)]);
            assert(steps.take(1).drop_last() =~= steps.take(0));
            assert(live_after(live, steps.take(1)) =~= Set::<u64>::empty());
            assert(steps.drop_last() =~= steps.take(1));
            assert(live_after(live, steps) =~= set![s.next_session]);
        },
        None => {
            assert(steps.drop_last() =~= steps.take(0));
            assert(live_after(live, steps) =~= set![s.next_session]);
        },
    }
}

/// After a disconnect no session is live.
pub proof fn lemma_disconnect_leaves_none(s: ManagerView)
    ensures
        live_after(live_sessions(s), disconnect_steps(s)) == Set::<u64>::empty(),
        live_sessions(disconnected(s)) == Set::<u64>::empty(),
{
    let steps = disconnect_steps(s);
    match s.running {
        Some(id) => {
            assert(steps.drop_last() =~= Seq::<ManagerStepView>::empty());
            assert(live_after(live_sessions(s), Seq::<ManagerStepView>::empty())
                == live_sessions(s));
            assert(live_after(live_sessions(s), steps) =~= Set::<u64>::empty());
        },
        None => {},
    }
}

/// The subscriptions outlive the sessions: neither a connect nor a
/// disconnect changes them, so that each connect finds them to restore.
pub proof fn lemma_subscriptions_survive(s: ManagerView, options: ConnectArgsView)
    ensures
        connected(s, options).subscriptions == s.subscriptions,
        disconnected(s).subscriptions == s.subscriptions,
        connected(disconnected(s), options).subscriptions == s.subscriptions,
{
}

} // verus!
