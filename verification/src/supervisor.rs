//! The reconnect state machine: when to dial, when to wait, when to stop.
//!
//! The caller dials, runs the session and sleeps. After each of these it
//! reports what came of it as a [`SupervisorEvent`] and does what the
//! [`SupervisorOutput`] says next.

use vstd::prelude::*;
use crate::backoff::{ceiling, first_delay, next_delay, Backoff, BackoffPolicy};
use crate::events::{
    connection_event, ConnectionEventView, TlcsConnectionEvent, TlcsConnectionStatus,
};
use crate::session::SessionEnd;

verus! {

/// Where the supervisor stands.
#[derive(Clone, Copy, Debug, PartialEq, Eq, Structural)]
pub enum SupervisorPhase {
    /// An attempt to connect is under way.
    Connecting,
    /// A session is live.
    Connected,
    /// The supervisor waits before the next attempt.
    Waiting,
    /// This run is over.
    Stopped,
}

/// What the caller has to do next.
#[derive(Clone, Copy, Debug, PartialEq, Eq, Structural)]
pub enum NextStep {
    /// Open the socket.
    Dial,
    /// Run the session until it ends.
    Serve,
    /// Sleep for so many milliseconds.
    Sleep(u64),
    /// Leave the loop.
    Stop,
}

/// What came of the last step.
#[derive(Clone, Debug, PartialEq, Eq)]
pub enum SupervisorEvent {
    /// The socket is open.
    DialSucceeded,
    /// The socket could not be opened, with the text of the error.
    DialFailed(String),
    /// The session ended.
    SessionEnded(SessionEnd),
    /// The sleep is over.
    WaitElapsed,
    /// The owner asked the supervisor to stop.
    Shutdown,
}

/// What a [`SupervisorEvent`] holds, as the contracts speak of it.
pub enum SupervisorEventView {
    DialSucceeded,
    DialFailed(Seq<char>),
    SessionEnded(SessionEnd),
    WaitElapsed,
    Shutdown,
}

impl View for SupervisorEvent {
    type V = SupervisorEventView;

    open spec fn view(&self) -> SupervisorEventView {
        match self {
            SupervisorEvent::DialSucceeded => SupervisorEventView::DialSucceeded,
            SupervisorEvent::DialFailed(e) => SupervisorEventView::DialFailed(e@),
            SupervisorEvent::SessionEnded(end) => SupervisorEventView::SessionEnded(*end),
            SupervisorEvent::WaitElapsed => SupervisorEventView::WaitElapsed,
            SupervisorEvent::Shutdown => SupervisorEventView::Shutdown,
        }
    }
}

/// The status changes to publish, in order, and the next step.
#[derive(Clone, Debug, PartialEq, Eq)]
pub struct SupervisorOutput {
    pub statuses: Vec<TlcsConnectionEvent>,
    pub next: NextStep,
}

/// What a [`SupervisorOutput`] holds, as the contracts speak of it.
pub struct SupervisorOutputView {
    pub statuses: Seq<ConnectionEventView>,
    pub next: NextStep,
}

impl View for SupervisorOutput {
    type V = SupervisorOutputView;

    open spec fn view(&self) -> SupervisorOutputView {
        SupervisorOutputView {
            statuses: Seq::new(self.statuses@.len(), |i: int| self.statuses@[i]@),
            next: self.next,
        }
    }
}

/// The supervisor of one run of connection attempts.
#[derive(Debug, PartialEq, Eq)]
pub struct ConnectionSupervisor {
    phase: SupervisorPhase,
    auto_reconnect: bool,
    backoff: Backoff,
}

/// What a [`ConnectionSupervisor`] holds, as the contracts speak of it.
pub struct SupervisorView {
    pub phase: SupervisorPhase,
    pub auto_reconnect: bool,
    pub policy: BackoffPolicy,
    /// The pause that the next wait takes, in milliseconds.
    pub delay: u64,
}

impl View for ConnectionSupervisor {
    type V = SupervisorView;

    closed spec fn view(&self) -> SupervisorView {
        SupervisorView {
            phase: self.phase,
            auto_reconnect: self.auto_reconnect,
            policy: self.backoff.policy(),
            delay: self.backoff.delay(),
        }
    }
}

/// Whether the pause of the supervisor `s` lies within its policy: no
/// shorter than the first pause and no longer than the ceiling. Every
/// supervisor that a caller holds is so.
pub open spec fn within_policy(s: SupervisorView) -> bool {
    first_delay(s.policy) <= s.delay <= ceiling(s.policy)
}

/// The status change `status` with the explanation `message`.
pub open spec fn note(status: TlcsConnectionStatus, message: Seq<char>) -> ConnectionEventView {
    ConnectionEventView { status, message: Some(message) }
}

/// The supervisor `s` in the phase `phase`.
pub open spec fn in_phase(s: SupervisorView, phase: SupervisorPhase) -> SupervisorView {
    SupervisorView { phase, auto_reconnect: s.auto_reconnect, policy: s.policy, delay: s.delay }
}

/// What the caller does while nothing changes.
pub open spec fn resume(s: SupervisorView) -> NextStep {
    match s.phase {
        SupervisorPhase::Connecting => NextStep::Dial,
        SupervisorPhase::Connected => NextStep::Serve,
        SupervisorPhase::Waiting => NextStep::Sleep(s.delay),
        SupervisorPhase::Stopped => NextStep::Stop,
    }
}

/// What follows an attempt that failed or a connection that dropped, after
/// the status changes `said`: with reconnection enabled, a wait of the
/// current pause, and a pause that has grown for the time after; without it,
/// the end of the run.
pub open spec fn after_loss(s: SupervisorView, said: Seq<ConnectionEventView>) -> (
    SupervisorView,
    SupervisorOutputView,
) {
    if s.auto_reconnect {
        (
            SupervisorView {
                phase: SupervisorPhase::Waiting,
                auto_reconnect: s.auto_reconnect,
                policy: s.policy,
                delay: next_delay(s.policy, s.delay),
            },
            SupervisorOutputView {
                statuses: said.push(note(TlcsConnectionStatus::Connecting, "Reconnecting"@)),
                next: NextStep::Sleep(s.delay),
            },
        )
    } else {
        (
            in_phase(s, SupervisorPhase::Stopped),
            SupervisorOutputView {
                statuses: said.push(
                    note(TlcsConnectionStatus::Disconnected, "Connection stopped"@),
                ),
                next: NextStep::Stop,
            },
        )
    }
}

/// What the event `e` does to the supervisor in the state `s`.
///
/// A request to stop ends any run that is not over. Every other event counts
/// only in the phase that waits for it, and is passed over elsewhere. A
/// socket that opens makes the run connected and puts the pause back to the
/// first. An attempt that fails and a session that is lost lead to a wait
/// or, without reconnection, to the end of the run. A session that the user
/// ended ends the run; one that the user asked to renew is dialled again at
/// once, with no wait. Every dial is announced.
pub open spec fn supervisor_step(s: SupervisorView, e: SupervisorEventView) -> (
    SupervisorView,
    SupervisorOutputView,
) {
    match (s.phase, e) {
        (SupervisorPhase::Stopped, _) => (
            s,
            SupervisorOutputView { statuses: Seq::empty(), next: NextStep::Stop },
        ),
        (_, SupervisorEventView::Shutdown) => (
            in_phase(s, SupervisorPhase::Stopped),
            SupervisorOutputView {
                statuses: seq![note(TlcsConnectionStatus::Disconnected, "Connection stopped"@)],
                next: NextStep::Stop,
            },
        ),
        (SupervisorPhase::Connecting, SupervisorEventView::DialSucceeded) => (
            SupervisorView {
                phase: SupervisorPhase::Connected,
                auto_reconnect: s.auto_reconnect,
                policy: s.policy,
                delay: first_delay(s.policy),
            },
            SupervisorOutputView {
                statuses: seq![
                    ConnectionEventView { status: TlcsConnectionStatus::Connected, message: None },
                ],
                next: NextStep::Serve,
            },
        ),
        (SupervisorPhase::Connecting, SupervisorEventView::DialFailed(err)) => after_loss(
            s,
            seq![note(TlcsConnectionStatus::Error, err)],
        ),
        (SupervisorPhase::Connected, SupervisorEventView::SessionEnded(SessionEnd::Stopped)) => (
            in_phase(s, SupervisorPhase::Stopped),
            SupervisorOutputView { statuses: Seq::empty(), next: NextStep::Stop },
        ),
        (SupervisorPhase::Connected, SupervisorEventView::SessionEnded(SessionEnd::Redial)) => (
            in_phase(s, SupervisorPhase::Connecting),
            SupervisorOutputView {
                statuses: seq![note(TlcsConnectionStatus::Connecting, "Opening TLCS socket"@)],
                next: NextStep::Dial,
            },
        ),
        (SupervisorPhase::Connected, SupervisorEventView::SessionEnded(SessionEnd::Lost)) => after_loss(
            s,
            seq![note(TlcsConnectionStatus::Error, "Connection closed"@)],
        ),
        (SupervisorPhase::Waiting, SupervisorEventView::WaitElapsed) => (
            in_phase(s, SupervisorPhase::Connecting),
            SupervisorOutputView {
                statuses: seq![note(TlcsConnectionStatus::Connecting, "Opening TLCS socket"@)],
                next: NextStep::Dial,
            },
        ),
        _ => (s, SupervisorOutputView { statuses: Seq::empty(), next: resume(s) }),
    }
}

fn note_event(status: TlcsConnectionStatus, message: &str) -> (e: TlcsConnectionEvent)
    ensures
        e@ == note(status, message@),
{
    connection_event(status, Some(String::from_str(message)))
}

impl ConnectionSupervisor {
    /// Begins a run: the first attempt is under way, and the caller dials.
    pub fn start(auto_reconnect: bool, policy: BackoffPolicy) -> (r: (Self, SupervisorOutput))
        ensures
            r.0@ == (SupervisorView {
                phase: SupervisorPhase::Connecting,
                auto_reconnect,
                policy,
                delay: first_delay(policy),
            }),
            r.1@ == (SupervisorOutputView {
                statuses: seq![note(TlcsConnectionStatus::Connecting, "Opening TLCS socket"@)],
                next: NextStep::Dial,
            }),
            within_policy(r.0@),
    {
        let supervisor = ConnectionSupervisor {
            phase: SupervisorPhase::Connecting,
            auto_reconnect,
            backoff: Backoff::new(policy),
        };
        let mut statuses: Vec<TlcsConnectionEvent> = Vec::new();
        statuses.push(note_event(TlcsConnectionStatus::Connecting, "Opening TLCS socket"));
        let out = SupervisorOutput { statuses, next: NextStep::Dial };
        assert(out@.statuses =~= seq![
            note(TlcsConnectionStatus::Connecting, "Opening TLCS socket"@),
        ]);
        (supervisor, out)
    }

    /// The phase of the supervisor.
    pub fn phase(&self) -> (p: SupervisorPhase)
        ensures
            p == self@.phase,
            within_policy(self@),
    {
        let _pause: u64 = self.backoff.delay_ms();
        self.phase
    }

    /// The pause that the next wait takes, in milliseconds.
    pub fn delay_ms(&self) -> (ms: u64)
        ensures
            ms == self@.delay,
            within_policy(self@),
    {
        self.backoff.delay_ms()
    }

    fn lose(&mut self, said: TlcsConnectionEvent) -> (out: SupervisorOutput)
        ensures
            (final(self)@, out@) == after_loss(old(self)@, seq![said@]),
    {
        let mut statuses: Vec<TlcsConnectionEvent> = Vec::new();
        statuses.push(said);
        if self.auto_reconnect {
            let wait = self.backoff.delay_ms();
            self.backoff.record_failure();
            self.phase = SupervisorPhase::Waiting;
            statuses.push(note_event(TlcsConnectionStatus::Connecting, "Reconnecting"));
            let out = SupervisorOutput { statuses, next: NextStep::Sleep(wait) };
            assert(out@.statuses =~= seq![said@].push(
                note(TlcsConnectionStatus::Connecting, "Reconnecting"@),
            ));
            out
        } else {
            self.phase = SupervisorPhase::Stopped;
            statuses.push(note_event(TlcsConnectionStatus::Disconnected, "Connection stopped"));
            let out = SupervisorOutput { statuses, next: NextStep::Stop };
            assert(out@.statuses =~= seq![said@].push(
                note(TlcsConnectionStatus::Disconnected, "Connection stopped"@),
            ));
            out
        }
    }

    fn pass(&self) -> (out: SupervisorOutput)
        ensures
            out@ == (SupervisorOutputView { statuses: Seq::empty(), next: resume(self@) }),
    {
        let next = match self.phase {
            SupervisorPhase::Connecting => NextStep::Dial,
            SupervisorPhase::Connected => NextStep::Serve,
            SupervisorPhase::Waiting => NextStep::Sleep(self.backoff.delay_ms()),
            SupervisorPhase::Stopped => NextStep::Stop,
        };
        let out = SupervisorOutput { statuses: Vec::new(), next };
        assert(out@.statuses =~= Seq::empty());
        out
    }

    fn turn(&mut self, phase: SupervisorPhase, said: Option<TlcsConnectionEvent>, next: NextStep) -> (out:
        SupervisorOutput)
        ensures
            final(self)@ == in_phase(old(self)@, phase),
            out@.next == next,
            out@.statuses == match said {
                Some(e) => seq![e@],
                None => Seq::empty(),
            },
    {
        self.phase = phase;
        let mut statuses: Vec<TlcsConnectionEvent> = Vec::new();
        match said {
            Some(e) => {
                statuses.push(e);
            },
            None => {},
        }
        let out = SupervisorOutput { statuses, next };
        assert(out@.statuses =~= match said {
            Some(e) => seq![e@],
            None => Seq::empty(),
        });
        out
    }

    /// Applies one event to the supervisor and says what the caller has to
    /// do next. The pause stays within the policy, so that no wait is longer
    /// than the ceiling of the policy.
    pub fn step(&mut self, event: SupervisorEvent) -> (out: SupervisorOutput)
        ensures
            (final(self)@, out@) == supervisor_step(old(self)@, event@),
            within_policy(old(self)@),
            within_policy(final(self)@),
            out@.next matches NextStep::Sleep(ms) ==> ms <= ceiling(old(self)@.policy),
    {
        let _before: u64 = self.backoff.delay_ms();
        let out = self.advance(event);
        let _after: u64 = self.backoff.delay_ms();
        proof {
            lemma_step_keeps_within_policy(old(self)@, event@);
        }
        out
    }

    fn advance(&mut self, event: SupervisorEvent) -> (out: SupervisorOutput)
        ensures
            (final(self)@, out@) == supervisor_step(old(self)@, event@),
    {
        match self.phase {
            SupervisorPhase::Stopped => {
                return self.pass();
            },
            _ => {},
        }
        match event {
            SupervisorEvent::Shutdown => self.turn(
                SupervisorPhase::Stopped,
                Some(note_event(TlcsConnectionStatus::Disconnected, "Connection stopped")),
                NextStep::Stop,
            ),
            SupervisorEvent::DialSucceeded => match self.phase {
                SupervisorPhase::Connecting => {
                    self.backoff.record_success();
                    self.turn(
                        SupervisorPhase::Connected,
                        Some(connection_event(TlcsConnectionStatus::Connected, None)),
                        NextStep::Serve,
                    )
                },
                _ => self.pass(),
            },
            SupervisorEvent::DialFailed(error) => match self.phase {
                SupervisorPhase::Connecting => self.lose(
                    connection_event(TlcsConnectionStatus::Error, Some(error)),
                ),
                _ => self.pass(),
            },
            SupervisorEvent::SessionEnded(end) => match self.phase {
                SupervisorPhase::Connected => match end {
                    SessionEnd::Stopped => self.turn(SupervisorPhase::Stopped, None, NextStep::Stop),
                    SessionEnd::Redial => self.turn(
                        SupervisorPhase::Connecting,
                        Some(note_event(TlcsConnectionStatus::Connecting, "Opening TLCS socket")),
                        NextStep::Dial,
                    ),
                    SessionEnd::Lost => self.lose(
                        note_event(TlcsConnectionStatus::Error, "Connection closed"),
                    ),
                },
                _ => self.pass(),
            },
            SupervisorEvent::WaitElapsed => match self.phase {
                SupervisorPhase::Waiting => self.turn(
                    SupervisorPhase::Connecting,
                    Some(note_event(TlcsConnectionStatus::Connecting, "Opening TLCS socket")),
                    NextStep::Dial,
                ),
                _ => self.pass(),
            },
        }
    }
}

/// A step keeps the pause within the policy, keeps the policy, and asks for
/// no wait longer than the ceiling of the policy.
pub proof fn lemma_step_keeps_within_policy(s: SupervisorView, e: SupervisorEventView)
    requires
        within_policy(s),
    ensures
        within_policy(supervisor_step(s, e).0),
        supervisor_step(s, e).0.policy == s.policy,
        supervisor_step(s, e).0.auto_reconnect == s.auto_reconnect,
        supervisor_step(s, e).1.next matches NextStep::Sleep(ms) ==> first_delay(s.policy) <= ms
            <= ceiling(s.policy),
{
}

/// A run that is over stays over.
pub proof fn lemma_stopped_is_final(s: SupervisorView, e: SupervisorEventView)
    requires
        s.phase == SupervisorPhase::Stopped,
    ensures
        supervisor_step(s, e).0 == s,
        supervisor_step(s, e).1.next == NextStep::Stop,
        supervisor_step(s, e).1.statuses.len() == 0,
{
}

/// Without reconnection the supervisor never dials a second time by itself:
/// a failed attempt and a lost connection end the run.
pub proof fn lemma_no_reconnect_stops(s: SupervisorView, e: SupervisorEventView)
    requires
        !s.auto_reconnect,
        (s.phase == SupervisorPhase::Connecting && e is DialFailed) || (s.phase
            == SupervisorPhase::Connected && e == SupervisorEventView::SessionEnded(
            SessionEnd::Lost,
        )),
    ensures
        supervisor_step(s, e).0.phase == SupervisorPhase::Stopped,
        supervisor_step(s, e).1.next == NextStep::Stop,
{
}

/// The pause of a wait is the pause that the backoff stood at; the next one
/// is the one that the policy lets follow; a connection that was made puts
/// the pause back to the first.
pub proof fn lemma_waits_follow_backoff(s: SupervisorView, e: SupervisorEventView)
    requires
        s.auto_reconnect,
    ensures
        s.phase == SupervisorPhase::Connecting && e is DialFailed ==> supervisor_step(s, e).1.next
            == NextStep::Sleep(s.delay) && supervisor_step(s, e).0.delay == next_delay(
            s.policy,
            s.delay,
        ),
        s.phase == SupervisorPhase::Connecting && e is DialSucceeded ==> supervisor_step(
            s,
            e,
        ).0.delay == first_delay(s.policy),
{
}

} // verus!
