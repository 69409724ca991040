use tlcs::backoff::{Backoff, BackoffPolicy, MAX_BACKOFF_MS, MIN_BACKOFF_MS};
use tlcs::events::{
    connection_event, error_event, status_event, TlcsConnectArgs, TlcsConnectionEvent,
    TlcsConnectionStatus, TlcsControl, TlcsErrorEvent, TlcsMessageEvent,
    TlcsStatusEvent, TlcsUserAction,
};
use tlcs::frames::{
    address_of, control_for, login_frame, move_frame, normalize_frame, subscribe_frame,
};
use tlcs::game_state::TlcsGameState;
use tlcs::incoming::IncomingLine;
use tlcs::keep_alive::{ticker_step, KeepAliveConfig, TickerEvent, TickerStep, DEFAULT_KEEP_ALIVE_SECS};
use tlcs::manager::{BackoffChoice, ManagerError, ManagerStep, TlcsManager};
use tlcs::notices::{emit_error, link_event, Failure, LinkState};
use tlcs::session::{ConnectionSession, SessionEnd, SessionEvent, SessionOutput, SessionPhase};
use tlcs::subscriptions::SubscriptionSet;
use tlcs::supervisor::{
    ConnectionSupervisor, NextStep, SupervisorEvent, SupervisorOutput, SupervisorPhase,
};

fn args(auto_reconnect: bool, interval: u64) -> TlcsConnectArgs {
    TlcsConnectArgs {
        host: "relay.example".to_string(),
        port: 5000,
        username: "ann".to_string(),
        password: "pw".to_string(),
        auto_reconnect,
        reconnect_interval_ms: interval,
    }
}

fn note(status: TlcsConnectionStatus, message: &str) -> TlcsConnectionEvent {
    TlcsConnectionEvent { status, message: Some(message.to_string()) }
}

fn quiet() -> SessionOutput {
    SessionOutput { frame: None, status: None, game: None, incoming: None, end: None }
}

fn live() -> ConnectionSession {
    let mut s = ConnectionSession::dialing();
    s.connected("", "", &SubscriptionSet::new());
    s
}

const EXP: BackoffPolicy = BackoffPolicy::Exponential { min_ms: 1000, max_ms: 30000 };

#[test]
fn frames_end_in_carriage_return_and_line_feed() {
    assert_eq!(normalize_frame("PING"), "PING\r\n");
    assert_eq!(normalize_frame("PING\r\n"), "PING\r\n");
    assert_eq!(normalize_frame("PING\n"), "PING\n\r\n");
    assert_eq!(normalize_frame(""), "\r\n");
    assert_eq!(normalize_frame("\r\n"), "\r\n");
    assert_eq!(normalize_frame("\n"), "\n\r\n");
}

#[test]
fn login_needs_a_user_name() {
    assert_eq!(login_frame("ann", "pw"), Some("USER ann pw".to_string()));
    assert_eq!(login_frame("ann", ""), Some("USER ann ".to_string()));
    assert_eq!(login_frame("", "pw"), None);
}

#[test]
fn command_frames() {
    assert_eq!(subscribe_frame("g1"), "SUBSCRIBE g1");
    assert_eq!(move_frame("g1", "e2e4"), "MOVE g1 e2e4");
    assert_eq!(address_of("relay.example", 5000), "relay.example:5000");
    assert_eq!(address_of("h", 0), "h:0");
    assert_eq!(address_of("h", 65535), "h:65535");
}

#[test]
fn user_intents_map_to_commands() {
    assert_eq!(control_for(TlcsUserAction::AcceptOffer), TlcsControl::Send("ACCEPT".to_string()));
    assert_eq!(control_for(TlcsUserAction::OfferDraw), TlcsControl::Send("DRAW".to_string()));
    assert_eq!(control_for(TlcsUserAction::Resign), TlcsControl::Send("RESIGN".to_string()));
    assert_eq!(control_for(TlcsUserAction::DeclineDraw), TlcsControl::Send("DECLINE".to_string()));
    assert_eq!(control_for(TlcsUserAction::RequestReconnect), TlcsControl::Reconnect);
}

#[test]
fn events_are_built_from_their_parts() {
    assert_eq!(
        connection_event(TlcsConnectionStatus::Error, Some("x".to_string())),
        note(TlcsConnectionStatus::Error, "x")
    );
    assert_eq!(error_event("bad"), TlcsErrorEvent { message: "bad".to_string() });
    assert_eq!(
        status_event(true, "h:1", "connected"),
        TlcsStatusEvent { connected: true, address: "h:1".to_string(), message: Some("connected".to_string()) }
    );
    assert_eq!(args(true, 5).duplicate(), args(true, 5));
}

#[test]
fn backoff_doubles_up_to_the_ceiling_and_starts_over() {
    let mut b = Backoff::exponential();
    let mut seen = Vec::new();
    for _ in 0..8 {
        seen.push(b.delay_ms());
        b.record_failure();
    }
    assert_eq!(seen, vec![1000, 2000, 4000, 8000, 16000, 30000, 30000, 30000]);
    assert!(seen.windows(2).all(|w| w[0] <= w[1]));
    assert!(seen.iter().all(|&d| d <= MAX_BACKOFF_MS));
    b.record_success();
    assert_eq!(b.delay_ms(), MIN_BACKOFF_MS);
}

#[test]
fn three_failures_then_success() {
    let mut b = Backoff::new(EXP);
    let first = b.delay_ms();
    b.record_failure();
    let second = b.delay_ms();
    b.record_failure();
    let third = b.delay_ms();
    b.record_failure();
    assert_eq!((first, second, third), (1000, 2000, 4000));
    b.record_success();
    assert_eq!(b.delay_ms(), 1000);
}

#[test]
fn fixed_interval_is_at_least_half_a_second() {
    let mut b = Backoff::new(BackoffPolicy::Fixed { interval_ms: 100 });
    assert_eq!(b.delay_ms(), 500);
    b.record_failure();
    assert_eq!(b.delay_ms(), 500);
    let mut c = Backoff::new(BackoffPolicy::Fixed { interval_ms: 2500 });
    c.record_failure();
    c.record_failure();
    assert_eq!(c.delay_ms(), 2500);
    c.record_success();
    assert_eq!(c.delay_ms(), 2500);
}

#[test]
fn backoff_bounds_hold_at_the_edges() {
    let mut b = Backoff::new(BackoffPolicy::Exponential { min_ms: 50, max_ms: 10 });
    assert_eq!(b.delay_ms(), 10);
    b.record_failure();
    assert_eq!(b.delay_ms(), 10);
    let mut c = Backoff::new(BackoffPolicy::Exponential { min_ms: u64::MAX - 1, max_ms: u64::MAX });
    c.record_failure();
    assert_eq!(c.delay_ms(), u64::MAX);
    let mut z = Backoff::new(BackoffPolicy::Exponential { min_ms: 0, max_ms: 7 });
    z.record_failure();
    assert_eq!(z.delay_ms(), 0);
    let mut o = Backoff::new(BackoffPolicy::Exponential { min_ms: 3, max_ms: 7 });
    o.record_failure();
    assert_eq!(o.delay_ms(), 6);
    o.record_failure();
    assert_eq!(o.delay_ms(), 7);
}

#[test]
fn subscriptions_hold_each_game_once() {
    let mut s = SubscriptionSet::new();
    assert!(s.insert("g1"));
    assert!(s.insert("g2"));
    assert!(!s.insert("g1"));
    assert_eq!(s.len(), 2);
    assert!(s.contains("g2"));
    assert!(!s.contains("g3"));
    assert_eq!(s.ids(), vec!["g1", "g2"]);
    assert_eq!(s.replay_frames(), vec!["SUBSCRIBE g1\r\n", "SUBSCRIBE g2\r\n"]);
    assert_eq!(SubscriptionSet::new().replay_frames(), Vec::<String>::new());
}

#[test]
fn a_session_opens_with_login_and_subscriptions() {
    let mut subs = SubscriptionSet::new();
    subs.insert("g1");
    subs.insert("g2");
    let mut s = ConnectionSession::dialing();
    assert_eq!(s.phase(), SessionPhase::Dialing);
    let frames = s.connected("ann", "pw", &subs);
    assert_eq!(frames, vec!["USER ann pw\r\n", "SUBSCRIBE g1\r\n", "SUBSCRIBE g2\r\n"]);
    assert_eq!(s.phase(), SessionPhase::Connected);
    assert_eq!(s.connected("ann", "pw", &subs), Vec::<String>::new());

    let mut anonymous = ConnectionSession::dialing();
    assert_eq!(anonymous.connected("", "pw", &subs), vec!["SUBSCRIBE g1\r\n", "SUBSCRIBE g2\r\n"]);
}

#[test]
fn a_failed_dial_closes_the_session() {
    let mut s = ConnectionSession::dialing();
    let out = s.dial_failed("refused".to_string());
    assert_eq!(out.status, Some(note(TlcsConnectionStatus::Error, "refused")));
    assert_eq!(out.end, Some(SessionEnd::Lost));
    assert!(s.is_closed());
    assert_eq!(s.dial_failed("again".to_string()), quiet());
    assert_eq!(s.connected("a", "b", &SubscriptionSet::new()), Vec::<String>::new());
    assert!(s.is_closed());
}

#[test]
fn a_dialing_session_serves_nothing() {
    let mut s = ConnectionSession::dialing();
    assert_eq!(s.step(SessionEvent::Line("fen x".to_string())), quiet());
    assert_eq!(s.step(SessionEvent::Control(TlcsControl::Disconnect)), quiet());
    assert_eq!(s.phase(), SessionPhase::Dialing);
    assert_eq!(s.game_state(), TlcsGameState::default());
}

#[test]
fn lines_update_the_game_and_are_published() {
    let mut s = live();
    let out = s.step(SessionEvent::Line("clock w=5 b=6".to_string()));
    let game = out.game.unwrap();
    assert_eq!(game.raw, Some("clock w=5 b=6".to_string()));
    assert_eq!(game.state.white_clock_ms, Some(5));
    assert_eq!(game.state.black_clock_ms, Some(6));
    assert!(game.state.can_resign);
    assert_eq!(
        out.incoming,
        Some(IncomingLine::Message(TlcsMessageEvent { game_id: None, payload: "clock w=5 b=6".to_string() }))
    );
    assert_eq!((out.frame, out.status, out.end), (None, None, None));
    assert_eq!(s.game_state(), game.state);

    let out = s.step(SessionEvent::Line("MOVE g1 e2e4".to_string()));
    assert_eq!(
        out.incoming,
        Some(IncomingLine::MoveFrame(TlcsMessageEvent { game_id: Some("g1".to_string()), payload: "e2e4".to_string() }))
    );
    assert_eq!(out.game.unwrap().state.white_clock_ms, Some(5));
    assert_eq!(s.phase(), SessionPhase::Connected);
}

#[test]
fn commands_are_framed() {
    let mut s = live();
    let out = s.step(SessionEvent::Control(TlcsControl::Send("RESIGN".to_string())));
    assert_eq!(out, SessionOutput { frame: Some("RESIGN\r\n".to_string()), ..quiet() });
    let out = s.step(SessionEvent::Control(TlcsControl::Send("X\r\n".to_string())));
    assert_eq!(out.frame, Some("X\r\n".to_string()));
    assert_eq!(s.phase(), SessionPhase::Connected);
}

#[test]
fn every_way_of_closing_a_session() {
    let cases: Vec<(SessionEvent, Option<TlcsConnectionEvent>, SessionEnd)> = vec![
        (SessionEvent::RemoteClosed, None, SessionEnd::Lost),
        (SessionEvent::ControlClosed, None, SessionEnd::Lost),
        (SessionEvent::ReadFailed("r".to_string()), Some(note(TlcsConnectionStatus::Error, "r")), SessionEnd::Lost),
        (SessionEvent::WriteFailed("w".to_string()), Some(note(TlcsConnectionStatus::Error, "w")), SessionEnd::Lost),
        (
            SessionEvent::Control(TlcsControl::Disconnect),
            Some(note(TlcsConnectionStatus::Disconnected, "Disconnected by user")),
            SessionEnd::Stopped,
        ),
        (
            SessionEvent::Control(TlcsControl::Reconnect),
            Some(note(TlcsConnectionStatus::Connecting, "Manual reconnect")),
            SessionEnd::Redial,
        ),
    ];
    for (event, status, end) in cases {
        let mut s = live();
        let out = s.step(event);
        assert_eq!(out, SessionOutput { status, end: Some(end), ..quiet() });
        assert!(s.is_closed());
        assert_eq!(s.step(SessionEvent::Line("fen x".to_string())), quiet());
        assert_eq!(s.step(SessionEvent::Control(TlcsControl::Send("A".to_string()))), quiet());
        assert!(s.is_closed());
    }
}

#[test]
fn the_supervisor_dials_first() {
    let (s, out) = ConnectionSupervisor::start(true, EXP);
    assert_eq!(
        out,
        SupervisorOutput {
            statuses: vec![note(TlcsConnectionStatus::Connecting, "Opening TLCS socket")],
            next: NextStep::Dial,
        }
    );
    assert_eq!(s.phase(), SupervisorPhase::Connecting);
    assert_eq!(s.delay_ms(), 1000);
}

#[test]
fn failures_back_off_and_success_starts_over() {
    let (mut s, _) = ConnectionSupervisor::start(true, EXP);
    let mut waits = Vec::new();
    for _ in 0..3 {
        let out = s.step(SupervisorEvent::DialFailed("refused".to_string()));
        assert_eq!(
            out.statuses,
            vec![note(TlcsConnectionStatus::Error, "refused"), note(TlcsConnectionStatus::Connecting, "Reconnecting")]
        );
        match out.next {
            NextStep::Sleep(ms) => waits.push(ms),
            other => panic!("{other:?}"),
        }
        assert_eq!(s.phase(), SupervisorPhase::Waiting);
        let out = s.step(SupervisorEvent::WaitElapsed);
        assert_eq!(out.next, NextStep::Dial);
        assert_eq!(out.statuses, vec![note(TlcsConnectionStatus::Connecting, "Opening TLCS socket")]);
    }
    assert_eq!(waits, vec![1000, 2000, 4000]);
    let out = s.step(SupervisorEvent::DialSucceeded);
    assert_eq!(
        out,
        SupervisorOutput {
            statuses: vec![TlcsConnectionEvent { status: TlcsConnectionStatus::Connected, message: None }],
            next: NextStep::Serve,
        }
    );
    assert_eq!(s.delay_ms(), 1000);
    let out = s.step(SupervisorEvent::SessionEnded(SessionEnd::Lost));
    assert_eq!(out.next, NextStep::Sleep(1000));
    assert_eq!(
        out.statuses,
        vec![note(TlcsConnectionStatus::Error, "Connection closed"), note(TlcsConnectionStatus::Connecting, "Reconnecting")]
    );
    assert_eq!(s.delay_ms(), 2000);
}

#[test]
fn without_reconnection_a_loss_ends_the_run() {
    let (mut s, _) = ConnectionSupervisor::start(false, BackoffPolicy::Fixed { interval_ms: 100 });
    let out = s.step(SupervisorEvent::DialFailed("refused".to_string()));
    assert_eq!(out.next, NextStep::Stop);
    assert_eq!(
        out.statuses,
        vec![note(TlcsConnectionStatus::Error, "refused"), note(TlcsConnectionStatus::Disconnected, "Connection stopped")]
    );
    assert_eq!(s.phase(), SupervisorPhase::Stopped);
    for e in [SupervisorEvent::DialSucceeded, SupervisorEvent::WaitElapsed, SupervisorEvent::Shutdown, SupervisorEvent::SessionEnded(SessionEnd::Redial)] {
        assert_eq!(s.step(e), SupervisorOutput { statuses: vec![], next: NextStep::Stop });
    }

    let (mut t, _) = ConnectionSupervisor::start(false, EXP);
    t.step(SupervisorEvent::DialSucceeded);
    let out = t.step(SupervisorEvent::SessionEnded(SessionEnd::Lost));
    assert_eq!(out.next, NextStep::Stop);
}

#[test]
fn fixed_interval_waits() {
    let (mut s, _) = ConnectionSupervisor::start(true, BackoffPolicy::Fixed { interval_ms: 100 });
    assert_eq!(s.step(SupervisorEvent::DialFailed("e".to_string())).next, NextStep::Sleep(500));
    s.step(SupervisorEvent::WaitElapsed);
    assert_eq!(s.step(SupervisorEvent::DialFailed("e".to_string())).next, NextStep::Sleep(500));
}

#[test]
fn the_user_ends_or_renews_a_session() {
    let (mut s, _) = ConnectionSupervisor::start(true, EXP);
    s.step(SupervisorEvent::DialSucceeded);
    let out = s.step(SupervisorEvent::SessionEnded(SessionEnd::Redial));
    assert_eq!(
        out,
        SupervisorOutput {
            statuses: vec![note(TlcsConnectionStatus::Connecting, "Opening TLCS socket")],
            next: NextStep::Dial,
        }
    );
    assert_eq!(s.delay_ms(), 1000);
    assert_eq!(s.phase(), SupervisorPhase::Connecting);
    s.step(SupervisorEvent::DialSucceeded);
    let out = s.step(SupervisorEvent::SessionEnded(SessionEnd::Stopped));
    assert_eq!(out, SupervisorOutput { statuses: vec![], next: NextStep::Stop });
    assert_eq!(s.phase(), SupervisorPhase::Stopped);
}

#[test]
fn shutdown_stops_in_every_phase() {
    for setup in 0..3 {
        let (mut s, _) = ConnectionSupervisor::start(true, EXP);
        if setup == 1 {
            s.step(SupervisorEvent::DialSucceeded);
        }
        if setup == 2 {
            s.step(SupervisorEvent::DialFailed("e".to_string()));
        }
        let out = s.step(SupervisorEvent::Shutdown);
        assert_eq!(
            out,
            SupervisorOutput {
                statuses: vec![note(TlcsConnectionStatus::Disconnected, "Connection stopped")],
                next: NextStep::Stop,
            }
        );
        assert_eq!(s.phase(), SupervisorPhase::Stopped);
    }
}

#[test]
fn events_out_of_turn_are_passed_over() {
    let (mut s, _) = ConnectionSupervisor::start(true, EXP);
    assert_eq!(s.step(SupervisorEvent::WaitElapsed), SupervisorOutput { statuses: vec![], next: NextStep::Dial });
    assert_eq!(s.step(SupervisorEvent::SessionEnded(SessionEnd::Lost)).next, NextStep::Dial);
    s.step(SupervisorEvent::DialSucceeded);
    assert_eq!(s.step(SupervisorEvent::DialFailed("e".to_string())), SupervisorOutput { statuses: vec![], next: NextStep::Serve });
    s.step(SupervisorEvent::SessionEnded(SessionEnd::Lost));
    assert_eq!(s.step(SupervisorEvent::DialSucceeded), SupervisorOutput { statuses: vec![], next: NextStep::Sleep(2000) });
    assert_eq!(s.phase(), SupervisorPhase::Waiting);
}

#[test]
fn connect_shuts_the_old_session_down_first() {
    let mut m = TlcsManager::new(BackoffChoice::FixedInterval);
    assert!(!m.is_running());
    let first = m.connect(args(true, 700));
    assert_eq!(first, vec![ManagerStep::Spawn(0, args(true, 700), BackoffPolicy::Fixed { interval_ms: 700 })]);
    assert!(m.is_running());
    let second = m.connect(args(false, 50));
    assert_eq!(
        second,
        vec![
            ManagerStep::Shutdown(0),
            ManagerStep::Spawn(1, args(false, 50), BackoffPolicy::Fixed { interval_ms: 50 }),
        ]
    );
    assert_eq!(m.last_options(), Some(args(false, 50)));
}

#[test]
fn at_most_one_session_is_live() {
    let mut m = TlcsManager::new(BackoffChoice::Exponential);
    let mut live: Vec<u64> = Vec::new();
    let mut plans = Vec::new();
    plans.push(m.connect(args(true, 1)));
    plans.push(m.connect(args(true, 2)));
    plans.push(m.reconnect().unwrap());
    plans.push(m.disconnect());
    plans.push(m.disconnect());
    plans.push(m.connect(args(true, 3)));
    for plan in plans {
        for step in plan {
            match step {
                ManagerStep::Shutdown(id) => live.retain(|&x| x != id),
                ManagerStep::Spawn(id, _, policy) => {
                    assert!(live.is_empty());
                    assert_eq!(policy, EXP);
                    live.push(id);
                }
            }
            assert!(live.len() <= 1);
        }
    }
    assert_eq!(live, vec![3]);
    assert!(m.is_running());
}

#[test]
fn disconnect_stops_the_session() {
    let mut m = TlcsManager::new(BackoffChoice::Exponential);
    assert_eq!(m.disconnect(), vec![]);
    m.connect(args(true, 1));
    assert_eq!(m.disconnect(), vec![ManagerStep::Shutdown(0)]);
    assert!(!m.is_running());
    assert_eq!(m.send_action(TlcsUserAction::Resign), Err(ManagerError::NotConnected));
    assert_eq!(m.last_options(), Some(args(true, 1)));
}

#[test]
fn actions_need_a_session() {
    let mut m = TlcsManager::new(BackoffChoice::Exponential);
    assert_eq!(m.send_action(TlcsUserAction::OfferDraw), Err(ManagerError::NotConnected));
    assert_eq!(m.send_action(TlcsUserAction::RequestReconnect), Err(ManagerError::NotConnected));
    m.connect(args(true, 1));
    assert_eq!(m.send_action(TlcsUserAction::OfferDraw), Ok(TlcsControl::Send("DRAW".to_string())));
    assert_eq!(m.send_action(TlcsUserAction::AcceptOffer), Ok(TlcsControl::Send("ACCEPT".to_string())));
    assert_eq!(m.send_action(TlcsUserAction::RequestReconnect), Ok(TlcsControl::Reconnect));
}

#[test]
fn reconnect_needs_an_earlier_connect() {
    let mut m = TlcsManager::new(BackoffChoice::FixedInterval);
    assert_eq!(m.reconnect(), Err(ManagerError::NoPreviousConnection));
    assert!(!m.is_running());
    assert_eq!(m.last_options(), None);
    m.connect(args(true, 900));
    m.disconnect();
    assert_eq!(
        m.reconnect(),
        Ok(vec![ManagerStep::Spawn(1, args(true, 900), BackoffPolicy::Fixed { interval_ms: 900 })])
    );
    assert_eq!(
        m.reconnect(),
        Ok(vec![
            ManagerStep::Shutdown(1),
            ManagerStep::Spawn(2, args(true, 900), BackoffPolicy::Fixed { interval_ms: 900 }),
        ])
    );
}

#[test]
fn manager_errors_have_words() {
    assert_eq!(ManagerError::NotConnected.message(), "Not connected");
    assert_eq!(ManagerError::NoPreviousConnection.message(), "No previous connection");
    assert_eq!(ManagerError::NoActiveConnection.message(), "No active TLCS connection");
}

#[test]
fn subscriptions_are_kept_and_sent_again_after_a_reconnect() {
    let mut m = TlcsManager::new(BackoffChoice::Exponential);
    m.connect(args(true, 1));
    assert_eq!(m.subscribe_game("g1", true), Ok("SUBSCRIBE g1\r\n".to_string()));
    assert_eq!(m.subscribe_game("g2", false), Err(ManagerError::NoActiveConnection));
    assert_eq!(m.subscribe_game("g1", true), Ok("SUBSCRIBE g1\r\n".to_string()));
    assert_eq!(m.subscriptions().ids(), vec!["g1", "g2"]);
    m.disconnect();
    m.reconnect().unwrap();
    let mut session = ConnectionSession::dialing();
    let frames = session.connected("", "", m.subscriptions());
    assert_eq!(frames, vec!["SUBSCRIBE g1\r\n", "SUBSCRIBE g2\r\n"]);
    assert_eq!(m.subscribe_game("g3", true), Ok("SUBSCRIBE g3\r\n".to_string()));
    assert_eq!(m.subscriptions().ids(), vec!["g1", "g2", "g3"]);
}

#[test]
fn moves_and_frames_need_a_link() {
    let m = TlcsManager::new(BackoffChoice::Exponential);
    assert_eq!(m.send_move("g1", "e2e4", true), Ok("MOVE g1 e2e4\r\n".to_string()));
    assert_eq!(m.send_move("g1", "e2e4", false), Err(ManagerError::NoActiveConnection));
    assert_eq!(TlcsManager::send_frame("PING", true), Ok("PING\r\n".to_string()));
    assert_eq!(TlcsManager::send_frame("PING", false), Err(ManagerError::NoActiveConnection));
}

#[test]
fn keep_alive_defaults_and_restart() {
    let mut m = TlcsManager::new(BackoffChoice::Exponential);
    assert_eq!(DEFAULT_KEEP_ALIVE_SECS, 30);
    assert_eq!(m.keep_alive_config(), KeepAliveConfig { interval_secs: 30, payload: "PING".to_string() });
    m.connect(args(true, 1));
    m.subscribe_game("g1", true).unwrap();
    let c = m.keep_alive(Some(5), Some("NOOP".to_string()));
    assert_eq!(c, KeepAliveConfig { interval_secs: 5, payload: "NOOP".to_string() });
    assert_eq!(m.keep_alive_config(), c);
    assert!(m.is_running());
    assert_eq!(m.subscriptions().ids(), vec!["g1"]);
    assert_eq!(m.keep_alive(None, None), KeepAliveConfig { interval_secs: 30, payload: "PING".to_string() });
    assert_eq!(KeepAliveConfig::new(Some(0), None), KeepAliveConfig { interval_secs: 0, payload: "PING".to_string() });
    assert_eq!(c.duplicate(), c);
}

#[test]
fn the_ticker_sends_warns_and_stops() {
    let c = KeepAliveConfig::new(None, None);
    assert_eq!(ticker_step(&c, true, TickerEvent::Tick), TickerStep::Send("PING\r\n".to_string()));
    assert_eq!(ticker_step(&c, false, TickerEvent::Tick), TickerStep::Wait);
    assert_eq!(ticker_step(&c, true, TickerEvent::ShutdownSignal(false)), TickerStep::Wait);
    assert_eq!(ticker_step(&c, true, TickerEvent::ShutdownSignal(true)), TickerStep::Stop);
    assert_eq!(
        ticker_step(&c, true, TickerEvent::SendFailed("broken pipe".to_string())),
        TickerStep::Warn("Keep-alive send failed: broken pipe".to_string())
    );
    let custom = KeepAliveConfig::new(Some(1), Some("HB\r\n".to_string()));
    assert_eq!(ticker_step(&custom, true, TickerEvent::Tick), TickerStep::Send("HB\r\n".to_string()));
}

#[test]
fn notices_of_the_link() {
    assert_eq!(
        link_event(LinkState::Connected, "h:1"),
        TlcsStatusEvent { connected: true, address: "h:1".to_string(), message: Some("connected".to_string()) }
    );
    assert_eq!(
        link_event(LinkState::Disconnected, "h:1"),
        TlcsStatusEvent { connected: false, address: "h:1".to_string(), message: Some("disconnected".to_string()) }
    );
    assert_eq!(
        link_event(LinkState::Stopped, "h:1"),
        TlcsStatusEvent { connected: false, address: "h:1".to_string(), message: Some("stopped".to_string()) }
    );
}

#[test]
fn notices_of_failures() {
    assert_eq!(emit_error(Failure::Connect, "h:1", "refused").message, "Connection to h:1 failed: refused");
    assert_eq!(emit_error(Failure::RestoreSubscriptions, "h:1", "e").message, "Failed to restore subscriptions: e");
    assert_eq!(emit_error(Failure::Read, "h:1", "e").message, "Failed to read from TLCS: e");
    assert_eq!(emit_error(Failure::Subscribe, "h:1", "e").message, "Failed to subscribe: e");
    assert_eq!(emit_error(Failure::SendMove, "h:1", "e").message, "Failed to send move: e");
}
