//! The keep-alive ticker: a liveness frame on a timer.

use vstd::prelude::*;
use crate::frames::{framed, normalize_frame};

verus! {

/// The seconds between two keep-alive frames where none are configured.
pub const DEFAULT_KEEP_ALIVE_SECS: u64 = 30;

/// How often the ticker sends, and what.
#[derive(Clone, Debug, PartialEq, Eq)]
pub struct KeepAliveConfig {
    pub interval_secs: u64,
    pub payload: String,
}

/// What a [`KeepAliveConfig`] holds, as the contracts speak of it.
pub struct KeepAliveView {
    pub interval_secs: u64,
    pub payload: Seq<char>,
}

impl View for KeepAliveConfig {
    type V = KeepAliveView;

    open spec fn view(&self) -> KeepAliveView {
        KeepAliveView { interval_secs: self.interval_secs, payload: self.payload@ }
    }
}

/// The configuration that `interval_secs` and `payload` ask for: thirty
/// seconds and `PING` where they are left open.
pub open spec fn keep_alive_choice(interval_secs: Option<u64>, payload: Option<Seq<char>>) -> KeepAliveView {
    KeepAliveView {
        interval_secs: match interval_secs {
            Some(secs) => secs,
            None => DEFAULT_KEEP_ALIVE_SECS,
        },
        payload: match payload {
            Some(text) => text,
            None => "PING"@,
        },
    }
}

impl KeepAliveConfig {
    /// The configuration for the given interval and payload, with the
    /// defaults where one is `None`.
    pub fn new(interval_secs: Option<u64>, payload: Option<String>) -> (c: Self)
        ensures
            c@ == keep_alive_choice(
                interval_secs,
                match payload {
                    Some(p) => Some(p@),
                    None => None,
                },
            ),
    {
        KeepAliveConfig {
            interval_secs: match interval_secs {
                Some(secs) => secs,
                None => DEFAULT_KEEP_ALIVE_SECS,
            },
            payload: match payload {
                Some(text) => text,
                None => String::from_str("PING"),
            },
        }
    }

    /// A copy of this configuration.
    pub fn duplicate(&self) -> (c: Self)
        ensures
            c@ == self@,
    {
        KeepAliveConfig { interval_secs: self.interval_secs, payload: self.payload.clone() }
    }
}

/// What the ticker wakes up to.
#[derive(Clone, Debug, PartialEq, Eq)]
pub enum TickerEvent {
    /// The interval is over.
    Tick,
    /// The shutdown signal changed, to the value given.
    ShutdownSignal(bool),
    /// The last frame could not be sent, with the text of the error.
    SendFailed(String),
}

/// What a [`TickerEvent`] holds, as the contracts speak of it.
pub enum TickerEventView {
    Tick,
    ShutdownSignal(bool),
    SendFailed(Seq<char>),
}

impl View for TickerEvent {
    type V = TickerEventView;

    open spec fn view(&self) -> TickerEventView {
        match self {
            TickerEvent::Tick => TickerEventView::Tick,
            TickerEvent::ShutdownSignal(b) => TickerEventView::ShutdownSignal(*b),
            TickerEvent::SendFailed(e) => TickerEventView::SendFailed(e@),
        }
    }
}

/// What the ticker does next.
#[derive(Clone, Debug, PartialEq, Eq)]
pub enum TickerStep {
    /// Write this frame, then wait for the next tick.
    Send(String),
    /// Wait for the next tick.
    Wait,
    /// Log this warning, then wait for the next tick.
    Warn(String),
    /// End the ticker.
    Stop,
}

/// What a [`TickerStep`] holds, as the contracts speak of it.
pub enum TickerStepView {
    Send(Seq<char>),
    Wait,
    Warn(Seq<char>),
    Stop,
}

impl View for TickerStep {
    type V = TickerStepView;

    open spec fn view(&self) -> TickerStepView {
        match self {
            TickerStep::Send(f) => TickerStepView::Send(f@),
            TickerStep::Wait => TickerStepView::Wait,
            TickerStep::Warn(w) => TickerStepView::Warn(w@),
            TickerStep::Stop => TickerStepView::Stop,
        }
    }
}

/// What the ticker does on `event`: a tick sends the payload where a
/// connection is up and passes otherwise; a raised shutdown signal ends the
/// ticker; a failed send is a warning and nothing more.
pub open spec fn ticker_choice(config: KeepAliveView, link_up: bool, event: TickerEventView) -> TickerStepView {
    match event {
        TickerEventView::Tick => if link_up {
            TickerStepView::Send(framed(config.payload))
        } else {
            TickerStepView::Wait
        },
        TickerEventView::ShutdownSignal(raised) => if raised {
            TickerStepView::Stop
        } else {
            TickerStepView::Wait
        },
        TickerEventView::SendFailed(error) => TickerStepView::Warn(
            "Keep-alive send failed: "@ + error,
        ),
    }
}

/// Decides what the ticker does on `event`.
pub fn ticker_step(config: &KeepAliveConfig, link_up: bool, event: TickerEvent) -> (step: TickerStep)
    ensures
        step@ == ticker_choice(config@, link_up, event@),
{
    match event {
        TickerEvent::Tick => if link_up {
            TickerStep::Send(normalize_frame(config.payload.as_str()))
        } else {
            TickerStep::Wait
        },
        TickerEvent::ShutdownSignal(raised) => if raised {
            TickerStep::Stop
        } else {
            TickerStep::Wait
        },
        TickerEvent::SendFailed(error) => {
            let mut warning = String::from_str("Keep-alive send failed: ");
            warning.append(error.as_str());
            TickerStep::Warn(warning)
        },
    }
}

/// The ticker ends on a raised shutdown signal and on nothing else.
pub proof fn lemma_ticker_stops_on_shutdown(config: KeepAliveView, link_up: bool, event: TickerEventView)
    ensures
        ticker_choice(config, link_up, event) is Stop <==> event == TickerEventView::ShutdownSignal(
            true,
        ),
{
}

} // verus!
