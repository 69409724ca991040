//! The notices of the subscription client: where the link stands, and what
//! went wrong.

use vstd::prelude::*;
use crate::events::{StatusEventView, TlcsErrorEvent, TlcsStatusEvent};

verus! {

/// Where the link to the relay stands.
#[derive(Clone, Copy, Debug, PartialEq, Eq, Structural)]
pub enum LinkState {
    /// The socket is open.
    Connected,
    /// The socket was closed; the client may dial again.
    Disconnected,
    /// The client has given up on this run.
    Stopped,
}

/// What failed.
#[derive(Clone, Copy, Debug, PartialEq, Eq, Structural)]
pub enum Failure {
    /// The socket could not be opened.
    Connect,
    /// The subscriptions could not be sent again after a connect.
    RestoreSubscriptions,
    /// A line could not be read.
    Read,
    /// A subscription could not be sent.
    Subscribe,
    /// A move could not be sent.
    SendMove,
}

/// The word that tells the host of `state`.
pub open spec fn link_text(state: LinkState) -> Seq<char> {
    match state {
        LinkState::Connected => "connected"@,
        LinkState::Disconnected => "disconnected"@,
        LinkState::Stopped => "stopped"@,
    }
}

/// The notice that the link to `address` is in `state`.
pub open spec fn link_notice(state: LinkState, address: Seq<char>) -> StatusEventView {
    StatusEventView {
        connected: state == LinkState::Connected,
        address,
        message: Some(link_text(state)),
    }
}

/// The words that tell the host that `failure` happened with the error
/// `error`, on the link to `address`.
pub open spec fn failure_text(failure: Failure, address: Seq<char>, error: Seq<char>) -> Seq<char> {
    match failure {
        Failure::Connect => "Connection to "@ + address + " failed: "@ + error,
        Failure::RestoreSubscriptions => "Failed to restore subscriptions: "@ + error,
        Failure::Read => "Failed to read from TLCS: "@ + error,
        Failure::Subscribe => "Failed to subscribe: "@ + error,
        Failure::SendMove => "Failed to send move: "@ + error,
    }
}

/// The notice that the link to `address` is in `state`.
pub fn link_event(state: LinkState, address: &str) -> (e: TlcsStatusEvent)
    ensures
        e@ == link_notice(state, address@),
{
    let (connected, word) = match state {
        LinkState::Connected => (true, "connected"),
        LinkState::Disconnected => (false, "disconnected"),
        LinkState::Stopped => (false, "stopped"),
    };
    TlcsStatusEvent {
        connected,
        address: String::from_str(address),
        message: Some(String::from_str(word)),
    }
}

/// The notice that `failure` happened with the error `error`, on the link
/// to `address`.
pub fn emit_error(failure: Failure, address: &str, error: &str) -> (e: TlcsErrorEvent)
    ensures
        e@ == failure_text(failure, address@, error@),
{
    let mut message = match failure {
        Failure::Connect => {
            let mut head = String::from_str("Connection to ");
            head.append(address);
            head.append(" failed: ");
            head
        },
        Failure::RestoreSubscriptions => String::from_str("Failed to restore subscriptions: "),
        Failure::Read => String::from_str("Failed to read from TLCS: "),
        Failure::Subscribe => String::from_str("Failed to subscribe: "),
        Failure::SendMove => String::from_str("Failed to send move: "),
    };
    message.append(error);
    TlcsErrorEvent { message }
}

} // verus!
