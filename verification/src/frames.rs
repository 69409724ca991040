//! The frames that the client sends to the relay.

use vstd::prelude::*;
use crate::events::{ControlView, TlcsControl, TlcsUserAction};
use crate::text::{decimal_digits, decimal_text};

verus! {

/// Whether `m` ends in carriage return and line feed.
pub open spec fn ends_with_crlf(m: Seq<char>) -> bool {
    m.len() >= 2 && m[m.len() - 2] == '\r' && m[m.len() - 1] == '\n'
}

/// `m` as it goes on the wire: ended by `\r\n`, which is added where `m`
/// does not end in it already.
pub open spec fn framed(m: Seq<char>) -> Seq<char> {
    if ends_with_crlf(m) {
        m
    } else {
        m + "\r\n"@
    }
}

/// The login line for `username` and `password`.
pub open spec fn login_text(username: Seq<char>, password: Seq<char>) -> Seq<char> {
    "USER "@ + username + " "@ + password
}

/// The line that asks the relay to stream the game `game_id`.
pub open spec fn subscribe_text(game_id: Seq<char>) -> Seq<char> {
    "SUBSCRIBE "@ + game_id
}

/// The line that plays `mv` in the game `game_id`.
pub open spec fn move_text(game_id: Seq<char>, mv: Seq<char>) -> Seq<char> {
    "MOVE "@ + game_id + " "@ + mv
}

/// The address `host:port`.
pub open spec fn address_text(host: Seq<char>, port: u16) -> Seq<char> {
    host + ":"@ + decimal_digits(port as nat)
}

/// The command that a user intent puts on the wire; none for the request to
/// reconnect, which is no message to the relay.
pub open spec fn action_frame(action: TlcsUserAction) -> Option<Seq<char>> {
    match action {
        TlcsUserAction::AcceptOffer => Some("ACCEPT"@),
        TlcsUserAction::OfferDraw => Some("DRAW"@),
        TlcsUserAction::Resign => Some("RESIGN"@),
        TlcsUserAction::DeclineDraw => Some("DECLINE"@),
        TlcsUserAction::RequestReconnect => None,
    }
}

/// The control message that carries out a user intent.
pub open spec fn action_control(action: TlcsUserAction) -> ControlView {
    match action_frame(action) {
        Some(frame) => ControlView::Send(frame),
        None => ControlView::Reconnect,
    }
}

/// Ends `message` with `\r\n` unless it ends so already.
pub fn normalize_frame(message: &str) -> (r: String)
    ensures
        r@ == framed(message@),
{
    let n = message.unicode_len();
    let mut r = String::from_str(message);
    if n >= 2 && message.get_char(n - 2) == '\r' && message.get_char(n - 1) == '\n' {
        r
    } else {
        r.append("\r\n");
        r
    }
}

/// The login frame, where a user name is configured.
pub fn login_frame(username: &str, password: &str) -> (r: Option<String>)
    ensures
        username@.len() == 0 ==> r is None,
        username@.len() > 0 ==> r is Some && r->0@ == login_text(username@, password@),
{
    if username.unicode_len() == 0 {
        None
    } else {
        let mut r = String::from_str("USER ");
        r.append(username);
        r.append(" ");
        r.append(password);
        Some(r)
    }
}

/// The frame that subscribes to `game_id`.
pub fn subscribe_frame(game_id: &str) -> (r: String)
    ensures
        r@ == subscribe_text(game_id@),
{
    let mut r = String::from_str("SUBSCRIBE ");
    r.append(game_id);
    r
}

/// The frame that sends the move `mv` of the game `game_id`.
pub fn move_frame(game_id: &str, mv: &str) -> (r: String)
    ensures
        r@ == move_text(game_id@, mv@),
{
    let mut r = String::from_str("MOVE ");
    r.append(game_id);
    r.append(" ");
    r.append(mv);
    r
}

/// The address that `host` and `port` name.
pub fn address_of(host: &str, port: u16) -> (r: String)
    ensures
        r@ == address_text(host@, port),
{
    let mut r = String::from_str(host);
    r.append(":");
    let digits = decimal_text(port as u64);
    r.append(digits.as_str());
    r
}

/// Maps a user intent to the control message of the session.
pub fn control_for(action: TlcsUserAction) -> (c: TlcsControl)
    ensures
        c@ == action_control(action),
{
    match action {
        TlcsUserAction::AcceptOffer => TlcsControl::Send(String::from_str("ACCEPT")),
        TlcsUserAction::OfferDraw => TlcsControl::Send(String::from_str("DRAW")),
        TlcsUserAction::Resign => TlcsControl::Send(String::from_str("RESIGN")),
        TlcsUserAction::DeclineDraw => TlcsControl::Send(String::from_str("DECLINE")),
        TlcsUserAction::RequestReconnect => TlcsControl::Reconnect,
    }
}

/// A frame on the wire always ends in `\r\n`, and framing a frame again
/// changes nothing.
pub proof fn lemma_framed_is_terminated(m: Seq<char>)
    ensures
        ends_with_crlf(framed(m)),
        framed(framed(m)) == framed(m),
{
    reveal_strlit("\r\n");
}

} // verus!
