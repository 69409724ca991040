//! Sorting the lines that arrive from the relay.

use vstd::prelude::*;
use crate::events::{MessageEventView, TlcsMessageEvent};
use crate::text::{
    after, chars_of, find_char, has_prefix, index_of_char, slice_text, starts_with, trim,
    trim_bounds,
};

verus! {

/// What one line of the relay is.
#[derive(Clone, Debug, PartialEq, Eq)]
pub enum IncomingLine {
    /// Nothing but whitespace: no event.
    Blank,
    /// A move frame `MOVE <id> <payload>`, keyed by the game it belongs to.
    MoveFrame(TlcsMessageEvent),
    /// Any other line, forwarded as it came.
    Message(TlcsMessageEvent),
}

/// What an [`IncomingLine`] holds, as the contracts speak of it.
pub enum IncomingLineView {
    Blank,
    MoveFrame(MessageEventView),
    Message(MessageEventView),
}

impl View for IncomingLine {
    type V = IncomingLineView;

    open spec fn view(&self) -> IncomingLineView {
        match self {
            IncomingLine::Blank => IncomingLineView::Blank,
            IncomingLine::MoveFrame(e) => IncomingLineView::MoveFrame(e@),
            IncomingLine::Message(e) => IncomingLineView::Message(e@),
        }
    }
}

/// The game identifier of a move frame whose text after `MOVE ` is `rest`:
/// what stands before the first space.
pub open spec fn frame_game_id(rest: Seq<char>) -> Seq<char> {
    rest.subrange(0, index_of_char(rest, ' ') as int)
}

/// The payload of a move frame whose text after `MOVE ` is `rest`: what
/// follows the first space, or nothing where there is no space.
pub open spec fn frame_payload(rest: Seq<char>) -> Seq<char> {
    let k = index_of_char(rest, ' ');
    if k < rest.len() {
        after(rest, k + 1)
    } else {
        Seq::empty()
    }
}

/// What the line `line` is.
pub open spec fn incoming_line(line: Seq<char>) -> IncomingLineView {
    if trim(line).len() == 0 {
        IncomingLineView::Blank
    } else if has_prefix(line, "MOVE "@) {
        IncomingLineView::MoveFrame(
            MessageEventView {
                game_id: Some(frame_game_id(after(line, "MOVE "@.len()))),
                payload: frame_payload(after(line, "MOVE "@.len())),
            },
        )
    } else {
        IncomingLineView::Message(MessageEventView { game_id: None, payload: line })
    }
}

/// Sorts one line of the relay into a move frame, a message, or nothing.
pub fn handle_incoming_line(line: &str) -> (r: IncomingLine)
    ensures
        r@ == incoming_line(line@),
{
    let v = chars_of(line);
    let n = v.len();
    assert(v@.subrange(0, n as int) =~= v@);
    let (lo, hi) = trim_bounds(&v, 0, n);
    if lo == hi {
        return IncomingLine::Blank;
    }
    let tag = chars_of("MOVE ");
    proof {
        reveal_strlit("MOVE ");
    }
    if starts_with(&v, 0, n, &tag) {
        let ghost rest = after(line@, 5);
        assert(v@.subrange(5, n as int) =~= rest);
        let k = find_char(&v, 5, n, ' ');
        let game_id = slice_text(line, 5, k);
        assert(v@.subrange(5, k as int) =~= rest.subrange(0, k - 5));
        let payload = if k < n {
            assert(v@.subrange(k + 1, n as int) =~= after(rest, (k - 5 + 1) as nat));
            slice_text(line, k + 1, n)
        } else {
            assert(v@.subrange(n as int, n as int) =~= Seq::<char>::empty());
            slice_text(line, n, n)
        };
        IncomingLine::MoveFrame(TlcsMessageEvent { game_id: Some(game_id), payload })
    } else {
        IncomingLine::Message(TlcsMessageEvent { game_id: None, payload: String::from_str(line) })
    }
}

} // verus!
