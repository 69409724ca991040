//! The game state that the relay reports, and how one protocol line changes it.

use vstd::prelude::*;
use crate::text::{
    after, ascii_fold, chars_of, eq_ignore_ascii_case, has_prefix, matches_ignoring_case, parse_decimal,
    parse_u64, pieces, slice_text, split_words, starts_with, trim, trim_bounds, words,
};

verus! {

/// The text that an optional string holds.
pub open spec fn opt_text(o: Option<String>) -> Option<Seq<char>> {
    match o {
        Some(s) => Some(s@),
        None => None,
    }
}

/// A copy of an optional string.
pub fn copy_opt_text(o: &Option<String>) -> (r: Option<String>)
    ensures
        r == *o,
{
    match o {
        Some(s) => Some(s.clone()),
        None => None,
    }
}

/// What is known of the game that the relay streams.
#[derive(Clone, Debug, PartialEq, Eq)]
pub struct TlcsGameState {
    pub fen: Option<String>,
    pub white_clock_ms: Option<u64>,
    pub black_clock_ms: Option<u64>,
    pub status: Option<String>,
    pub last_move: Option<String>,
    pub can_offer_draw: bool,
    pub can_accept_draw: bool,
    pub can_resign: bool,
}

/// The mathematical content of a [`TlcsGameState`].
pub struct GameStateView {
    pub fen: Option<Seq<char>>,
    pub white_clock_ms: Option<u64>,
    pub black_clock_ms: Option<u64>,
    pub status: Option<Seq<char>>,
    pub last_move: Option<Seq<char>>,
    pub can_offer_draw: bool,
    pub can_accept_draw: bool,
    pub can_resign: bool,
}

impl View for TlcsGameState {
    type V = GameStateView;

    open spec fn view(&self) -> GameStateView {
        GameStateView {
            fen: opt_text(self.fen),
            white_clock_ms: self.white_clock_ms,
            black_clock_ms: self.black_clock_ms,
            status: opt_text(self.status),
            last_move: opt_text(self.last_move),
            can_offer_draw: self.can_offer_draw,
            can_accept_draw: self.can_accept_draw,
            can_resign: self.can_resign,
        }
    }
}

/// The state before any line has been seen.
pub open spec fn initial_state() -> GameStateView {
    GameStateView {
        fen: None,
        white_clock_ms: None,
        black_clock_ms: None,
        status: None,
        last_move: None,
        can_offer_draw: false,
        can_accept_draw: false,
        can_resign: false,
    }
}

impl Default for TlcsGameState {
    fn default() -> (s: Self)
        ensures
            s@ == initial_state(),
    {
        TlcsGameState {
            fen: None,
            white_clock_ms: None,
            black_clock_ms: None,
            status: None,
            last_move: None,
            can_offer_draw: false,
            can_accept_draw: false,
            can_resign: false,
        }
    }
}

impl TlcsGameState {
    /// A copy of this state.
    pub fn duplicate(&self) -> (r: Self)
        ensures
            r == *self,
    {
        TlcsGameState {
            fen: copy_opt_text(&self.fen),
            white_clock_ms: self.white_clock_ms,
            black_clock_ms: self.black_clock_ms,
            status: copy_opt_text(&self.status),
            last_move: copy_opt_text(&self.last_move),
            can_offer_draw: self.can_offer_draw,
            can_accept_draw: self.can_accept_draw,
            can_resign: self.can_resign,
        }
    }
}

/// The field that a line with the prefix `tag` sets: the trimmed remainder of
/// the trimmed line, or `prev` where the line has another shape.
pub open spec fn tagged_field(prev: Option<Seq<char>>, line: Seq<char>, tag: Seq<char>) -> Option<
    Seq<char>,
> {
    if has_prefix(trim(line), tag) {
        Some(trim(after(trim(line), tag.len())))
    } else {
        prev
    }
}

/// The milliseconds that a clock token gives for the side `tag` (`w=` or
/// `b=`), where it is a token of that side and its number parses.
pub open spec fn clock_reading(token: Seq<char>, tag: Seq<char>) -> Option<u64> {
    if has_prefix(token, tag) {
        parse_u64(after(token, tag.len()))
    } else {
        None
    }
}

/// The clock of one side after the tokens of a clock line: the reading of the
/// last token that gives one, else `prev`.
pub open spec fn clock_after(prev: Option<u64>, tokens: Seq<Seq<char>>, tag: Seq<char>) -> Option<
    u64,
>
    decreases tokens.len(),
{
    if tokens.len() == 0 {
        prev
    } else {
        match clock_reading(tokens.last(), tag) {
            Some(ms) => Some(ms),
            None => clock_after(prev, tokens.drop_last(), tag),
        }
    }
}

/// The clock of the side `tag` after `line`.
pub open spec fn clock_field(prev: Option<u64>, line: Seq<char>, tag: Seq<char>) -> Option<u64> {
    if has_prefix(trim(line), "clock "@) {
        clock_after(prev, words(after(trim(line), "clock "@.len()), false), tag)
    } else {
        prev
    }
}

/// Whether a draw can be accepted after `line`.
pub open spec fn accept_field(prev: bool, line: Seq<char>) -> bool {
    if eq_ignore_ascii_case(trim(line), "offer cancel"@) {
        false
    } else if eq_ignore_ascii_case(trim(line), "offer draw"@) {
        true
    } else {
        prev
    }
}

/// The state that follows `prev` once `line` has been processed.
pub open spec fn next_state(prev: GameStateView, line: Seq<char>) -> GameStateView {
    GameStateView {
        fen: tagged_field(prev.fen, line, "fen "@),
        white_clock_ms: clock_field(prev.white_clock_ms, line, "w="@),
        black_clock_ms: clock_field(prev.black_clock_ms, line, "b="@),
        status: tagged_field(prev.status, line, "status "@),
        last_move: tagged_field(prev.last_move, line, "move "@),
        can_offer_draw: true,
        can_accept_draw: accept_field(prev.can_accept_draw, line),
        can_resign: true,
    }
}

/// Reads the field of a line `v[lo..hi]` that begins with `tag`.
fn read_tagged(src: &str, v: &Vec<char>, lo: usize, hi: usize, tag: &str) -> (r: Option<String>)
    requires
        v@ == src@,
        lo <= hi <= v.len(),
        v@.subrange(lo as int, hi as int) == trim(src@),
    ensures
        r is Some <==> has_prefix(trim(src@), tag@),
        r is Some ==> r->0@ == trim(after(trim(src@), tag@.len())),
{
    let t = chars_of(tag);
    if starts_with(v, lo, hi, &t) {
        let (a, b) = trim_bounds(v, lo + t.len(), hi);
        assert(v@.subrange(lo + t.len(), hi as int) =~= after(
            v@.subrange(lo as int, hi as int),
            t@.len(),
        ));
        Some(slice_text(src, a, b))
    } else {
        None
    }
}

/// Reads the clocks of the tokens `v[lo..hi]` of a clock line.
fn read_clocks(v: &Vec<char>, lo: usize, hi: usize, white: Option<u64>, black: Option<u64>) -> (r: (
    Option<u64>,
    Option<u64>,
))
    requires
        lo <= hi <= v.len(),
    ensures
        r.0 == clock_after(white, words(v@.subrange(lo as int, hi as int), false), "w="@),
        r.1 == clock_after(black, words(v@.subrange(lo as int, hi as int), false), "b="@),
{
    let ranges = split_words(v, lo, hi, false);
    let w_tag = chars_of("w=");
    let b_tag = chars_of("b=");
    let ghost tokens = words(v@.subrange(lo as int, hi as int), false);
    let mut w = white;
    let mut b = black;
    let mut k: usize = 0;
    assert(tokens.take(0) =~= Seq::<Seq<char>>::empty());
    while k < ranges.len()
        invariant
            k <= ranges.len(),
            lo <= hi <= v.len(),
            tokens == pieces(v@, ranges@),
            forall|j: int| 0 <= j < ranges.len() ==> lo <= (#[trigger] ranges[j]).0 < ranges[j].1 <= hi,
            w_tag@ == "w="@,
            b_tag@ == "b="@,
            w == clock_after(white, tokens.take(k as int), "w="@),
            b == clock_after(black, tokens.take(k as int), "b="@),
        decreases ranges.len() - k,
    {
        let (a, e) = ranges[k];
        let ghost token = v@.subrange(a as int, e as int);
        proof {
            reveal_strlit("w=");
            reveal_strlit("b=");
            assert(tokens.take(k + 1).drop_last() =~= tokens.take(k as int));
            assert(tokens.take(k + 1).last() == token);
        }
        if starts_with(v, a, e, &w_tag) {
            assert(v@.subrange(a + 2, e as int) =~= after(token, 2));
            match parse_decimal(v, a + 2, e) {
                Some(ms) => {
                    w = Some(ms);
                },
                None => {},
            }
        }
        if starts_with(v, a, e, &b_tag) {
            assert(v@.subrange(a + 2, e as int) =~= after(token, 2));
            match parse_decimal(v, a + 2, e) {
                Some(ms) => {
                    b = Some(ms);
                },
                None => {},
            }
        }
        k = k + 1;
    }
    assert(tokens.take(k as int) =~= tokens);
    (w, b)
}

/// Applies one protocol line to the game state.
///
/// A line sets the fields that its shape names and leaves the others as they
/// were; every line makes offering a draw and resigning available. The state
/// that follows depends on the state before and on the line, and on nothing
/// else.
pub fn update_state_from_line(state: &mut TlcsGameState, line: &str)
    ensures
        final(state)@ == next_state(old(state)@, line@),
{
    let v = chars_of(line);
    let (lo, hi) = trim_bounds(&v, 0, v.len());
    assert(v@.subrange(0, v.len() as int) =~= v@);
    let ghost n = trim(line@);

    match read_tagged(line, &v, lo, hi, "fen ") {
        Some(fen) => {
            state.fen = Some(fen);
        },
        None => {},
    }
    match read_tagged(line, &v, lo, hi, "status ") {
        Some(status) => {
            state.status = Some(status);
        },
        None => {},
    }
    match read_tagged(line, &v, lo, hi, "move ") {
        Some(last_move) => {
            state.last_move = Some(last_move);
        },
        None => {},
    }

    let clock_tag = chars_of("clock ");
    if starts_with(&v, lo, hi, &clock_tag) {
        proof {
            reveal_strlit("clock ");
        }
        assert(v@.subrange(lo + 6, hi as int) =~= after(n, 6));
        let (w, b) = read_clocks(&v, lo + 6, hi, state.white_clock_ms, state.black_clock_ms);
        state.white_clock_ms = w;
        state.black_clock_ms = b;
    }

    let draw = chars_of("offer draw");
    if matches_ignoring_case(&v, lo, hi, &draw) {
        state.can_accept_draw = true;
    }
    let cancel = chars_of("offer cancel");
    if matches_ignoring_case(&v, lo, hi, &cancel) {
        state.can_accept_draw = false;
    }

    state.can_offer_draw = true;
    state.can_resign = true;
}

/// A field that the line does not mention keeps its value.
pub proof fn lemma_unmentioned_fields_kept(prev: GameStateView, line: Seq<char>)
    ensures
        !has_prefix(trim(line), "fen "@) ==> next_state(prev, line).fen == prev.fen,
        !has_prefix(trim(line), "status "@) ==> next_state(prev, line).status == prev.status,
        !has_prefix(trim(line), "move "@) ==> next_state(prev, line).last_move == prev.last_move,
        !has_prefix(trim(line), "clock "@) ==> next_state(prev, line).white_clock_ms
            == prev.white_clock_ms && next_state(prev, line).black_clock_ms == prev.black_clock_ms,
        !eq_ignore_ascii_case(trim(line), "offer draw"@) && !eq_ignore_ascii_case(
            trim(line),
            "offer cancel"@,
        ) ==> next_state(prev, line).can_accept_draw == prev.can_accept_draw,
        next_state(prev, line).can_offer_draw && next_state(prev, line).can_resign,
{
}

/// The first character of a text that has a prefix is the first character
/// of the prefix.
proof fn lemma_prefix_starts(s: Seq<char>, p: Seq<char>)
    requires
        has_prefix(s, p),
        p.len() > 0,
    ensures
        s.len() > 0,
        s[0] == p[0],
{
    assert(s.subrange(0, p.len() as int)[0] == s[0]);
}

/// The shapes of lines exclude each other: a line that sets the position,
/// the status, the last move or the clocks sets nothing else, but for the
/// two flags that every line sets.
pub proof fn lemma_line_sets_one_field(prev: GameStateView, line: Seq<char>)
    ensures
        has_prefix(trim(line), "fen "@) ==> next_state(prev, line) == (GameStateView {
            fen: next_state(prev, line).fen,
            can_offer_draw: true,
            can_resign: true,
            ..prev
        }),
        has_prefix(trim(line), "status "@) ==> next_state(prev, line) == (GameStateView {
            status: next_state(prev, line).status,
            can_offer_draw: true,
            can_resign: true,
            ..prev
        }),
        has_prefix(trim(line), "move "@) ==> next_state(prev, line) == (GameStateView {
            last_move: next_state(prev, line).last_move,
            can_offer_draw: true,
            can_resign: true,
            ..prev
        }),
        has_prefix(trim(line), "clock "@) ==> next_state(prev, line) == (GameStateView {
            white_clock_ms: next_state(prev, line).white_clock_ms,
            black_clock_ms: next_state(prev, line).black_clock_ms,
            can_offer_draw: true,
            can_resign: true,
            ..prev
        }),
{
    reveal_strlit("fen ");
    reveal_strlit("status ");
    reveal_strlit("move ");
    reveal_strlit("clock ");
    reveal_strlit("offer draw");
    reveal_strlit("offer cancel");
    let n = trim(line);
    if has_prefix(n, "fen "@) {
        lemma_prefix_starts(n, "fen "@);
    }
    if has_prefix(n, "status "@) {
        lemma_prefix_starts(n, "status "@);
    }
    if has_prefix(n, "move "@) {
        lemma_prefix_starts(n, "move "@);
    }
    if has_prefix(n, "clock "@) {
        lemma_prefix_starts(n, "clock "@);
    }
    if eq_ignore_ascii_case(n, "offer draw"@) {
        assert(ascii_fold(n[0]) == ascii_fold("offer draw"@[0]));
    }
    if eq_ignore_ascii_case(n, "offer cancel"@) {
        assert(ascii_fold(n[0]) == ascii_fold("offer cancel"@[0]));
    }
}

} // verus!
