//! The bridge to the chess rules: positions as text, and the moves that a
//! token stands for in a position.
//!
//! The rules themselves are those of the `shakmaty` crate. A position is
//! held as its FEN together with the castling mode it is read in, and every
//! question to the rules goes from text to text. What the rules answer is
//! not proved here; each answer has a name, and the functions of this module
//! return exactly what these names say.

use vstd::prelude::*;
use crate::game_state::opt_text;
use shakmaty::fen::Fen;
use shakmaty::san::SanPlus;
use shakmaty::uci::UciMove;
use shakmaty::{CastlingMode, Chess, EnPassantMode, Position as Rules};

verus! {

/// Whether the rules can read `fen` as a FEN at all.
pub uninterp spec fn fen_is_wellformed(fen: Seq<char>) -> bool;

/// The FEN, as the rules write it, of the position that `fen` sets up in
/// the given castling mode; none where `fen` cannot be read or sets up no
/// legal position.
pub uninterp spec fn fen_setup(fen: Seq<char>, chess960: bool) -> Option<Seq<char>>;

/// The move that the algebraic token `token` stands for in the position
/// `fen`: its coordinate form and its algebraic form, as the rules write
/// the move. None where the rules cannot read the token as an algebraic
/// move or it fits no single legal move.
pub uninterp spec fn san_resolution(fen: Seq<char>, chess960: bool, token: Seq<char>) -> Option<
    (Seq<char>, Seq<char>),
>;

/// The move that the coordinate token `token` stands for in the position
/// `fen`: its coordinate form as the rules write the token, and the
/// algebraic form as the rules write the move. None where the token is no
/// coordinate move or the move is not legal.
pub uninterp spec fn uci_resolution(fen: Seq<char>, chess960: bool, token: Seq<char>) -> Option<
    (Seq<char>, Seq<char>),
>;

/// The FEN of the position that the coordinate move `uci` leads to from the
/// position `fen`; none where it is no legal move there.
pub uninterp spec fn position_after(fen: Seq<char>, chess960: bool, uci: Seq<char>) -> Option<
    Seq<char>,
>;

/// The texts of an optional pair of strings.
pub open spec fn pair_text(o: Option<(String, String)>) -> Option<(Seq<char>, Seq<char>)> {
    match o {
        Some((a, b)) => Some((a@, b@)),
        None => None,
    }
}

/// The FEN of the standard initial position.
///
/// Calls `Chess::default`, `Fen::from_position` and the `Display` of `Fen`.
/// The contract claims that the text is the well-known FEN of the initial
/// position, with no en passant square and the counters at 0 and 1.
#[verifier::external_body]
pub(crate) fn initial_fen() -> (fen: String)
    ensures
        fen@ == "rnbqkbnr/pppppppp/8/8/8/8/PPPPPPPP/RNBQKBNR w KQkq - 0 1"@,
{
    Fen::from_position(Chess::default(), EnPassantMode::Legal).to_string()
}

/// Whether `fen` can be read as a FEN.
///
/// Calls `Fen::from_ascii`. The contract claims only that the answer
/// depends on the text alone.
#[verifier::external_body]
pub(crate) fn fen_parses(fen: &str) -> (ok: bool)
    ensures
        ok == fen_is_wellformed(fen@),
{
    Fen::from_ascii(fen.as_bytes()).is_ok()
}

/// Sets up the position that `fen` describes, in the given castling mode,
/// and writes it back as a FEN.
///
/// Calls `Fen::from_ascii` and `Fen::into_position`, in the mode that
/// `CastlingMode::from_chess960` gives, and `Fen::from_position`. The
/// contract claims only that the answer depends on the arguments alone.
#[verifier::external_body]
pub(crate) fn setup_fen(fen: &str, chess960: bool) -> (r: Option<String>)
    ensures
        opt_text(r) == fen_setup(fen@, chess960),
{
    let mode = CastlingMode::from_chess960(chess960);
    let position: Chess = Fen::from_ascii(fen.as_bytes()).ok()?.into_position(mode).ok()?;
    Some(Fen::from_position(position, EnPassantMode::Legal).to_string())
}

/// Reads `token` as an algebraic move in the position `fen`.
///
/// Calls `SanPlus::from_ascii` and `San::to_move`, on the position that
/// `Fen::from_ascii` and `Fen::into_position` set up in the mode that
/// `CastlingMode::from_chess960` gives, and writes the move that was found
/// with `Move::to_uci` and with `SanPlus::from_move`, so that the algebraic
/// form is the one that the rules give the move, not the spelling of the
/// token. The contract claims only that the answer depends on the arguments
/// alone.
#[verifier::external_body]
pub(crate) fn resolve_san(fen: &str, chess960: bool, token: &str) -> (r: Option<(String, String)>)
    ensures
        pair_text(r) == san_resolution(fen@, chess960, token@),
{
    let mode = CastlingMode::from_chess960(chess960);
    let position: Chess = Fen::from_ascii(fen.as_bytes()).ok()?.into_position(mode).ok()?;
    let mv = SanPlus::from_ascii(token.as_bytes()).ok()?.san.to_move(&position).ok()?;
    Some((mv.to_uci(mode).to_string(), SanPlus::from_move(position, &mv).to_string()))
}

/// Reads `token` as a coordinate move in the position `fen`.
///
/// Calls `UciMove::from_ascii` and `UciMove::to_move`, on the position that
/// `Fen::from_ascii` and `Fen::into_position` set up in the mode that
/// `CastlingMode::from_chess960` gives, and writes the move with the
/// `Display` of `UciMove` and with `SanPlus::from_move`. The contract claims
/// only that the answer depends on the arguments alone.
#[verifier::external_body]
pub(crate) fn resolve_uci(fen: &str, chess960: bool, token: &str) -> (r: Option<(String, String)>)
    ensures
        pair_text(r) == uci_resolution(fen@, chess960, token@),
{
    let mode = CastlingMode::from_chess960(chess960);
    let position: Chess = Fen::from_ascii(fen.as_bytes()).ok()?.into_position(mode).ok()?;
    let uci = UciMove::from_ascii(token.as_bytes()).ok()?;
    let mv = uci.to_move(&position).ok()?;
    Some((uci.to_string(), SanPlus::from_move(position, &mv).to_string()))
}

/// Plays the coordinate move `uci` in the position `fen`.
///
/// Calls `UciMove::from_ascii`, `UciMove::to_move` and
/// `Position::play_unchecked`, on the position that `Fen::from_ascii` and
/// `Fen::into_position` set up in the mode that
/// `CastlingMode::from_chess960` gives, and writes the outcome with
/// `Fen::from_position`. The move is played only where `to_move` found it
/// legal, so that `play_unchecked` is given no other. The contract claims
/// only that the answer depends on the arguments alone.
#[verifier::external_body]
pub(crate) fn play_uci(fen: &str, chess960: bool, uci: &str) -> (r: Option<String>)
    ensures
        opt_text(r) == position_after(fen@, chess960, uci@),
{
    let mode = CastlingMode::from_chess960(chess960);
    let mut position: Chess = Fen::from_ascii(fen.as_bytes()).ok()?.into_position(mode).ok()?;
    let mv = UciMove::from_ascii(uci.as_bytes()).ok()?.to_move(&position).ok()?;
    position.play_unchecked(&mv);
    Some(Fen::from_position(position, EnPassantMode::Legal).to_string())
}

/// A chess position: its FEN, and whether castling is read and written as in
/// Chess960. A text that the rules cannot read stands for a position in
/// which no move is legal.
#[derive(Clone, Debug, PartialEq, Eq)]
pub struct Position {
    pub fen: String,
    pub chess960: bool,
}

/// What a [`Position`] holds, as the contracts speak of it.
pub struct PositionView {
    pub fen: Seq<char>,
    pub chess960: bool,
}

impl View for Position {
    type V = PositionView;

    open spec fn view(&self) -> PositionView {
        PositionView { fen: self.fen@, chess960: self.chess960 }
    }
}

/// Why a FEN sets up no position.
#[derive(Clone, Copy, Debug, PartialEq, Eq, Structural)]
pub enum FenError {
    /// The text is no FEN.
    Syntax,
    /// The FEN describes no legal position.
    Illegal,
}

/// The standard initial position, with castling as in standard chess.
pub open spec fn initial_position() -> PositionView {
    PositionView {
        fen: "rnbqkbnr/pppppppp/8/8/8/8/PPPPPPPP/RNBQKBNR w KQkq - 0 1"@,
        chess960: false,
    }
}

/// The position that `fen` sets up, with castling as in Chess960.
pub open spec fn position_from_fen(fen: Seq<char>) -> Result<PositionView, FenError> {
    if !fen_is_wellformed(fen) {
        Err(FenError::Syntax)
    } else {
        match fen_setup(fen, true) {
            Some(written) => Ok(PositionView { fen: written, chess960: true }),
            None => Err(FenError::Illegal),
        }
    }
}

/// The move that `token` stands for in `p`, in coordinate and in algebraic
/// form: read as an algebraic move first, and as a coordinate move where
/// that gives no legal move.
pub open spec fn resolved_move(p: PositionView, token: Seq<char>) -> Option<(Seq<char>, Seq<char>)> {
    match san_resolution(p.fen, p.chess960, token) {
        Some(m) => Some(m),
        None => uci_resolution(p.fen, p.chess960, token),
    }
}

/// The position that the coordinate move `uci` leads to from `p`.
pub open spec fn played(p: PositionView, uci: Seq<char>) -> Option<PositionView> {
    match position_after(p.fen, p.chess960, uci) {
        Some(fen) => Some(PositionView { fen, chess960: p.chess960 }),
        None => None,
    }
}

/// The position after the coordinate moves `moves`, played in order from
/// `start`; none where one of them is not legal where it is played.
pub open spec fn replay(start: PositionView, moves: Seq<Seq<char>>) -> Option<PositionView>
    decreases moves.len(),
{
    if moves.len() == 0 {
        Some(start)
    } else {
        match replay(start, moves.drop_last()) {
            Some(p) => played(p, moves.last()),
            None => None,
        }
    }
}

impl Position {
    /// The standard initial position.
    pub fn initial() -> (p: Self)
        ensures
            p@ == initial_position(),
    {
        Position { fen: initial_fen(), chess960: false }
    }

    /// The position that `fen` sets up.
    pub fn from_fen(fen: &str) -> (r: Result<Self, FenError>)
        ensures
            match r {
                Ok(p) => position_from_fen(fen@) == Ok::<PositionView, FenError>(p@),
                Err(e) => position_from_fen(fen@) == Err::<PositionView, FenError>(e),
            },
    {
        if !fen_parses(fen) {
            return Err(FenError::Syntax);
        }
        match setup_fen(fen, true) {
            Some(written) => Ok(Position { fen: written, chess960: true }),
            None => Err(FenError::Illegal),
        }
    }

    /// A copy of this position.
    pub fn duplicate(&self) -> (p: Self)
        ensures
            p == *self,
    {
        Position { fen: self.fen.clone(), chess960: self.chess960 }
    }

    /// The move that `token` stands for in this position, in coordinate and
    /// in algebraic form.
    pub fn resolve(&self, token: &str) -> (r: Option<(String, String)>)
        ensures
            pair_text(r) == resolved_move(self@, token@),
    {
        match resolve_san(self.fen.as_str(), self.chess960, token) {
            Some(m) => Some(m),
            None => resolve_uci(self.fen.as_str(), self.chess960, token),
        }
    }

    /// The position after the coordinate move `uci`.
    pub fn play(&self, uci: &str) -> (r: Option<Self>)
        ensures
            match r {
                Some(p) => played(self@, uci@) == Some(p@),
                None => played(self@, uci@) is None,
            },
    {
        match play_uci(self.fen.as_str(), self.chess960, uci) {
            Some(fen) => Some(Position { fen, chess960: self.chess960 }),
            None => None,
        }
    }
}

} // verus!
