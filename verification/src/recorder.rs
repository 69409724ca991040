//! The game recorder: it turns the tokens of the relay into a move list and
//! into the text of a PGN record.
//!
//! The recorder writes no file. Each operation returns the text that it adds
//! to the record, and the caller appends that text to the file.

use vstd::prelude::*;
use crate::clock::local_date_stamp;
use crate::events::{ConnectOptionsView, StatusView, TlcsConnectOptions, TlcsStatus};
use crate::game_state::opt_text;
use crate::notation::{
    initial_position, played, position_from_fen, replay, resolve_san, resolve_uci, resolved_move,
    san_resolution, uci_resolution, FenError, Position, PositionView,
};
use crate::text::{
    all_digits, chars_of, decimal_digits, decimal_text, only_digits, pieces, slice_text,
    split_words, text_equals, texts, words,
};

verus! {

/// Why a recording cannot start.
#[derive(Clone, Copy, Debug, PartialEq, Eq, Structural)]
pub enum RecorderError {
    /// The initial FEN is no FEN.
    InvalidFen,
    /// The initial FEN describes no legal position.
    IllegalPosition,
}

/// The words that describe `error`.
pub open spec fn recorder_error_text(error: RecorderError) -> Seq<char> {
    match error {
        RecorderError::InvalidFen => "invalid fen"@,
        RecorderError::IllegalPosition => "illegal position"@,
    }
}

impl RecorderError {
    /// The words that describe this error.
    pub fn message(&self) -> (m: String)
        ensures
            m@ == recorder_error_text(*self),
    {
        match self {
            RecorderError::InvalidFen => String::from_str("invalid fen"),
            RecorderError::IllegalPosition => String::from_str("illegal position"),
        }
    }
}

/// What an analysis of the recorded game starts from.
#[derive(Clone, Debug, PartialEq, Eq)]
pub struct AnalysisOptions {
    pub fen: String,
    pub moves: Vec<String>,
    pub annotate_novelties: bool,
    pub reference_db: Option<String>,
    pub reversed: bool,
}

/// The record of one game: where it started, the moves in coordinate form
/// in the order played, the position they led to, and the result once it is
/// known. The result is set once and never changes; moves that arrive after
/// it are recorded like any others.
#[derive(Clone, Debug, PartialEq, Eq)]
pub struct TlcsRecorder {
    position: Position,
    start: Position,
    start_fen: String,
    moves: Vec<String>,
    result: Option<String>,
    pgn_path: String,
}

/// What a [`TlcsRecorder`] holds, as the contracts speak of it.
pub struct RecorderView {
    /// The current position.
    pub position: PositionView,
    /// The position before the first move.
    pub start: PositionView,
    /// The starting position as the record names it.
    pub start_fen: Seq<char>,
    pub moves: Seq<Seq<char>>,
    pub result: Option<Seq<char>>,
    pub pgn_path: Seq<char>,
}

impl View for TlcsRecorder {
    type V = RecorderView;

    closed spec fn view(&self) -> RecorderView {
        RecorderView {
            position: self.position@,
            start: self.start@,
            start_fen: self.start_fen@,
            moves: texts(self.moves@),
            result: opt_text(self.result),
            pgn_path: self.pgn_path@,
        }
    }
}

/// Whether `token` is one of the four result markers.
pub open spec fn is_result_marker(token: Seq<char>) -> bool {
    token == "1-0"@ || token == "0-1"@ || token == "1/2-1/2"@ || token == "*"@
}

/// What a token of the relay is taken for.
#[derive(Clone, Copy, Debug, PartialEq, Eq, Structural)]
pub enum TokenKind {
    /// No text at all.
    Empty,
    /// One of the four result markers.
    ResultMarker,
    /// A legal move in algebraic notation.
    AlgebraicMove,
    /// A legal move in coordinate notation.
    CoordinateMove,
    /// Anything else: dropped.
    Noise,
}

/// What `token` is taken for in the position `p`. The order matters: a
/// result marker is no move, and a token is read as a coordinate move only
/// where it is no legal algebraic move.
pub open spec fn token_kind(p: PositionView, token: Seq<char>) -> TokenKind {
    if token.len() == 0 {
        TokenKind::Empty
    } else if is_result_marker(token) {
        TokenKind::ResultMarker
    } else if san_resolution(p.fen, p.chess960, token) is Some {
        TokenKind::AlgebraicMove
    } else if uci_resolution(p.fen, p.chess960, token) is Some {
        TokenKind::CoordinateMove
    } else {
        TokenKind::Noise
    }
}

/// The text that the move `san` adds to the record when `ply` moves stand
/// before it: white's moves carry their move number, black's do not, and a
/// single space follows either.
pub open spec fn pgn_fragment(ply: nat, san: Seq<char>) -> Seq<char> {
    if ply % 2 == 0 {
        decimal_digits(ply / 2 + 1) + ". "@ + san + " "@
    } else {
        san + " "@
    }
}

/// The record `s` once it is finished with `outcome`: the first result
/// stays.
pub open spec fn finished(s: RecorderView, outcome: Seq<char>) -> RecorderView {
    if s.result is Some {
        s
    } else {
        RecorderView {
            position: s.position,
            start: s.start,
            start_fen: s.start_fen,
            moves: s.moves,
            result: Some(outcome),
            pgn_path: s.pgn_path,
        }
    }
}

/// The text that finishing `s` with `outcome` adds to the record: the
/// outcome itself, and nothing where the record is finished already. The
/// record ends with its result; a line feed at the end of the file is for
/// the caller to write when it closes the file.
pub open spec fn finish_output(s: RecorderView, outcome: Seq<char>) -> Seq<char> {
    if s.result is Some {
        Seq::empty()
    } else {
        outcome
    }
}

/// The record `s` after the move `uci` that leads to `next`. The move is
/// added whether or not the record has a result, and the result stays as
/// it is.
pub open spec fn with_move(s: RecorderView, uci: Seq<char>, next: PositionView) -> RecorderView {
    RecorderView {
        position: next,
        start: s.start,
        start_fen: s.start_fen,
        moves: s.moves.push(uci),
        result: s.result,
        pgn_path: s.pgn_path,
    }
}

/// The text that the move written `san` adds to the record `s`.
pub open spec fn move_output(s: RecorderView, san: Seq<char>) -> Seq<char> {
    pgn_fragment(s.moves.len(), san)
}

/// The legal move that `token` stands for in `p`: its coordinate form, its
/// algebraic form, and the position it leads to.
pub open spec fn legal_move(p: PositionView, token: Seq<char>) -> Option<
    (Seq<char>, Seq<char>, PositionView),
> {
    match resolved_move(p, token) {
        Some((uci, san)) => match played(p, uci) {
            Some(next) => Some((uci, san, next)),
            None => None,
        },
        None => None,
    }
}

/// Whether `token` adds a move to the record `s`: it is no result marker
/// and stands for a legal move in the current position.
pub open spec fn adds_move(s: RecorderView, token: Seq<char>) -> bool {
    token.len() > 0 && !is_result_marker(token) && legal_move(s.position, token) is Some
}

/// The record `s` after `token`: an empty token changes nothing; a result
/// marker finishes the record; a token that stands for a legal move adds the
/// move; any other token is dropped.
pub open spec fn token_step(s: RecorderView, token: Seq<char>) -> RecorderView {
    if token.len() == 0 {
        s
    } else if is_result_marker(token) {
        finished(s, token)
    } else {
        match legal_move(s.position, token) {
            Some((uci, san, next)) => with_move(s, uci, next),
            None => s,
        }
    }
}

/// The text that `token` adds to the record `s`.
pub open spec fn token_output(s: RecorderView, token: Seq<char>) -> Seq<char> {
    if token.len() == 0 {
        Seq::empty()
    } else if is_result_marker(token) {
        finish_output(s, token)
    } else {
        match legal_move(s.position, token) {
            Some((uci, san, next)) => move_output(s, san),
            None => Seq::empty(),
        }
    }
}

/// The record `s` after the tokens `tokens`, taken in order.
pub open spec fn record(s: RecorderView, tokens: Seq<Seq<char>>) -> RecorderView
    decreases tokens.len(),
{
    if tokens.len() == 0 {
        s
    } else {
        token_step(record(s, tokens.drop_last()), tokens.last())
    }
}

/// The text that the tokens `tokens` add to the record `s`.
pub open spec fn record_output(s: RecorderView, tokens: Seq<Seq<char>>) -> Seq<char>
    decreases tokens.len(),
{
    if tokens.len() == 0 {
        Seq::empty()
    } else {
        record_output(s, tokens.drop_last()) + token_output(
            record(s, tokens.drop_last()),
            tokens.last(),
        )
    }
}

/// How many of the tokens `tokens` add a move to the record `s`.
pub open spec fn moves_added(s: RecorderView, tokens: Seq<Seq<char>>) -> nat
    decreases tokens.len(),
{
    if tokens.len() == 0 {
        0
    } else {
        moves_added(s, tokens.drop_last()) + if adds_move(
            record(s, tokens.drop_last()),
            tokens.last(),
        ) {
            1nat
        } else {
            0nat
        }
    }
}

/// The words of `ws` that are not move numbers.
pub open spec fn without_numbers(ws: Seq<Seq<char>>) -> Seq<Seq<char>>
    decreases ws.len(),
{
    if ws.len() == 0 {
        Seq::empty()
    } else if all_digits(ws.last()) {
        without_numbers(ws.drop_last())
    } else {
        without_numbers(ws.drop_last()).push(ws.last())
    }
}

/// The tokens of a line: what stands between whitespace and full stops,
/// without the empty pieces and without the pieces made of digits alone.
pub open spec fn move_tokens(line: Seq<char>) -> Seq<Seq<char>> {
    without_numbers(words(line, true))
}

/// One line of the header block.
pub open spec fn header_line(key: Seq<char>, value: Seq<char>) -> Seq<char> {
    "["@ + key + " \""@ + value + "\"]\n"@
}

/// `value`, or `default` where there is none.
pub open spec fn or_text(value: Option<Seq<char>>, default: Seq<char>) -> Seq<char> {
    match value {
        Some(v) => v,
        None => default,
    }
}

/// Whether the header names the starting position: an initial FEN is given,
/// and the position it sets up is not the standard initial position.
pub open spec fn names_setup(initial_fen: Option<Seq<char>>, start: PositionView) -> bool {
    initial_fen is Some && start.fen != initial_position().fen
}

/// The header block of a record: the seven tags in their order, the two
/// tags of the starting position where it is not the standard one, and an
/// empty line.
pub open spec fn header_block(options: ConnectOptionsView, date: Seq<char>, start: PositionView) -> Seq<
    char,
> {
    header_line("Event"@, or_text(options.event, "TLCS Live"@)) + header_line(
        "Site"@,
        or_text(options.site, "TLCS"@),
    ) + header_line("Date"@, date) + header_line("White"@, or_text(options.white, "Unknown"@))
        + header_line("Black"@, or_text(options.black, "Unknown"@)) + header_line(
        "Round"@,
        "1"@,
    ) + header_line("Result"@, "*"@) + (if names_setup(options.initial_fen, start) {
        header_line("SetUp"@, "1"@) + header_line("FEN"@, options.initial_fen->0)
    } else {
        Seq::empty()
    }) + "\n"@
}

/// The position that a record starts from.
pub open spec fn start_of(initial_fen: Option<Seq<char>>) -> Result<PositionView, RecorderError> {
    match initial_fen {
        None => Ok(initial_position()),
        Some(fen) => match position_from_fen(fen) {
            Ok(p) => Ok(p),
            Err(FenError::Syntax) => Err(RecorderError::InvalidFen),
            Err(FenError::Illegal) => Err(RecorderError::IllegalPosition),
        },
    }
}

/// A record with no moves that starts from `start`.
pub open spec fn fresh(pgn_path: Seq<char>, initial_fen: Option<Seq<char>>, start: PositionView) -> RecorderView {
    RecorderView {
        position: start,
        start,
        start_fen: or_text(initial_fen, initial_position().fen),
        moves: Seq::empty(),
        result: None,
        pgn_path,
    }
}

/// What starting a record at `pgn_path` on the date `date` gives: the
/// fresh record and its header block, or the reason why the starting
/// position is refused.
pub open spec fn opening(pgn_path: Seq<char>, options: ConnectOptionsView, date: Seq<char>) -> Result<
    (RecorderView, Seq<char>),
    RecorderError,
> {
    match start_of(options.initial_fen) {
        Ok(start) => Ok(
            (fresh(pgn_path, options.initial_fen, start), header_block(options, date, start)),
        ),
        Err(e) => Err(e),
    }
}

/// The content of what starting a record returned.
pub open spec fn opened_view(r: Result<(TlcsRecorder, String), RecorderError>) -> Result<
    (RecorderView, Seq<char>),
    RecorderError,
> {
    match r {
        Ok((recorder, header)) => Ok((recorder@, header@)),
        Err(e) => Err(e),
    }
}

fn push_header(block: &mut String, key: &str, value: &str)
    ensures
        final(block)@ == old(block)@ + header_line(key@, value@),
{
    block.append("[");
    block.append(key);
    block.append(" \"");
    block.append(value);
    block.append("\"]\n");
    assert(block@ =~= old(block)@ + header_line(key@, value@));
}

fn text_or<'a>(value: &'a Option<String>, default: &'a str) -> (r: &'a str)
    ensures
        r@ == or_text(opt_text(*value), default@),
{
    match value {
        Some(v) => v.as_str(),
        None => default,
    }
}

/// The text that the move `san` adds to the record when `ply` moves stand
/// before it.
pub fn write_san(ply: usize, san: &str) -> (out: String)
    ensures
        out@ == pgn_fragment(ply as nat, san@),
{
    if ply % 2 == 0 {
        let mut out = decimal_text((ply / 2 + 1) as u64);
        out.append(". ");
        out.append(san);
        out.append(" ");
        out
    } else {
        let mut out = String::from_str(san);
        out.append(" ");
        out
    }
}

/// Whether `token` is one of the four result markers.
pub fn is_result_token(token: &str) -> (b: bool)
    ensures
        b == is_result_marker(token@),
{
    text_equals(token, "1-0") || text_equals(token, "0-1") || text_equals(token, "1/2-1/2")
        || text_equals(token, "*")
}

impl TlcsRecorder {
    /// Starts a record at `pgn_path`, dated `date`. Fails where the initial
    /// FEN of `options` sets up no position.
    pub fn with_date(pgn_path: String, options: &TlcsConnectOptions, date: &str) -> (r: Result<
        (Self, String),
        RecorderError,
    >)
        ensures
            opened_view(r) == opening(pgn_path@, options@, date@),
    {
        let start = match &options.initial_fen {
            None => Position::initial(),
            Some(fen) => match Position::from_fen(fen.as_str()) {
                Ok(p) => p,
                Err(FenError::Syntax) => {
                    return Err(RecorderError::InvalidFen);
                },
                Err(FenError::Illegal) => {
                    return Err(RecorderError::IllegalPosition);
                },
            },
        };
        let standard = Position::initial();
        let mut header = String::new();
        push_header(&mut header, "Event", text_or(&options.event, "TLCS Live"));
        push_header(&mut header, "Site", text_or(&options.site, "TLCS"));
        push_header(&mut header, "Date", date);
        push_header(&mut header, "White", text_or(&options.white, "Unknown"));
        push_header(&mut header, "Black", text_or(&options.black, "Unknown"));
        push_header(&mut header, "Round", "1");
        push_header(&mut header, "Result", "*");
        let ghost seven = header@;
        match &options.initial_fen {
            Some(fen) => {
                if !text_equals(start.fen.as_str(), standard.fen.as_str()) {
                    push_header(&mut header, "SetUp", "1");
                    push_header(&mut header, "FEN", fen.as_str());
                    assert(header@ =~= seven + (header_line("SetUp"@, "1"@) + header_line(
                        "FEN"@,
                        fen@,
                    )));
                }
            },
            None => {},
        }
        header.append("\n");
        let start_fen = match &options.initial_fen {
            Some(fen) => fen.clone(),
            None => standard.fen,
        };
        let recorder = TlcsRecorder {
            position: start.duplicate(),
            start,
            start_fen,
            moves: Vec::new(),
            result: None,
            pgn_path,
        };
        assert(recorder@.moves =~= Seq::<Seq<char>>::empty());
        assert(header@ =~= header_block(options@, date@, recorder@.start));
        Ok((recorder, header))
    }

    /// Starts a record at `pgn_path`, dated today. Fails where the initial
    /// FEN of `options` sets up no position.
    pub fn new(pgn_path: String, options: &TlcsConnectOptions) -> (r: Result<
        (Self, String),
        RecorderError,
    >)
        ensures
            exists|date: Seq<char>| opened_view(r) == #[trigger] opening(pgn_path@, options@, date),
    {
        let date = local_date_stamp();
        let r = Self::with_date(pgn_path, options, date.as_str());
        assert(opened_view(r) == opening(pgn_path@, options@, date@));
        r
    }

    /// The path of the file that holds the record.
    pub fn pgn_path(&self) -> (p: String)
        ensures
            p@ == self@.pgn_path,
    {
        self.pgn_path.clone()
    }

    /// The number of moves recorded.
    pub fn moves_recorded(&self) -> (n: usize)
        ensures
            n == self@.moves.len(),
    {
        self.moves.len()
    }

    /// The moves recorded, in coordinate form and in the order played.
    pub fn moves(&self) -> (m: Vec<String>)
        ensures
            texts(m@) == self@.moves,
    {
        let mut m: Vec<String> = Vec::new();
        let mut i: usize = 0;
        while i < self.moves.len()
            invariant
                i <= self.moves.len(),
                m.len() == i,
                forall|j: int| 0 <= j < i ==> (#[trigger] m[j])@ == self.moves[j]@,
            decreases self.moves.len() - i,
        {
            m.push(self.moves[i].clone());
            i = i + 1;
        }
        assert(texts(m@) =~= texts(self.moves@));
        m
    }

    /// The result, once the record is finished.
    pub fn result(&self) -> (r: Option<String>)
        ensures
            opt_text(r) == self@.result,
    {
        match &self.result {
            Some(outcome) => Some(outcome.clone()),
            None => None,
        }
    }

    /// The current position.
    pub fn position(&self) -> (p: Position)
        ensures
            p@ == self@.position,
    {
        self.position.duplicate()
    }

    /// Finishes the record with `outcome` and returns the text to write. A
    /// record that is finished already stays as it is, and nothing is to be
    /// written.
    pub fn finish(&mut self, outcome: &str) -> (out: String)
        ensures
            final(self)@ == finished(old(self)@, outcome@),
            out@ == finish_output(old(self)@, outcome@),
    {
        if self.result.is_some() {
            return String::new();
        }
        self.result = Some(String::from_str(outcome));
        String::from_str(outcome)
    }

    /// Adds the move `uci`, written `san` in algebraic notation, that leads
    /// to the position `next`, and returns the text to write. A result that
    /// is set stays, and the move is recorded all the same.
    pub fn record_move(&mut self, uci: String, san: &str, next: Position) -> (out: String)
        ensures
            final(self)@ == with_move(old(self)@, uci@, next@),
            out@ == move_output(old(self)@, san@),
    {
        let out = write_san(self.moves.len(), san);
        self.position = next;
        self.moves.push(uci);
        assert(self@.moves =~= old(self)@.moves.push(uci@));
        out
    }

    /// What `token` is taken for in the current position. Nothing changes;
    /// the answer tells a caller which tokens the record drops.
    pub fn classify(&self, token: &str) -> (kind: TokenKind)
        ensures
            kind == token_kind(self@.position, token@),
    {
        if token.unicode_len() == 0 {
            TokenKind::Empty
        } else if is_result_token(token) {
            TokenKind::ResultMarker
        } else if resolve_san(self.position.fen.as_str(), self.position.chess960, token).is_some() {
            TokenKind::AlgebraicMove
        } else if resolve_uci(self.position.fen.as_str(), self.position.chess960, token).is_some() {
            TokenKind::CoordinateMove
        } else {
            TokenKind::Noise
        }
    }

    /// Takes one token of the relay and returns the text to write: a result
    /// marker finishes the record, a legal move is added to it, and any
    /// other token is dropped without a trace.
    pub fn append_token(&mut self, token: &str) -> (out: String)
        ensures
            final(self)@ == token_step(old(self)@, token@),
            out@ == token_output(old(self)@, token@),
    {
        if token.unicode_len() == 0 {
            return String::new();
        }
        if is_result_token(token) {
            return self.finish(token);
        }
        match self.position.resolve(token) {
            Some((uci, san)) => match self.position.play(uci.as_str()) {
                Some(next) => self.record_move(uci, san.as_str(), next),
                None => String::new(),
            },
            None => String::new(),
        }
    }

    /// The tokens of a line of the relay.
    pub fn tokens_from_line(line: &str) -> (tokens: Vec<String>)
        ensures
            texts(tokens@) == move_tokens(line@),
    {
        let v = chars_of(line);
        assert(v@.subrange(0, v.len() as int) =~= v@);
        let ranges = split_words(&v, 0, v.len(), true);
        let ghost ws = words(line@, true);
        let mut tokens: Vec<String> = Vec::new();
        let mut k: usize = 0;
        assert(ws.take(0) =~= Seq::<Seq<char>>::empty());
        assert(texts(tokens@) =~= Seq::<Seq<char>>::empty());
        while k < ranges.len()
            invariant
                k <= ranges.len(),
                v@ == line@,
                ws == pieces(v@, ranges@),
                forall|j: int|
                    0 <= j < ranges.len() ==> 0 <= (#[trigger] ranges[j]).0 < ranges[j].1
                        <= v.len(),
                texts(tokens@) == without_numbers(ws.take(k as int)),
            decreases ranges.len() - k,
        {
            let (a, b) = ranges[k];
            let ghost before = texts(tokens@);
            assert(ws.take(k + 1).drop_last() =~= ws.take(k as int));
            assert(ws.take(k + 1).last() == v@.subrange(a as int, b as int));
            if !only_digits(&v, a, b) {
                tokens.push(slice_text(line, a, b));
                assert(texts(tokens@) =~= before.push(v@.subrange(a as int, b as int)));
            }
            k = k + 1;
        }
        assert(ws.take(k as int) =~= ws);
        tokens
    }

    /// Takes the tokens of one line of the relay, in order, and returns the
    /// text to write.
    pub fn append_moves_from_line(&mut self, line: &str) -> (out: String)
        ensures
            final(self)@ == record(old(self)@, move_tokens(line@)),
            out@ == record_output(old(self)@, move_tokens(line@)),
    {
        let tokens = Self::tokens_from_line(line);
        let ghost all = move_tokens(line@);
        let mut out = String::new();
        let mut k: usize = 0;
        assert(all.take(0) =~= Seq::<Seq<char>>::empty());
        while k < tokens.len()
            invariant
                k <= tokens.len(),
                texts(tokens@) == all,
                self@ == record(old(self)@, all.take(k as int)),
                out@ == record_output(old(self)@, all.take(k as int)),
            decreases tokens.len() - k,
        {
            assert(all.take(k + 1).drop_last() =~= all.take(k as int));
            assert(all.take(k + 1).last() == tokens[k as int]@);
            let piece = self.append_token(tokens[k].as_str());
            out.append(piece.as_str());
            k = k + 1;
        }
        assert(all.take(k as int) =~= all);
        out
    }

    /// What an analysis of the game starts from: the starting position and
    /// the moves so far.
    pub fn analysis_options(&self) -> (o: AnalysisOptions)
        ensures
            o.fen@ == self@.start_fen,
            texts(o.moves@) == self@.moves,
            !o.annotate_novelties,
            o.reference_db is None,
            !o.reversed,
    {
        AnalysisOptions {
            fen: self.start_fen.clone(),
            moves: self.moves(),
            annotate_novelties: false,
            reference_db: None,
            reversed: false,
        }
    }
}

/// The status of the record `recorder`, or of no recording.
pub open spec fn status_of(recorder: Option<RecorderView>) -> StatusView {
    match recorder {
        Some(r) => StatusView {
            recording: true,
            pgn_path: Some(r.pgn_path),
            moves_recorded: r.moves.len(),
        },
        None => StatusView { recording: false, pgn_path: None, moves_recorded: 0 },
    }
}

/// The content of an optional record.
pub open spec fn opt_recorder(recorder: Option<&TlcsRecorder>) -> Option<RecorderView> {
    match recorder {
        Some(r) => Some(r@),
        None => None,
    }
}

/// The status of the recording that `recorder` holds, or of none.
pub fn tlcs_status(recorder: Option<&TlcsRecorder>) -> (s: TlcsStatus)
    ensures
        s@ == status_of(opt_recorder(recorder)),
{
    match recorder {
        Some(r) => TlcsStatus {
            recording: true,
            pgn_path: Some(r.pgn_path()),
            moves_recorded: r.moves_recorded(),
        },
        None => TlcsStatus { recording: false, pgn_path: None, moves_recorded: 0 },
    }
}

/// What an analysis of the recording that `recorder` holds starts from.
pub fn tlcs_analysis_options(recorder: Option<&TlcsRecorder>) -> (o: Option<AnalysisOptions>)
    ensures
        o is Some <==> recorder is Some,
        o is Some ==> o->0.fen@ == recorder->0@.start_fen && texts(o->0.moves@)
            == recorder->0@.moves,
        o is Some ==> !o->0.annotate_novelties && o->0.reference_db is None && !o->0.reversed,
{
    match recorder {
        Some(r) => Some(r.analysis_options()),
        None => None,
    }
}

/// Whether the moves of the record `s`, replayed from its starting
/// position, lead to its current position.
pub open spec fn replays(s: RecorderView) -> bool {
    replay(s.start, s.moves) == Some(s.position)
}

/// Finishing twice keeps the first result: the second call changes nothing
/// and writes nothing, whatever its outcome says.
pub proof fn lemma_finish_keeps_first_result(s: RecorderView, first: Seq<char>, second: Seq<char>)
    ensures
        finished(finished(s, first), second) == finished(s, first),
        finish_output(finished(s, first), second) == Seq::<char>::empty(),
        s.result is None ==> finished(finished(s, first), second).result == Some(first),
        s.result is Some ==> finished(finished(s, first), second).result == s.result,
{
}

/// A fresh record replays: with no move made, it stands at its start.
pub proof fn lemma_fresh_replays(
    pgn_path: Seq<char>,
    initial_fen: Option<Seq<char>>,
    start: PositionView,
)
    ensures
        replays(fresh(pgn_path, initial_fen, start)),
        fresh(pgn_path, initial_fen, start).moves.len() == 0,
{
}

/// One token adds at most one move, and adds one exactly where it stands for
/// a legal move in the current position, whether or not the record has a
/// result. What it leaves is a record that replays, where the record
/// replayed before.
pub proof fn lemma_token_step_replays(s: RecorderView, token: Seq<char>)
    ensures
        token_step(s, token).moves.len() == s.moves.len() + if adds_move(s, token) {
            1nat
        } else {
            0nat
        },
        token_step(s, token).start == s.start,
        replays(s) ==> replays(token_step(s, token)),
{
    let t = token_step(s, token);
    if adds_move(s, token) {
        let m = legal_move(s.position, token)->0;
        assert(t == with_move(s, m.0, m.2));
        assert(t.moves.drop_last() =~= s.moves);
        assert(t.moves.last() == m.0);
    }
}

/// The move list grows by one for each token that stands for a legal move
/// where it is taken, and by nothing else: its length is the number of such
/// tokens. And replaying the move list from the starting position gives the
/// current position, after any tokens.
pub proof fn lemma_record_counts_and_replays(s: RecorderView, tokens: Seq<Seq<char>>)
    ensures
        record(s, tokens).moves.len() == s.moves.len() + moves_added(s, tokens),
        record(s, tokens).start == s.start,
        replays(s) ==> replays(record(s, tokens)),
    decreases tokens.len(),
{
    if tokens.len() > 0 {
        lemma_record_counts_and_replays(s, tokens.drop_last());
        lemma_token_step_replays(record(s, tokens.drop_last()), tokens.last());
    }
}

/// Only a token that is taken for a move adds a move, and a token that is
/// empty or noise changes nothing and writes nothing.
pub proof fn lemma_kinds_and_steps(s: RecorderView, token: Seq<char>)
    ensures
        adds_move(s, token) ==> token_kind(s.position, token) == TokenKind::AlgebraicMove
            || token_kind(s.position, token) == TokenKind::CoordinateMove,
        token_kind(s.position, token) == TokenKind::Empty || token_kind(s.position, token)
            == TokenKind::Noise ==> token_step(s, token) == s && token_output(s, token)
            == Seq::<char>::empty(),
        token_kind(s.position, token) == TokenKind::ResultMarker ==> token_step(s, token)
            == finished(s, token),
{
}

/// Whether the result of the record `s`, if it has one, is one of the four
/// result markers.
pub open spec fn result_is_marker(s: RecorderView) -> bool {
    s.result is Some ==> is_result_marker(s.result->0)
}

/// Tokens set no result but one of the four markers.
pub proof fn lemma_result_is_marker(s: RecorderView, tokens: Seq<Seq<char>>)
    requires
        result_is_marker(s),
    ensures
        result_is_marker(record(s, tokens)),
    decreases tokens.len(),
{
    if tokens.len() > 0 {
        lemma_result_is_marker(s, tokens.drop_last());
    }
}

/// A result that is set never changes: no token replaces it, whether it is
/// a result marker or a move.
pub proof fn lemma_result_never_changes(s: RecorderView, tokens: Seq<Seq<char>>)
    requires
        s.result is Some,
    ensures
        record(s, tokens).result == s.result,
    decreases tokens.len(),
{
    if tokens.len() > 0 {
        lemma_result_never_changes(s, tokens.drop_last());
    }
}

} // verus!
