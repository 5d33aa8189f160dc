//! The chess rules, from shakmaty: reading a move, playing it on a board
//! given in Forsyth-Edwards notation, and what holds of the position reached.
use vstd::prelude::*;
use shakmaty::{CastlingMode, Chess, EnPassantMode, Position};
use shakmaty::fen::Fen;
use shakmaty::san::SanPlus;
use shakmaty::uci::UciMove;
use crate::game::{MoveOutcome, PositionReport};

verus! {

pub open spec fn is_file_char(c: char) -> bool {
    'a' <= c <= 'h'
}

pub open spec fn is_rank_char(c: char) -> bool {
    '1' <= c <= '8'
}

pub open spec fn is_role_char(c: char) -> bool {
    c == 'P' || c == 'p' || c == 'N' || c == 'n' || c == 'B' || c == 'b' || c == 'R' || c == 'r'
        || c == 'Q' || c == 'q' || c == 'K' || c == 'k'
}

/// Whether the text is a move in coordinate notation: the null move "0000",
/// a piece letter, "@" and a square, two squares ("e2e4"), or two squares and
/// a promotion letter ("e7e8q").
pub open spec fn is_uci_text(s: Seq<char>) -> bool {
    ||| s.len() == 4 && s[0] == '0' && s[1] == '0' && s[2] == '0' && s[3] == '0'
    ||| s.len() == 4 && is_role_char(s[0]) && s[1] == '@' && is_file_char(s[2]) && is_rank_char(s[3])
    ||| s.len() == 4 && is_file_char(s[0]) && is_rank_char(s[1]) && is_file_char(s[2])
        && is_rank_char(s[3])
    ||| s.len() == 5 && is_file_char(s[0]) && is_rank_char(s[1]) && is_file_char(s[2])
        && is_rank_char(s[3]) && is_role_char(s[4])
}

/// Whether the text is a move in standard algebraic notation ("Nf3", "e4+").
pub uninterp spec fn is_san_text(s: Seq<char>) -> bool;

/// Whether the board text describes a valid standard chess position.
pub uninterp spec fn board_valid(board: Seq<char>) -> bool;

/// The board reached by playing the coordinate-notation move `mv` on `board`,
/// with what holds of that position; none where `mv` is not legal there.
pub uninterp spec fn uci_played(board: Seq<char>, mv: Seq<char>) -> Option<(Seq<char>, PositionReport)>;

/// The board reached by playing the algebraic-notation move `mv` on `board`,
/// with what holds of that position; none where `mv` is not legal there.
pub uninterp spec fn san_played(board: Seq<char>, mv: Seq<char>) -> Option<(Seq<char>, PositionReport)>;

/// Relies on shakmaty's `UciMove::from_ascii`, whose grammar `is_uci_text`
/// writes out; a byte outside ASCII is never accepted.
#[verifier::external_body]
fn is_uci(text: &str) -> (r: bool)
    ensures
        r == is_uci_text(text@),
{
    UciMove::from_ascii(text.as_bytes()).is_ok()
}

/// Relies on shakmaty's `SanPlus::from_ascii`: it reads the text alone.
#[verifier::external_body]
fn is_san(text: &str) -> (r: bool)
    ensures
        r == is_san_text(text@),
{
    SanPlus::from_ascii(text.as_bytes()).is_ok()
}

/// Relies on shakmaty's `Fen::from_ascii` and `Fen::into_position`.
#[verifier::external_body]
fn board_decodes(board: &str) -> (r: bool)
    ensures
        r == board_valid(board@),
{
    match Fen::from_ascii(board.as_bytes()) {
        Ok(fen) => fen.into_position::<Chess>(CastlingMode::Standard).is_ok(),
        Err(_) => false,
    }
}

/// Relies on shakmaty's `Fen::from_ascii`, `Fen::into_position`,
/// `UciMove::from_ascii`, `UciMove::to_move`, `Position::play`, the four
/// position queries, and `Fen::from_position` written out by its `Display`.
#[verifier::external_body]
fn play_uci(board: &str, mv: &str) -> (r: Option<(String, PositionReport)>)
    ensures
        r is Some == uci_played(board@, mv@) is Some,
        r matches Some(p) ==> uci_played(board@, mv@) == Some((p.0@, p.1)),
{
    let pos: Chess = Fen::from_ascii(board.as_bytes()).ok()?.into_position(CastlingMode::Standard).ok()?;
    let m = UciMove::from_ascii(mv.as_bytes()).ok()?.to_move(&pos).ok()?;
    let after = pos.play(m).ok()?;
    let report = PositionReport {
        checkmate: after.is_checkmate(),
        stalemate: after.is_stalemate(),
        insufficient_material: after.is_insufficient_material(),
        check: after.is_check(),
    };
    Some((Fen::from_position(&after, EnPassantMode::Legal).to_string(), report))
}

/// Relies on shakmaty's `Fen::from_ascii`, `Fen::into_position`,
/// `SanPlus::from_ascii`, `San::to_move`, `Position::play`, the four position
/// queries, and `Fen::from_position` written out by its `Display`.
#[verifier::external_body]
fn play_san(board: &str, mv: &str) -> (r: Option<(String, PositionReport)>)
    ensures
        r is Some == san_played(board@, mv@) is Some,
        r matches Some(p) ==> san_played(board@, mv@) == Some((p.0@, p.1)),
{
    let pos: Chess = Fen::from_ascii(board.as_bytes()).ok()?.into_position(CastlingMode::Standard).ok()?;
    let m = SanPlus::from_ascii(mv.as_bytes()).ok()?.san.to_move(&pos).ok()?;
    let after = pos.play(m).ok()?;
    let report = PositionReport {
        checkmate: after.is_checkmate(),
        stalemate: after.is_stalemate(),
        insufficient_material: after.is_insufficient_material(),
        check: after.is_check(),
    };
    Some((Fen::from_position(&after, EnPassantMode::Legal).to_string(), report))
}

/// What playing `mv` on `board` gives: coordinate notation is read first,
/// then algebraic notation.
pub open spec fn engine_played(board: Seq<char>, mv: Seq<char>) -> Option<(Seq<char>, PositionReport)> {
    if is_uci_text(mv) {
        uci_played(board, mv)
    } else {
        san_played(board, mv)
    }
}

/// `o` is what the rules make of `mv` on `board`: unreadable text, then an
/// undecodable board, then an illegal move; else the move is played.
pub open spec fn judged(board: Seq<char>, mv: Seq<char>, o: MoveOutcome) -> bool {
    if !is_uci_text(mv) && !is_san_text(mv) {
        o is Malformed
    } else if !board_valid(board) {
        o is Undecodable
    } else {
        match engine_played(board, mv) {
            None => o is Illegal,
            Some(p) => o matches MoveOutcome::Played { board: b, report } && b@ == p.0 && report
                == p.1,
        }
    }
}

/// Reads `mv` as coordinate notation, else as standard algebraic notation,
/// and plays it on the position `board` describes.
pub fn judge_move(board: &str, mv: &str) -> (o: MoveOutcome)
    ensures
        judged(board@, mv@, o),
{
    let uci = is_uci(mv);
    if !uci && !is_san(mv) {
        return MoveOutcome::Malformed;
    }
    if !board_decodes(board) {
        return MoveOutcome::Undecodable;
    }
    let played = if uci {
        play_uci(board, mv)
    } else {
        play_san(board, mv)
    };
    match played {
        None => MoveOutcome::Illegal,
        Some((b, report)) => MoveOutcome::Played { board: b, report },
    }
}

} // verus!
