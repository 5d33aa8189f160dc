//! The game record and the transitions of its lifecycle.
use vstd::prelude::*;
use crate::engine::{board_valid, engine_played, is_san_text, is_uci_text, judge_move};

verus! {

/// The identity of a participant: the 32 bytes of a public key.
#[derive(Clone, Copy, Debug)]
pub struct Identity {
    pub bytes: [u8; 32],
}

impl PartialEq for Identity {
    fn eq(&self, o: &Identity) -> (r: bool) {
        let mut i: usize = 0;
        while i < 32
            invariant
                i <= 32,
                forall|j: int| 0 <= j < i ==> self.bytes[j] == o.bytes[j],
            decreases 32 - i,
        {
            if self.bytes[i] != o.bytes[i] {
                return false;
            }
            i = i + 1;
        }
        assert(self.bytes =~= o.bytes);
        true
    }
}

impl vstd::std_specs::cmp::PartialEqSpecImpl for Identity {
    open spec fn obeys_eq_spec() -> bool {
        true
    }

    open spec fn eq_spec(&self, o: &Identity) -> bool {
        *self == *o
    }
}

impl Eq for Identity {
}

/// Whose move is next.
#[derive(Clone, Copy, PartialEq, Eq, Structural, Debug)]
pub enum Turn {
    FirstPlayer,
    SecondPlayer,
}

/// The lifecycle of a game. `Check` is an active game whose side to move is
/// in check; `Draw` and `Finished` are terminal.
#[derive(Clone, Copy, Debug, PartialEq, Eq)]
pub enum GameState {
    Pending,
    Active,
    Check,
    Draw,
    Finished { winner: Identity },
}

/// Why a request was refused. A refused request leaves the game unchanged.
#[derive(Clone, Copy, PartialEq, Eq, Structural, Debug)]
pub enum ChessError {
    /// The game is not in a state that accepts the request.
    GameNotActive,
    /// Only the second participant may join.
    NotSecondPlayer,
    /// The caller or the claimed winner is not a participant.
    NotAPlayer,
    /// The caller is not the participant whose move it is.
    NotPlayerTurn,
    /// The move text is neither coordinate nor standard algebraic notation.
    InvalidMoveFormat,
    /// The move is not legal in the current position.
    IllegalMove,
    /// The stored board does not decode to a position: a fault in the record
    /// itself, not a mistake of the caller.
    CorruptBoard,
}

/// One game between two participants.
#[derive(Clone, Debug, PartialEq, Eq)]
pub struct Game {
    /// The first mover, then the second mover.
    pub players: [Identity; 2],
    pub turn: Turn,
    /// The position, in Forsyth-Edwards notation.
    pub board: String,
    pub state: GameState,
    pub stake_amount: u64,
}

pub open spec fn other_turn(t: Turn) -> Turn {
    match t {
        Turn::FirstPlayer => Turn::SecondPlayer,
        Turn::SecondPlayer => Turn::FirstPlayer,
    }
}

/// Draw and Finished end the game.
pub open spec fn is_terminal(s: GameState) -> bool {
    s is Draw || s is Finished
}

/// Moves are accepted in Active and Check.
pub open spec fn accepts_moves(s: GameState) -> bool {
    s is Active || s is Check
}

/// The position every game starts from.
pub open spec fn start_board() -> Seq<char> {
    "rnbqkbnr/pppppppp/8/8/8/8/PPPPPPPP/RNBQKBNR w KQkq - 0 1"@
}

impl Game {
    /// The participant who moves on turn `t`.
    pub open spec fn player_on(self, t: Turn) -> Identity {
        match t {
            Turn::FirstPlayer => self.players[0],
            Turn::SecondPlayer => self.players[1],
        }
    }

    pub open spec fn is_player(self, id: Identity) -> bool {
        id == self.players[0] || id == self.players[1]
    }

    /// The participants differ, and a recorded winner is one of them.
    pub open spec fn wf(self) -> bool {
        &&& self.players[0] != self.players[1]
        &&& (self.state matches GameState::Finished { winner } ==> self.is_player(winner))
    }

    /// What a game holds besides its lifecycle stays as it is.
    pub open spec fn same_but_state(self, g: Game) -> bool {
        &&& self.players == g.players
        &&& self.turn == g.turn
        &&& self.board@ == g.board@
        &&& self.stake_amount == g.stake_amount
    }

    /// Two games hold the same values, field by field.
    pub open spec fn same_as(self, g: Game) -> bool {
        self.same_but_state(g) && self.state == g.state
    }
}

/// A game as `initialize_game` creates it.
pub open spec fn initial(g: Game) -> bool {
    &&& g.players[0] != g.players[1]
    &&& g.turn == Turn::FirstPlayer
    &&& g.board@ == start_board()
    &&& g.state == GameState::Pending
}

/// The second participant joined the pending game `g`, giving `g2`.
pub open spec fn joined(g: Game, g2: Game) -> bool {
    g.state is Pending && g2.same_but_state(g) && g2.state == GameState::Active
}

/// A participant of the active game `g` named a participant as winner,
/// giving `g2`.
pub open spec fn settled(g: Game, g2: Game) -> bool {
    exists|winner: Identity|
        g.state is Active && g.is_player(winner) && g2.same_but_state(g) && g2.state
            == (GameState::Finished { winner })
}

/// The participant whose turn it was in `g` played a move, giving `g2`.
pub open spec fn played(g: Game, g2: Game) -> bool {
    exists|report: PositionReport|
        accepts_moves(g.state) && moved(g, g2, g.player_on(g.turn), g2.board@, report)
}

/// `g2` is what one request, accepted or refused, leaves of `g`.
pub open spec fn step(g: Game, g2: Game) -> bool {
    g2.same_as(g) || joined(g, g2) || settled(g, g2) || played(g, g2)
}

fn next_turn(t: Turn) -> (r: Turn)
    ensures
        r == other_turn(t),
{
    match t {
        Turn::FirstPlayer => Turn::SecondPlayer,
        Turn::SecondPlayer => Turn::FirstPlayer,
    }
}

/// Creates a pending game between `player_one`, who moves first, and
/// `player_two`, from the standard starting position.
pub fn initialize_game(player_one: Identity, player_two: Identity, stake_amount: u64) -> (g: Game)
    requires
        player_one != player_two,
    ensures
        g.wf(),
        g.players == [player_one, player_two],
        g.turn == Turn::FirstPlayer,
        g.board@ == start_board(),
        g.state == GameState::Pending,
        g.stake_amount == stake_amount,
        initial(g),
{
    let board = String::from_str("rnbqkbnr/pppppppp/8/8/8/8/PPPPPPPP/RNBQKBNR w KQkq - 0 1");
    Game {
        players: [player_one, player_two],
        turn: Turn::FirstPlayer,
        board,
        state: GameState::Pending,
        stake_amount,
    }
}

/// The second participant joins a pending game, which becomes active.
pub fn join_game(game: &mut Game, player_two: Identity) -> (r: Result<(), ChessError>)
    ensures
        old(game).wf() ==> final(game).wf(),
        final(game).same_but_state(*old(game)),
        player_two != old(game).players[1] ==> r == Err::<(), ChessError>(ChessError::NotSecondPlayer),
        player_two == old(game).players[1] && !(old(game).state is Pending) ==> r == Err::<(), ChessError>(ChessError::GameNotActive),
        player_two == old(game).players[1] && old(game).state is Pending ==> r is Ok,
        r is Ok ==> final(game).state == GameState::Active,
        r is Err ==> final(game).same_as(*old(game)),
        step(*old(game), *final(game)),
{
    if player_two != game.players[1] {
        return Err(ChessError::NotSecondPlayer);
    }
    match game.state {
        GameState::Pending => {
            game.state = GameState::Active;
            Ok(())
        },
        _ => Err(ChessError::GameNotActive),
    }
}

fn is_participant(game: &Game, id: Identity) -> (r: bool)
    ensures
        r == game.is_player(id),
{
    id == game.players[0] || id == game.players[1]
}

/// A participant settles an active game by naming its winner.
pub fn report_game_result(game: &mut Game, reporter: Identity, winner: Identity) -> (r: Result<(), ChessError>)
    ensures
        old(game).wf() ==> final(game).wf(),
        final(game).same_but_state(*old(game)),
        !(old(game).state is Active) ==> r == Err::<(), ChessError>(ChessError::GameNotActive),
        old(game).state is Active && !(old(game).is_player(reporter) && old(game).is_player(winner))
            ==> r == Err::<(), ChessError>(ChessError::NotAPlayer),
        old(game).state is Active && old(game).is_player(reporter) && old(game).is_player(winner) ==> r is Ok,
        r is Ok ==> final(game).state == (GameState::Finished { winner }),
        r is Err ==> final(game).same_as(*old(game)),
        step(*old(game), *final(game)),
{
    if !matches!(game.state, GameState::Active) {
        return Err(ChessError::GameNotActive);
    }
    if !is_participant(game, reporter) {
        return Err(ChessError::NotAPlayer);
    }
    if !is_participant(game, winner) {
        return Err(ChessError::NotAPlayer);
    }
    game.state = GameState::Finished { winner };
    Ok(())
}

/// What the rules engine reports of the position reached by a move.
#[derive(Clone, Copy, PartialEq, Eq, Structural, Debug)]
pub struct PositionReport {
    pub checkmate: bool,
    pub stalemate: bool,
    pub insufficient_material: bool,
    pub check: bool,
}

/// What the rules engine made of a submitted move.
#[derive(Clone, Debug)]
pub enum MoveOutcome {
    /// The text is not a move in any notation the engine reads.
    Malformed,
    /// The move cannot be played in the current position.
    Illegal,
    /// The stored board could not be decoded.
    Undecodable,
    /// The move was played: the new board, and what holds of it.
    Played { board: String, report: PositionReport },
}

/// The lifecycle after `mover` reached a position: checkmate first, then
/// stalemate or insufficient material, then check.
pub open spec fn state_after(report: PositionReport, mover: Identity) -> GameState {
    if report.checkmate {
        GameState::Finished { winner: mover }
    } else if report.stalemate || report.insufficient_material {
        GameState::Draw
    } else if report.check {
        GameState::Check
    } else {
        GameState::Active
    }
}

/// The lifecycle after `mover` reached a position described by `report`.
pub fn state_after_move(report: PositionReport, mover: Identity) -> (s: GameState)
    ensures
        s == state_after(report, mover),
{
    if report.checkmate {
        GameState::Finished { winner: mover }
    } else if report.stalemate || report.insufficient_material {
        GameState::Draw
    } else if report.check {
        GameState::Check
    } else {
        GameState::Active
    }
}

/// The refusal of a move by `player` on `g`, checked in order: lifecycle,
/// then turn, then what the engine made of the move.
pub open spec fn move_refusal(g: Game, player: Identity, outcome: MoveOutcome) -> Option<ChessError> {
    if !accepts_moves(g.state) {
        Some(ChessError::GameNotActive)
    } else if player != g.player_on(g.turn) {
        Some(ChessError::NotPlayerTurn)
    } else {
        match outcome {
            MoveOutcome::Malformed => Some(ChessError::InvalidMoveFormat),
            MoveOutcome::Illegal => Some(ChessError::IllegalMove),
            MoveOutcome::Undecodable => Some(ChessError::CorruptBoard),
            MoveOutcome::Played { .. } => None,
        }
    }
}

/// `g2` is `g` after `mover` played a move that led to `board` and `report`.
pub open spec fn moved(g: Game, g2: Game, mover: Identity, board: Seq<char>, report: PositionReport) -> bool {
    &&& g2.players == g.players
    &&& g2.stake_amount == g.stake_amount
    &&& g2.turn == other_turn(g.turn)
    &&& g2.board@ == board
    &&& g2.state == state_after(report, mover)
}

fn mover_of(game: &Game) -> (r: Identity)
    ensures
        r == game.player_on(game.turn),
{
    match game.turn {
        Turn::FirstPlayer => game.players[0],
        Turn::SecondPlayer => game.players[1],
    }
}

/// `player` moves on `game`, and the rules engine made `outcome` of the move.
pub fn apply_move_outcome(game: &mut Game, player: Identity, outcome: MoveOutcome) -> (r: Result<(), ChessError>)
    ensures
        old(game).wf() ==> final(game).wf(),
        move_refusal(*old(game), player, outcome) matches Some(e) ==> r == Err::<(), ChessError>(e)
            && final(game).same_as(*old(game)),
        move_refusal(*old(game), player, outcome) is None ==> r is Ok,
        r is Ok ==> (outcome matches MoveOutcome::Played { board, report }
            && moved(*old(game), *final(game), player, board@, report)),
{
    if !matches!(game.state, GameState::Active | GameState::Check) {
        return Err(ChessError::GameNotActive);
    }
    if player != mover_of(game) {
        return Err(ChessError::NotPlayerTurn);
    }
    match outcome {
        MoveOutcome::Malformed => Err(ChessError::InvalidMoveFormat),
        MoveOutcome::Illegal => Err(ChessError::IllegalMove),
        MoveOutcome::Undecodable => Err(ChessError::CorruptBoard),
        MoveOutcome::Played { board, report } => {
            game.board = board;
            game.turn = next_turn(game.turn);
            game.state = state_after_move(report, player);
            Ok(())
        },
    }
}

/// The refusal of the move `mv` by `player` on `g`, checked in order:
/// lifecycle, turn, notation, board, legality.
pub open spec fn move_error(g: Game, player: Identity, mv: Seq<char>) -> Option<ChessError> {
    if !accepts_moves(g.state) {
        Some(ChessError::GameNotActive)
    } else if player != g.player_on(g.turn) {
        Some(ChessError::NotPlayerTurn)
    } else if !is_uci_text(mv) && !is_san_text(mv) {
        Some(ChessError::InvalidMoveFormat)
    } else if !board_valid(g.board@) {
        Some(ChessError::CorruptBoard)
    } else if engine_played(g.board@, mv) is None {
        Some(ChessError::IllegalMove)
    } else {
        None
    }
}

/// `player` submits the move `mv`, in coordinate or standard algebraic
/// notation. Who may move is settled before the rules engine reads the move.
/// A legal move is played: the board and the turn advance, and the lifecycle
/// follows from the position reached.
pub fn make_move(game: &mut Game, player: Identity, mv: &str) -> (r: Result<(), ChessError>)
    ensures
        old(game).wf() ==> final(game).wf(),
        move_error(*old(game), player, mv@) matches Some(e) ==> r == Err::<(), ChessError>(e)
            && final(game).same_as(*old(game)),
        move_error(*old(game), player, mv@) is None ==> r is Ok && moved(
            *old(game),
            *final(game),
            player,
            engine_played(old(game).board@, mv@)->Some_0.0,
            engine_played(old(game).board@, mv@)->Some_0.1,
        ),
        step(*old(game), *final(game)),
{
    if !matches!(game.state, GameState::Active | GameState::Check) {
        return Err(ChessError::GameNotActive);
    }
    if player != mover_of(game) {
        return Err(ChessError::NotPlayerTurn);
    }
    let outcome = judge_move(game.board.as_str(), mv);
    apply_move_outcome(game, player, outcome)
}

} // verus!
