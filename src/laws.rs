//! Properties of every game, over the transitions that requests make.
use vstd::prelude::*;
use crate::game::{
    accepts_moves, initial, is_terminal, joined, move_refusal, moved, other_turn, played, settled,
    state_after, step, ChessError, Game, GameState, Identity, MoveOutcome, PositionReport,
};

verus! {

/// One request keeps a game well formed.
pub proof fn lemma_step_keeps_wf(g: Game, g2: Game)
    requires
        g.wf(),
        step(g, g2),
    ensures
        g2.wf(),
{
    if played(g, g2) {
        let report = choose|report: PositionReport|
            accepts_moves(g.state) && moved(g, g2, g.player_on(g.turn), g2.board@, report);
        assert(moved(g, g2, g.player_on(g.turn), g2.board@, report));
    }
}

/// In every game reached from its creation by a run of requests, a recorded
/// winner is one of the two participants.
pub proof fn lemma_winner_is_player(games: Seq<Game>)
    requires
        games.len() > 0,
        initial(games[0]),
        forall|i: int| 0 <= i < games.len() - 1 ==> step(#[trigger] games[i], games[i + 1]),
    ensures
        forall|i: int| 0 <= i < games.len() ==> (#[trigger] games[i]).wf(),
        forall|i: int|
            0 <= i < games.len() ==> (#[trigger] games[i].state matches GameState::Finished {
                winner,
            } ==> winner == games[i].players[0] || winner == games[i].players[1]),
    decreases games.len(),
{
    if games.len() > 1 {
        let prefix = games.drop_last();
        assert forall|i: int| 0 <= i < prefix.len() - 1 implies step(
            #[trigger] prefix[i],
            prefix[i + 1],
        ) by {
            assert(step(games[i], games[i + 1]));
        }
        lemma_winner_is_player(prefix);
        let n = games.len() - 1;
        assert(prefix[n - 1].wf());
        assert(step(games[n - 1], games[n]));
        lemma_step_keeps_wf(games[n - 1], games[n]);
        assert forall|i: int| 0 <= i < games.len() implies (#[trigger] games[i]).wf() by {
            if i < n {
                assert(prefix[i].wf());
            }
        }
    }
}

/// Over a run of accepted moves the turn passes to the other participant at
/// every move, and comes back every second move.
pub proof fn lemma_turns_alternate(games: Seq<Game>)
    requires
        forall|i: int| 0 <= i < games.len() - 1 ==> played(#[trigger] games[i], games[i + 1]),
    ensures
        forall|i: int|
            0 <= i < games.len() - 1 ==> (#[trigger] games[i + 1]).turn != games[i].turn,
        forall|i: int|
            0 <= i < games.len() - 2 ==> (#[trigger] games[i + 2]).turn == games[i].turn,
{
    assert forall|i: int| 0 <= i < games.len() - 1 implies games[i + 1].turn == other_turn(
        games[i].turn,
    ) by {
        assert(played(games[i], games[i + 1]));
        let g = games[i];
        let g2 = games[i + 1];
        let report = choose|report: PositionReport|
            accepts_moves(g.state) && moved(g, g2, g.player_on(g.turn), g2.board@, report);
    }
    assert forall|i: int| 0 <= i < games.len() - 2 implies (#[trigger] games[i + 2]).turn
        == games[i].turn by {
        assert(games[i + 1].turn == other_turn(games[i].turn));
        assert(games[i + 2].turn == other_turn(games[i + 1].turn));
    }
}

/// A drawn or finished game accepts no move and no settlement, and no request
/// changes it.
pub proof fn lemma_terminal_is_final(g: Game, g2: Game, player: Identity, outcome: MoveOutcome)
    requires
        is_terminal(g.state),
    ensures
        move_refusal(g, player, outcome) == Some(ChessError::GameNotActive),
        !joined(g, g2),
        !settled(g, g2),
        !played(g, g2),
        step(g, g2) ==> g2.same_as(g),
{
}

/// A move that mates wins for the mover, even where the position would also
/// count as a draw.
pub proof fn lemma_checkmate_outranks_draw(report: PositionReport, mover: Identity)
    requires
        report.checkmate,
    ensures
        state_after(report, mover) == (GameState::Finished { winner: mover }),
{
}

} // verus!
