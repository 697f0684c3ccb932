//! What holds along every line of play: a model of the operations a match
//! can go through, one after another, and the laws that follow from it.

use vstd::prelude::*;
use crate::catalog::{CardId, ProtoMinionId};
use crate::game::{lemma_summon_keeps_ids_wf, GameView};
use crate::player::{lemma_refresh_mana, MANA_CEILING};
use crate::turn::{PlayerIndex, TurnState};

verus! {

/// One operation on a match.
pub enum Move {
    /// A step. `deck1` and `deck2` are the orders in which the shuffles of
    /// the opening leave the decks; no other step looks at them.
    Step { deck1: Seq<CardId>, deck2: Seq<CardId> },
    /// A shuffle of the deck of `seat` that leaves it in the order `deck`.
    Shuffle { seat: PlayerIndex, deck: Seq<CardId> },
    /// `count` draws by `seat`.
    Draw { seat: PlayerIndex, count: nat },
    /// A minion made from `proto` comes into play on the side of `seat`.
    Summon { seat: PlayerIndex, proto: ProtoMinionId },
}

/// How many of `moves` are summons.
pub open spec fn summons_in(moves: Seq<Move>) -> nat
    decreases moves.len(),
{
    if moves.len() == 0 {
        0
    } else {
        summons_in(moves.drop_last()) + (if moves.last() is Summon {
            1nat
        } else {
            0nat
        })
    }
}

impl GameView {
    /// The match after the operation `m`.
    pub open spec fn apply(self, m: Move) -> GameView {
        match m {
            Move::Step { deck1, deck2 } => self.step(deck1, deck2),
            Move::Shuffle { seat, deck } => self.with_deck(seat, deck),
            Move::Draw { seat, count } => self.draw(seat, count),
            Move::Summon { seat, proto } => self.summon(seat, proto),
        }
    }

    /// The match after the operations `moves`, first to last.
    pub open spec fn play(self, moves: Seq<Move>) -> GameView
        decreases moves.len(),
    {
        if moves.len() == 0 {
            self
        } else {
            self.play(moves.drop_last()).apply(moves.last())
        }
    }
}

/// No single operation breaks the invariant of a match, raises the id
/// counter except a summon, which raises it by one, or lowers a mana
/// pool.
pub proof fn lemma_apply(g: GameView, m: Move)
    requires
        g.wf(),
    ensures
        g.apply(m).wf(),
        g.apply(m).next_id == g.next_id + (if m is Summon { 1nat } else { 0nat }),
        g.apply(m).player1.base_mana >= g.player1.base_mana,
        g.apply(m).player2.base_mana >= g.player2.base_mana,
{
    match m {
        Move::Step { deck1, deck2 } => {
            if g.turn.state == TurnState::TurnStart {
                lemma_refresh_mana(g.draw(g.turn.current_player, 1).current_player());
            }
        },
        Move::Shuffle { seat, deck } => {},
        Move::Draw { seat, count } => {},
        Move::Summon { seat, proto } => {
            lemma_summon_keeps_ids_wf(g, seat, proto);
        },
    }
}

/// Along every line of play from a match that keeps its invariant, the
/// invariant is kept, the id counter has gone up by the number of summons
/// made, and no mana pool has shrunk.
pub proof fn lemma_play(g: GameView, moves: Seq<Move>)
    requires
        g.wf(),
    ensures
        g.play(moves).wf(),
        g.play(moves).next_id == g.next_id + summons_in(moves),
        g.play(moves).player1.base_mana >= g.player1.base_mana,
        g.play(moves).player2.base_mana >= g.player2.base_mana,
    decreases moves.len(),
{
    if moves.len() > 0 {
        lemma_play(g, moves.drop_last());
        lemma_apply(g.play(moves.drop_last()), moves.last());
    }
}

/// A longer line of play has at least the summons of each of its
/// beginnings, and one more if a summon comes right after the beginning.
proof fn lemma_summons_in_a_beginning(moves: Seq<Move>, k: int)
    requires
        0 <= k <= moves.len(),
    ensures
        summons_in(moves.take(k)) <= summons_in(moves),
        k < moves.len() && moves[k] is Summon ==> summons_in(moves.take(k)) < summons_in(moves),
    decreases moves.len(),
{
    if k == moves.len() {
        assert(moves.take(k) =~= moves);
    } else {
        assert(moves.drop_last().take(k) =~= moves.take(k));
        if k < moves.len() - 1 {
            lemma_summons_in_a_beginning(moves.drop_last(), k);
        } else {
            assert(moves.drop_last() =~= moves.take(k));
        }
    }
}

/// Character ids are handed out in strictly increasing order and never
/// twice. Take any line of play from a match that keeps its invariant, and
/// in it two summons, the `i`-th operation and the later `j`-th: the id
/// the counter shows before each is the id its minion gets, the later id
/// is the larger, and each is what the counter showed at the outset, which
/// is 2 in a new match, plus the number of summons made before.
pub proof fn lemma_summoned_ids_increase(g: GameView, moves: Seq<Move>, i: int, j: int)
    requires
        g.wf(),
        0 <= i < j < moves.len(),
        moves[i] is Summon,
        moves[j] is Summon,
    ensures
        2 <= g.next_id <= g.play(moves.take(i)).next_id < g.play(moves.take(j)).next_id,
        g.play(moves.take(i)).next_id == g.next_id + summons_in(moves.take(i)),
        g.play(moves.take(j)).next_id == g.next_id + summons_in(moves.take(j)),
        g.play(moves.take(i + 1)).board.half(moves[i]->Summon_seat).minions.last().character.id
            == g.play(moves.take(i)).next_id,
        g.play(moves.take(j + 1)).board.half(moves[j]->Summon_seat).minions.last().character.id
            == g.play(moves.take(j)).next_id,
{
    lemma_play(g, moves.take(i));
    lemma_play(g, moves.take(j));
    assert(moves.take(j).take(i) =~= moves.take(i));
    lemma_summons_in_a_beginning(moves.take(j), i);
    lemma_summon_gets_the_counter(g, moves, i);
    lemma_summon_gets_the_counter(g, moves, j);
}

/// The minion of the `k`-th operation, a summon, gets the id the counter
/// shows before it.
proof fn lemma_summon_gets_the_counter(g: GameView, moves: Seq<Move>, k: int)
    requires
        g.wf(),
        0 <= k < moves.len(),
        moves[k] is Summon,
    ensures
        g.play(moves.take(k + 1)).board.half(moves[k]->Summon_seat).minions.last().character.id
            == g.play(moves.take(k)).next_id,
{
    let before = g.play(moves.take(k));
    lemma_play(g, moves.take(k));
    assert(moves.take(k + 1).drop_last() =~= moves.take(k));
    assert(moves.take(k + 1).last() == moves[k]);
    lemma_summon_keeps_ids_wf(before, moves[k]->Summon_seat, moves[k]->Summon_proto);
}

/// At the start of a turn the player to move ends with a full mana pool
/// that is at most the ceiling: one larger than before below the ceiling,
/// unchanged at it. The opponent's mana is not touched.
pub proof fn lemma_turn_start_mana(g: GameView)
    requires
        g.turn.state == TurnState::TurnStart,
        g.current_player().base_mana <= MANA_CEILING,
    ensures
        g.turn_start() == g.step(g.player1.deck, g.player2.deck),
        g.turn_start().current_player().mana == g.turn_start().current_player().base_mana,
        g.turn_start().current_player().base_mana <= MANA_CEILING,
        g.current_player().base_mana < MANA_CEILING ==> g.turn_start().current_player().base_mana
            == g.current_player().base_mana + 1,
        g.current_player().base_mana == MANA_CEILING ==> g.turn_start().current_player().base_mana
            == MANA_CEILING,
        g.turn_start().enemy_player() == g.enemy_player(),
{
}

} // verus!
