//! The turn life-cycle: whose turn it is, which phase the match is in, and
//! how one phase follows another.

use vstd::prelude::*;

verus! {

/// One of the two contestants.
#[derive(Debug, PartialEq, Eq, Clone, Copy, Structural)]
pub enum PlayerIndex {
    Player1,
    Player2,
}

impl PlayerIndex {
    /// The opponent of `self`.
    pub open spec fn spec_other(self) -> PlayerIndex {
        match self {
            PlayerIndex::Player1 => PlayerIndex::Player2,
            PlayerIndex::Player2 => PlayerIndex::Player1,
        }
    }

    /// Returns the opponent of `self`.
    #[verifier::when_used_as_spec(spec_other)]
    pub fn other(self) -> (r: PlayerIndex)
        ensures
            r == self.spec_other(),
    {
        match self {
            PlayerIndex::Player1 => PlayerIndex::Player2,
            PlayerIndex::Player2 => PlayerIndex::Player1,
        }
    }
}

/// The phases of a match. `Mulligan` is reserved: no transition leaves it
/// yet and no match starts in it.
#[derive(Debug, PartialEq, Eq, Clone, Copy, Structural)]
pub enum TurnState {
    Mulligan,
    GameStart,
    TurnStart,
    TurnPlay,
    TurnEnd,
    GameEnd,
}

/// The turn record of a match.
#[derive(Debug, PartialEq, Eq, Clone, Copy, Structural)]
pub struct Turn {
    /// Number of player turns begun so far.
    pub turn_count: u32,
    pub starting_player: PlayerIndex,
    pub current_player: PlayerIndex,
    pub state: TurnState,
}

/// Mathematical model of a [`Turn`]: the counter is unbounded.
pub struct TurnView {
    pub turn_count: nat,
    pub starting_player: PlayerIndex,
    pub current_player: PlayerIndex,
    pub state: TurnState,
}

impl View for Turn {
    type V = TurnView;

    open spec fn view(&self) -> TurnView {
        TurnView {
            turn_count: self.turn_count as nat,
            starting_player: self.starting_player,
            current_player: self.current_player,
            state: self.state,
        }
    }
}

impl TurnView {
    /// The turn record every match begins with.
    pub open spec fn initial() -> TurnView {
        TurnView {
            turn_count: 0,
            starting_player: PlayerIndex::Player1,
            current_player: PlayerIndex::Player1,
            state: TurnState::GameStart,
        }
    }

    /// The transition table of the phase machine.
    ///
    /// | state     | next      | effect on the record                    |
    /// |-----------|-----------|-----------------------------------------|
    /// | GameStart | TurnStart | the counter goes up by one              |
    /// | TurnStart | TurnPlay  | none                                    |
    /// | TurnPlay  | TurnEnd   | none                                    |
    /// | TurnEnd   | TurnStart | the counter goes up, the players swap   |
    /// | GameEnd   | GameEnd   | none                                    |
    ///
    /// `Mulligan` has no transition; the record is left as it is there.
    pub open spec fn successor(self) -> TurnView
        recommends
            self.state != TurnState::Mulligan,
    {
        match self.state {
            TurnState::Mulligan => self,
            TurnState::GameStart => TurnView {
                state: TurnState::TurnStart,
                turn_count: self.turn_count + 1,
                ..self
            },
            TurnState::TurnStart => TurnView { state: TurnState::TurnPlay, ..self },
            TurnState::TurnPlay => TurnView { state: TurnState::TurnEnd, ..self },
            TurnState::TurnEnd => TurnView {
                state: TurnState::TurnStart,
                turn_count: self.turn_count + 1,
                current_player: self.current_player.other(),
                ..self
            },
            TurnState::GameEnd => self,
        }
    }

    /// Whether the transition out of this record raises the counter.
    pub open spec fn starts_a_turn(self) -> bool {
        self.state == TurnState::GameStart || self.state == TurnState::TurnEnd
    }
}

impl Turn {
    /// The turn record every match begins with: the first phase, no turn
    /// begun yet, player one to move first.
    pub fn intial_turn() -> (r: Turn)
        ensures
            r@ == TurnView::initial(),
    {
        Turn {
            turn_count: 0,
            starting_player: PlayerIndex::Player1,
            current_player: PlayerIndex::Player1,
            state: TurnState::GameStart,
        }
    }

    /// Advances the record by one phase, as the transition table says.
    ///
    /// `Mulligan` has no transition and is not accepted. Where the
    /// transition raises the counter, the counter must have room.
    pub fn successor(self) -> (r: Turn)
        requires
            self.state != TurnState::Mulligan,
            self@.starts_a_turn() ==> self.turn_count < u32::MAX,
        ensures
            r@ == self@.successor(),
    {
        let mut next = self;
        match self.state {
            TurnState::Mulligan => {},
            TurnState::GameStart => {
                next.state = TurnState::TurnStart;
                next.turn_count += 1;
            },
            TurnState::TurnStart => {
                next.state = TurnState::TurnPlay;
            },
            TurnState::TurnPlay => {
                next.state = TurnState::TurnEnd;
            },
            TurnState::TurnEnd => {
                next.state = TurnState::TurnStart;
                next.turn_count += 1;
                next.current_player = self.current_player.other();
            },
            TurnState::GameEnd => {},
        }
        next
    }
}

/// The end of the match is a fixed point of the phase machine, and the only
/// one among the phases that have a transition.
pub proof fn lemma_game_end_is_the_fixed_point(t: TurnView)
    requires
        t.state != TurnState::Mulligan,
    ensures
        t.successor() == t <==> t.state == TurnState::GameEnd,
{
}

/// Every transition out of a phase other than the last lands on the phase
/// the table names, raises the counter by one exactly when a player's turn
/// begins, hands the move to the opponent exactly at the end of a turn, and
/// never changes who started.
pub proof fn lemma_successor_follows_the_table(t: TurnView)
    requires
        t.state != TurnState::Mulligan,
        t.state != TurnState::GameEnd,
    ensures
        t.successor().state == (match t.state {
            TurnState::GameStart => TurnState::TurnStart,
            TurnState::TurnStart => TurnState::TurnPlay,
            TurnState::TurnPlay => TurnState::TurnEnd,
            _ => TurnState::TurnStart,
        }),
        t.successor().turn_count == t.turn_count + (if t.starts_a_turn() { 1nat } else { 0nat }),
        t.successor().current_player == (if t.state == TurnState::TurnEnd {
            t.current_player.other()
        } else {
            t.current_player
        }),
        t.successor().starting_player == t.starting_player,
{
}

} // verus!
