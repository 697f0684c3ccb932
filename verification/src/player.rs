//! One contestant's resources: hand, deck, graveyard and mana.

use vstd::prelude::*;
use crate::catalog::{CardId, CardKind, ProtoCard};
use crate::hooks::Effect;
use crate::turn::PlayerIndex;

verus! {

/// The most mana a player can ever have.
pub const MANA_CEILING: u32 = 10;

/// A card as it lies in a hand: a projection of its prototype that carries
/// no state of its own.
#[derive(Debug, Clone, Copy)]
pub struct Card {
    pub proto: CardId,
    pub cost: u32,
    pub kind: CardKind,
}

impl Card {
    /// The card that `proto` stands for.
    pub open spec fn of(proto: ProtoCard) -> Card {
        Card { proto: proto.id, cost: proto.cost, kind: proto.kind }
    }

    /// Makes the card that `proto` stands for.
    pub fn from_proto(proto: &ProtoCard) -> (r: Card)
        ensures
            r == Card::of(*proto),
    {
        Card { proto: proto.id, cost: proto.cost, kind: proto.kind }
    }
}

/// One contestant. The top of the deck is the end of `deck`.
#[derive(Debug, Clone)]
pub struct Player {
    pub index: PlayerIndex,
    pub hand: Vec<Card>,
    pub base_mana: u32,
    pub mana: u32,
    pub effects: Vec<Effect>,
    pub deck: Vec<CardId>,
    pub graveyard: Vec<CardId>,
}

/// Mathematical model of a [`Player`].
pub struct PlayerView {
    pub index: PlayerIndex,
    pub hand: Seq<Card>,
    pub base_mana: nat,
    pub mana: nat,
    pub effects: Seq<Effect>,
    pub deck: Seq<CardId>,
    pub graveyard: Seq<CardId>,
}

impl View for Player {
    type V = PlayerView;

    open spec fn view(&self) -> PlayerView {
        PlayerView {
            index: self.index,
            hand: self.hand@,
            base_mana: self.base_mana as nat,
            mana: self.mana as nat,
            effects: self.effects@,
            deck: self.deck@,
            graveyard: self.graveyard@,
        }
    }
}

impl PlayerView {
    /// A player before the match begins: the given deck, nothing else.
    pub open spec fn fresh(index: PlayerIndex, deck: Seq<CardId>) -> PlayerView {
        PlayerView {
            index,
            hand: Seq::empty(),
            base_mana: 0,
            mana: 0,
            effects: Seq::empty(),
            deck,
            graveyard: Seq::empty(),
        }
    }

    /// The mana invariant: never more mana than the pool holds, never a
    /// pool above the ceiling.
    pub open spec fn wf(self) -> bool {
        self.mana <= self.base_mana <= MANA_CEILING
    }

    /// How many cards `count` draws yield: the deck may run out first.
    pub open spec fn drawn(self, count: nat) -> nat {
        if count <= self.deck.len() {
            count
        } else {
            self.deck.len()
        }
    }

    /// The id of the `i`-th card drawn from now on, counting from 0.
    pub open spec fn nth_from_top(self, i: int) -> CardId
        recommends
            0 <= i < self.deck.len(),
    {
        self.deck[self.deck.len() - 1 - i]
    }

    /// Whether each of the next `count` draws finds its prototype in
    /// `cards`.
    pub open spec fn can_draw(self, cards: Seq<ProtoCard>, count: nat) -> bool {
        forall|i: int| 0 <= i < self.drawn(count) ==> self.nth_from_top(i) < cards.len()
    }

    /// The player after `count` draws: each takes the top id off the deck
    /// and puts the card made from its prototype at the end of the hand. A
    /// draw from an empty deck changes nothing.
    pub open spec fn draw(self, cards: Seq<ProtoCard>, count: nat) -> PlayerView {
        PlayerView {
            hand: self.hand + Seq::new(
                self.drawn(count),
                |i: int| Card::of(cards[self.nth_from_top(i) as int]),
            ),
            deck: self.deck.take(self.deck.len() - self.drawn(count)),
            ..self
        }
    }

    /// The player with the same cards in the deck in another order.
    pub open spec fn with_deck(self, deck: Seq<CardId>) -> PlayerView {
        PlayerView { deck, ..self }
    }

    /// The player at the start of their turn: the pool grows by one up to
    /// the ceiling, and is filled.
    pub open spec fn refresh_mana(self) -> PlayerView {
        let pool = if self.base_mana < MANA_CEILING {
            self.base_mana + 1
        } else {
            self.base_mana
        };
        PlayerView { base_mana: pool, mana: pool, ..self }
    }
}

/// A draw from an empty deck is no failure and changes nothing: hand, deck
/// and graveyard stay as they are, however many draws are asked for.
pub proof fn lemma_draw_from_empty_deck(player: PlayerView, cards: Seq<ProtoCard>, count: nat)
    requires
        player.deck.len() == 0,
    ensures
        player.can_draw(cards, count),
        player.draw(cards, count) == player,
{
    assert(player.draw(cards, count).hand =~= player.hand);
    assert(player.draw(cards, count).deck =~= player.deck);
}

/// The start of a turn leaves the pool full, at most at the ceiling, and
/// never smaller than before: one larger below the ceiling, unchanged at
/// it.
pub proof fn lemma_refresh_mana(player: PlayerView)
    requires
        player.base_mana <= MANA_CEILING,
    ensures
        player.refresh_mana().wf(),
        player.refresh_mana().mana == player.refresh_mana().base_mana,
        player.base_mana < MANA_CEILING ==> player.refresh_mana().base_mana == player.base_mana
            + 1,
        player.base_mana == MANA_CEILING ==> player.refresh_mana().base_mana == MANA_CEILING,
{
}

impl Player {
    /// A player before the match begins: the given deck, an empty hand and
    /// graveyard, no mana.
    pub fn new(i: PlayerIndex, deck: Vec<CardId>) -> (r: Player)
        ensures
            r@ == PlayerView::fresh(i, deck@),
    {
        Player {
            index: i,
            hand: Vec::new(),
            base_mana: 0,
            mana: 0,
            effects: Vec::new(),
            deck,
            graveyard: Vec::new(),
        }
    }

    /// Tells whether each of the next `count` draws finds its prototype in
    /// `cards`.
    pub fn can_draw(&self, cards: &Vec<ProtoCard>, count: usize) -> (r: bool)
        ensures
            r == self@.can_draw(cards@, count as nat),
    {
        let len = self.deck.len();
        let n = if count <= len { count } else { len };
        let mut i: usize = 0;
        while i < n
            invariant
                i <= n <= len,
                len == self.deck@.len(),
                n == self@.drawn(count as nat),
                forall|j: int| 0 <= j < i ==> self@.nth_from_top(j) < cards@.len(),
            decreases n - i,
        {
            if self.deck[len - 1 - i] >= cards.len() {
                assert(self@.nth_from_top(i as int) >= cards@.len());
                return false;
            }
            i += 1;
        }
        true
    }

    /// Draws `count` times from the deck into the hand, oldest draw first.
    /// Once the deck is empty the remaining draws do nothing.
    pub fn draw(&mut self, cards: &Vec<ProtoCard>, count: usize)
        requires
            old(self)@.can_draw(cards@, count as nat),
        ensures
            final(self)@ == old(self)@.draw(cards@, count as nat),
            old(self).deck@.len() == 0 ==> final(self)@ == old(self)@,
    {
        let mut i: usize = 0;
        proof {
            assert(self@.hand =~= self@.draw(cards@, 0).hand);
            assert(self@.deck =~= self@.draw(cards@, 0).deck);
        }
        while i < count
            invariant
                i <= count,
                old(self)@.can_draw(cards@, count as nat),
                self@ == old(self)@.draw(cards@, i as nat),
            decreases count - i,
        {
            match self.deck.pop() {
                Some(c) => {
                    assert(old(self)@.drawn(i as nat) == i);
                    assert(c == old(self)@.nth_from_top(i as int));
                    self.hand.push(Card::from_proto(&cards[c]));
                },
                None => {},
            }
            i += 1;
            assert(self@.hand =~= old(self)@.draw(cards@, i as nat).hand);
            assert(self@.deck =~= old(self)@.draw(cards@, i as nat).deck);
        }
        proof {
            if old(self).deck@.len() == 0 {
                assert(self@.hand =~= old(self)@.hand);
                assert(self@.deck =~= old(self)@.deck);
            }
        }
    }

    /// Begins this player's turn: the pool grows by one up to the ceiling,
    /// and is filled.
    pub fn refresh_mana(&mut self)
        ensures
            final(self)@ == old(self)@.refresh_mana(),
    {
        if self.base_mana < MANA_CEILING {
            self.base_mana += 1;
        }
        self.mana = self.base_mana;
    }
}

} // verus!
