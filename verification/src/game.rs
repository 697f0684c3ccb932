//! The match as a whole, and the one operation that advances it.

use std::sync::Arc;
use vstd::prelude::*;
use crate::board::{
    Board, BoardView, Character, CharacterId, CharacterView, Hero, HeroView, Minion, MinionView,
};
use crate::catalog::{CardId, Content, ProtoHeroId, ProtoMinionId};
use crate::hooks::{Action, Rule, Trigger, TriggerEvent};
use crate::player::{Player, PlayerView};
use crate::shuffle::{is_reordering, lemma_reordering_keeps_members, shuffle_ids};
use crate::turn::{PlayerIndex, Turn, TurnState, TurnView};

verus! {

/// Cards each player draws when the match begins.
pub const OPENING_HAND: usize = 3;

/// The state of a match. Every operation consumes a state and gives the
/// next; only the catalog is shared between states.
#[derive(Clone)]
pub struct Game {
    pub turn: Turn,
    /// The id the next new character gets.
    pub next_id: CharacterId,
    pub player1: Player,
    pub player2: Player,
    pub board: Board,
    pub rules: Vec<Rule>,
    pub triggers: Vec<Trigger>,
    pub content: Arc<Content>,
}

/// Mathematical model of a [`Game`].
pub struct GameView {
    pub turn: TurnView,
    pub next_id: nat,
    pub player1: PlayerView,
    pub player2: PlayerView,
    pub board: BoardView,
    pub rules: Seq<Rule>,
    pub triggers: Seq<Trigger>,
    pub content: Content,
}

impl View for Game {
    type V = GameView;

    open spec fn view(&self) -> GameView {
        GameView {
            turn: self.turn@,
            next_id: self.next_id as nat,
            player1: self.player1@,
            player2: self.player2@,
            board: self.board@,
            rules: self.rules@,
            triggers: self.triggers@,
            content: *self.content,
        }
    }
}

impl GameView {
    /// The match before its first step: both heroes made from their
    /// prototypes with ids 0 and 1, both decks as given, nothing in play.
    pub open spec fn initial(
        content: Content,
        h1: ProtoHeroId,
        d1: Seq<CardId>,
        h2: ProtoHeroId,
        d2: Seq<CardId>,
    ) -> GameView
        recommends
            h1 < content.heroes@.len(),
            h2 < content.heroes@.len(),
    {
        GameView {
            turn: TurnView::initial(),
            next_id: 2,
            player1: PlayerView::fresh(PlayerIndex::Player1, d1),
            player2: PlayerView::fresh(PlayerIndex::Player2, d2),
            board: BoardView::fresh(
                HeroView::from_proto(CharacterView::raw(0), content.heroes@[h1 as int]),
                HeroView::from_proto(CharacterView::raw(1), content.heroes@[h2 as int]),
            ),
            rules: Seq::empty(),
            triggers: Seq::empty(),
            content,
        }
    }

    /// The player in seat `p`.
    pub open spec fn player(self, p: PlayerIndex) -> PlayerView {
        match p {
            PlayerIndex::Player1 => self.player1,
            PlayerIndex::Player2 => self.player2,
        }
    }

    /// The match with `player` in seat `p`.
    pub open spec fn with_player(self, p: PlayerIndex, player: PlayerView) -> GameView {
        match p {
            PlayerIndex::Player1 => GameView { player1: player, ..self },
            PlayerIndex::Player2 => GameView { player2: player, ..self },
        }
    }

    /// The player whose turn it is.
    pub open spec fn current_player(self) -> PlayerView {
        self.player(self.turn.current_player)
    }

    /// The opponent of the player whose turn it is.
    pub open spec fn enemy_player(self) -> PlayerView {
        self.player(self.turn.current_player.other())
    }

    /// Whether every id in the deck of `p` has a prototype in the catalog.
    pub open spec fn deck_known(self, p: PlayerIndex) -> bool {
        let deck = self.player(p).deck;
        forall|i: int| 0 <= i < deck.len() ==> deck[i] < self.content.cards@.len()
    }

    /// Whether each of the next `count` draws of `p` finds its prototype.
    pub open spec fn can_draw(self, p: PlayerIndex, count: nat) -> bool {
        self.player(p).can_draw(self.content.cards@, count)
    }

    /// The match after `p` has drawn `count` times.
    pub open spec fn draw(self, p: PlayerIndex, count: nat) -> GameView {
        self.with_player(p, self.player(p).draw(self.content.cards@, count))
    }

    /// The match with the deck of `p` replaced by `deck`.
    pub open spec fn with_deck(self, p: PlayerIndex, deck: Seq<CardId>) -> GameView {
        self.with_player(p, self.player(p).with_deck(deck))
    }

    /// The match one phase later, nothing else changed.
    pub open spec fn advance(self) -> GameView {
        GameView { turn: self.turn.successor(), ..self }
    }

    /// The opening of the match, given the order the two shuffles left the
    /// decks in: each player draws the opening hand, player one first.
    pub open spec fn deal(self, deck1: Seq<CardId>, deck2: Seq<CardId>) -> GameView {
        self.with_deck(PlayerIndex::Player1, deck1).draw(
            PlayerIndex::Player1,
            OPENING_HAND as nat,
        ).with_deck(PlayerIndex::Player2, deck2).draw(
            PlayerIndex::Player2,
            OPENING_HAND as nat,
        ).advance()
    }

    /// The start of a turn: the player to move draws a card, then their
    /// mana pool grows and is filled.
    pub open spec fn turn_start(self) -> GameView {
        let p = self.turn.current_player;
        let drawn = self.draw(p, 1);
        drawn.with_player(p, drawn.player(p).refresh_mana()).advance()
    }

    /// The match one step later. Only the opening depends on the order the
    /// shuffles leave the decks in, `deck1` and `deck2`.
    pub open spec fn step(self, deck1: Seq<CardId>, deck2: Seq<CardId>) -> GameView
        recommends
            self.turn.state != TurnState::Mulligan,
    {
        match self.turn.state {
            TurnState::Mulligan => self,
            TurnState::GameStart => self.deal(deck1, deck2),
            TurnState::TurnStart => self.turn_start(),
            TurnState::TurnPlay => self.advance(),
            TurnState::TurnEnd => self.advance(),
            TurnState::GameEnd => self,
        }
    }

    /// Whether the match can take a step: the phase has a transition, the
    /// turn counter has room where the step raises it, and every card the
    /// step may draw has a prototype. At the opening that is every card of
    /// both decks, since any of them may be shuffled to the top.
    pub open spec fn can_step(self) -> bool {
        &&& self.turn.state != TurnState::Mulligan
        &&& self.turn.starts_a_turn() ==> self.turn.turn_count < u32::MAX
        &&& self.turn.state == TurnState::GameStart ==> self.deck_known(PlayerIndex::Player1)
            && self.deck_known(PlayerIndex::Player2)
        &&& self.turn.state == TurnState::TurnStart ==> self.can_draw(self.turn.current_player, 1)
    }

    /// The transforms that the event `e` fires: one for each registered
    /// trigger that listens for `e`, in the order in which the triggers are
    /// registered.
    pub open spec fn fired_by(self, e: TriggerEvent) -> Seq<Action> {
        self.triggers.filter(Trigger::listening_for(e)).map_values(Trigger::action_of())
    }

    /// Whether a minion can be made from the prototype `proto`: the
    /// prototype exists and the id counter has room.
    pub open spec fn can_summon(self, proto: ProtoMinionId) -> bool {
        proto < self.content.minions@.len() && self.next_id < u32::MAX
    }

    /// The match after a minion made from the prototype `proto` has come
    /// into play on the side of `p`: it takes the id the counter shows and
    /// the last place on that half of the board; the counter goes up by
    /// one.
    pub open spec fn summon(self, p: PlayerIndex, proto: ProtoMinionId) -> GameView
        recommends
            proto < self.content.minions@.len(),
    {
        GameView {
            next_id: self.next_id + 1,
            board: self.board.with_minion(
                p,
                MinionView::from_proto(
                    CharacterView::raw(self.next_id),
                    self.content.minions@[proto as int],
                ),
            ),
            ..self
        }
    }

    /// What holds of the characters of every match: the heroes have the ids
    /// 0 and 1; every minion has an id of its own, from 2 on, that the id
    /// counter has passed.
    pub open spec fn ids_wf(self) -> bool {
        let ids = self.board.minion_ids();
        &&& self.board.half1.hero.character.id == 0
        &&& self.board.half2.hero.character.id == 1
        &&& 2 <= self.next_id
        &&& forall|i: int| 0 <= i < ids.len() ==> 2 <= #[trigger] ids[i] < self.next_id
        &&& ids.no_duplicates()
    }

    /// What holds of every match: each player sits in their own seat and
    /// keeps the mana invariant, and the characters keep theirs.
    pub open spec fn wf(self) -> bool {
        &&& self.player1.index == PlayerIndex::Player1
        &&& self.player2.index == PlayerIndex::Player2
        &&& self.player1.wf()
        &&& self.player2.wf()
        &&& self.ids_wf()
    }
}

/// A summon keeps the characters' invariant: the new minion's id is the
/// old value of the counter, which no character in play has.
pub proof fn lemma_summon_keeps_ids_wf(g: GameView, p: PlayerIndex, proto: ProtoMinionId)
    requires
        g.ids_wf(),
    ensures
        g.summon(p, proto).ids_wf(),
        g.summon(p, proto).board.half(p).minions.last().character.id == g.next_id,
        g.summon(p, proto).next_id == g.next_id + 1,
{
    let r = g.summon(p, proto);
    let a = g.board.half1.minion_ids();
    let b = g.board.half2.minion_ids();
    let old_ids = g.board.minion_ids();
    let ids = r.board.minion_ids();
    match p {
        PlayerIndex::Player1 => {
            assert(r.board.half1.minion_ids() =~= a.push(g.next_id));
            assert(ids =~= a.push(g.next_id) + b);
            assert forall|i: int| 0 <= i < ids.len() implies 2 <= #[trigger] ids[i]
                < r.next_id by {
                if i < a.len() {
                    assert(ids[i] == old_ids[i]);
                } else if i > a.len() {
                    assert(ids[i] == old_ids[i - 1]);
                }
            }
            assert forall|i: int, j: int| 0 <= i < ids.len() && 0 <= j < ids.len() && i != j
                implies ids[i] != ids[j] by {
                let oi = if i < a.len() { i } else { i - 1 };
                let oj = if j < a.len() { j } else { j - 1 };
                if i != a.len() {
                    assert(ids[i] == old_ids[oi]);
                }
                if j != a.len() {
                    assert(ids[j] == old_ids[oj]);
                }
            }
        },
        PlayerIndex::Player2 => {
            assert(r.board.half2.minion_ids() =~= b.push(g.next_id));
            assert(ids =~= old_ids.push(g.next_id));
            assert forall|i: int| 0 <= i < ids.len() implies 2 <= #[trigger] ids[i]
                < r.next_id by {
                if i < old_ids.len() {
                    assert(ids[i] == old_ids[i]);
                }
            }
            assert forall|i: int, j: int| 0 <= i < ids.len() && 0 <= j < ids.len() && i != j
                implies ids[i] != ids[j] by {
                if i < old_ids.len() {
                    assert(ids[i] == old_ids[i]);
                }
                if j < old_ids.len() {
                    assert(ids[j] == old_ids[j]);
                }
            }
        },
    }
}

impl Game {
    /// The player in seat `p`.
    pub open spec fn spec_player(&self, p: PlayerIndex) -> Player {
        match p {
            PlayerIndex::Player1 => self.player1,
            PlayerIndex::Player2 => self.player2,
        }
    }

    /// The match with `player` in seat `p`.
    pub open spec fn with_player(self, p: PlayerIndex, player: Player) -> Game {
        match p {
            PlayerIndex::Player1 => Game { player1: player, ..self },
            PlayerIndex::Player2 => Game { player2: player, ..self },
        }
    }

    /// Sets up a match: the heroes are made from the prototypes `h1` and
    /// `h2` and get the ids 0 and 1, the decks are taken as they are.
    pub fn new(
        content: Arc<Content>,
        h1: ProtoHeroId,
        d1: Vec<CardId>,
        h2: ProtoHeroId,
        d2: Vec<CardId>,
    ) -> (r: Game)
        requires
            h1 < content.heroes@.len(),
            h2 < content.heroes@.len(),
        ensures
            r@ == GameView::initial(*content, h1, d1@, h2, d2@),
            r@.wf(),
    {
        let hero1 = Hero::from_proto(Character::raw(0), &content.heroes[h1]);
        let hero2 = Hero::from_proto(Character::raw(1), &content.heroes[h2]);
        Game {
            turn: Turn::intial_turn(),
            next_id: 2,
            player1: Player::new(PlayerIndex::Player1, d1),
            player2: Player::new(PlayerIndex::Player2, d2),
            board: Board::new(hero1, hero2),
            rules: Vec::new(),
            triggers: Vec::new(),
            content,
        }
    }

    /// The player in seat `p`, to read or to change.
    pub fn player(&mut self, p: PlayerIndex) -> (r: &mut Player)
        ensures
            *r == old(self).spec_player(p),
            *final(self) == old(self).with_player(p, *final(r)),
    {
        match p {
            PlayerIndex::Player1 => &mut self.player1,
            PlayerIndex::Player2 => &mut self.player2,
        }
    }

    /// The player whose turn it is, to read or to change.
    pub fn current_player(&mut self) -> (r: &mut Player)
        ensures
            *r == old(self).spec_player(old(self).turn.current_player),
            *final(self) == old(self).with_player(old(self).turn.current_player, *final(r)),
    {
        let p = self.turn.current_player;
        self.player(p)
    }

    /// The opponent of the player whose turn it is, to read or to change.
    pub fn enemy_player(&mut self) -> (r: &mut Player)
        ensures
            *r == old(self).spec_player(old(self).turn.current_player.other()),
            *final(self) == old(self).with_player(
                old(self).turn.current_player.other(),
                *final(r),
            ),
    {
        let p = self.turn.current_player.other();
        self.player(p)
    }

    /// Lists the transforms that the event `e` fires, in the order in which
    /// they are to be applied: that of the registration of their triggers.
    pub fn fired_by(&self, e: TriggerEvent) -> (r: Vec<Action>)
        ensures
            r@ == self@.fired_by(e),
    {
        let mut fired: Vec<Action> = Vec::new();
        let mut i: usize = 0;
        while i < self.triggers.len()
            invariant
                i <= self.triggers.len(),
                fired@ == self.triggers@.take(i as int).filter(
                    Trigger::listening_for(e),
                ).map_values(Trigger::action_of()),
            decreases self.triggers.len() - i,
        {
            let ghost seen = self.triggers@.take(i as int);
            let ghost next = self.triggers@[i as int];
            let ghost listening = Trigger::listening_for(e);
            if self.triggers[i].listens_for(e) {
                fired.push(self.triggers[i].action);
            }
            i += 1;
            proof {
                assert(self.triggers@.take(i as int) =~= seen.push(next));
                seen.lemma_filter_push(next, listening);
                if listening(next) {
                    assert(seen.filter(listening).push(next).map_values(Trigger::action_of())
                        =~= seen.filter(listening).map_values(Trigger::action_of()).push(
                        next.action,
                    ));
                }
            }
        }
        assert(self.triggers@.take(i as int) =~= self.triggers@);
        fired
    }

    /// Tells whether each of the next `count` draws of `p` finds its
    /// prototype in the catalog.
    pub fn can_draw(&self, p: PlayerIndex, count: usize) -> (r: bool)
        ensures
            r == self@.can_draw(p, count as nat),
    {
        match p {
            PlayerIndex::Player1 => self.player1.can_draw(&self.content.cards, count),
            PlayerIndex::Player2 => self.player2.can_draw(&self.content.cards, count),
        }
    }

    /// Tells whether every id in the deck of `p` has a prototype in the
    /// catalog.
    pub fn deck_known(&self, p: PlayerIndex) -> (r: bool)
        ensures
            r == self@.deck_known(p),
    {
        let len = match p {
            PlayerIndex::Player1 => self.player1.deck.len(),
            PlayerIndex::Player2 => self.player2.deck.len(),
        };
        let r = self.can_draw(p, len);
        proof {
            let player = self@.player(p);
            if r {
                assert forall|i: int| 0 <= i < player.deck.len() implies player.deck[i]
                    < self@.content.cards@.len() by {
                    assert(player.nth_from_top(player.deck.len() - 1 - i) == player.deck[i]);
                }
            }
        }
        r
    }

    /// Tells whether a minion can be made from the prototype `proto`.
    pub fn can_summon(&self, proto: ProtoMinionId) -> (r: bool)
        ensures
            r == self@.can_summon(proto),
    {
        proto < self.content.minions.len() && self.next_id < u32::MAX
    }

    /// Tells whether the match can take a step.
    pub fn can_step(&self) -> (r: bool)
        ensures
            r == self@.can_step(),
    {
        match self.turn.state {
            TurnState::Mulligan => false,
            TurnState::GameStart => self.turn.turn_count < u32::MAX && self.deck_known(
                PlayerIndex::Player1,
            ) && self.deck_known(PlayerIndex::Player2),
            TurnState::TurnStart => self.can_draw(self.turn.current_player, 1),
            TurnState::TurnPlay => true,
            TurnState::TurnEnd => self.turn.turn_count < u32::MAX,
            TurnState::GameEnd => true,
        }
    }

    /// Shuffles the deck of `p`. The deck keeps its cards; the order they
    /// end up in is not determined.
    pub fn shuffle_deck(self, p: PlayerIndex) -> (r: Game)
        ensures
            is_reordering(r@.player(p).deck, self@.player(p).deck),
            r@ == self@.with_deck(p, r@.player(p).deck),
    {
        let mut game = self;
        match p {
            PlayerIndex::Player1 => shuffle_ids(&mut game.player1.deck),
            PlayerIndex::Player2 => shuffle_ids(&mut game.player2.deck),
        }
        game
    }

    /// Has `p` draw `count` times: each draw takes the top id off the deck
    /// and puts the card made from its prototype at the end of the hand.
    /// Once the deck is empty the remaining draws do nothing.
    pub fn draw(self, p: PlayerIndex, count: usize) -> (r: Game)
        requires
            self@.can_draw(p, count as nat),
        ensures
            r@ == self@.draw(p, count as nat),
            self@.player(p).deck.len() == 0 ==> r@ == self@,
    {
        let mut game = self;
        match p {
            PlayerIndex::Player1 => game.player1.draw(&game.content.cards, count),
            PlayerIndex::Player2 => game.player2.draw(&game.content.cards, count),
        }
        game
    }

    /// Brings a minion made from the prototype `proto` into play on the
    /// side of `p`. The minion takes the next unused character id and the
    /// last place on that half of the board.
    pub fn summon(self, p: PlayerIndex, proto: ProtoMinionId) -> (r: Game)
        requires
            self@.can_summon(proto),
        ensures
            r@ == self@.summon(p, proto),
            self@.wf() ==> r@.wf(),
    {
        let mut game = self;
        let character = Character::raw(game.next_id);
        let minion = Minion::from_proto(character, &game.content.minions[proto]);
        game.next_id += 1;
        match p {
            PlayerIndex::Player1 => game.board.half1.add_minion(minion),
            PlayerIndex::Player2 => game.board.half2.add_minion(minion),
        }
        proof {
            if self@.wf() {
                lemma_summon_keeps_ids_wf(self@, p, proto);
            }
        }
        game
    }

    /// Advances the match by one step, which depends on the phase alone.
    ///
    /// - At the opening both decks are shuffled and each player draws the
    ///   opening hand.
    /// - At the start of a turn the player to move draws a card; their
    ///   mana pool grows by one up to the ceiling and is filled.
    /// - While a turn is played and when it ends nothing but the phase
    ///   changes.
    /// - Once the match is over nothing changes at all.
    pub fn step(self) -> (r: Game)
        requires
            self@.can_step(),
        ensures
            exists|deck1: Seq<CardId>, deck2: Seq<CardId>|
                (is_reordering(deck1, self@.player1.deck) && is_reordering(
                    deck2,
                    self@.player2.deck,
                ) && r@ == #[trigger] self@.step(deck1, deck2)),
            self@.turn.state != TurnState::GameStart ==> r@ == self@.step(
                self@.player1.deck,
                self@.player2.deck,
            ),
            self@.wf() ==> r@.wf(),
    {
        let mut game = self;
        match game.turn.state {
            TurnState::Mulligan => {},
            TurnState::GameStart => {
                game = game.shuffle_deck(PlayerIndex::Player1);
                let ghost deck1 = game@.player1.deck;
                proof {
                    lemma_reordering_keeps_members(deck1, self@.player1.deck);
                }
                game = game.draw(PlayerIndex::Player1, OPENING_HAND);
                game = game.shuffle_deck(PlayerIndex::Player2);
                let ghost deck2 = game@.player2.deck;
                proof {
                    lemma_reordering_keeps_members(deck2, self@.player2.deck);
                }
                game = game.draw(PlayerIndex::Player2, OPENING_HAND);
                game.turn = game.turn.successor();
                assert(game@ == self@.step(deck1, deck2));
            },
            TurnState::TurnStart => {
                let p = game.turn.current_player;
                game = game.draw(p, 1);
                game.current_player().refresh_mana();
                game.turn = game.turn.successor();
            },
            TurnState::TurnPlay => {
                game.turn = game.turn.successor();
            },
            TurnState::TurnEnd => {
                game.turn = game.turn.successor();
            },
            TurnState::GameEnd => {},
        }
        assert(self@.turn.state != TurnState::GameStart ==> game@ == self@.step(
            self@.player1.deck,
            self@.player2.deck,
        ));
        game
    }
}

/// The hero effect that does nothing: the match and the hero come back as
/// they went in.
pub fn hero_action_nop(g: Game, h: Hero) -> (r: (Game, Hero))
    ensures
        r == (g, h),
{
    (g, h)
}

} // verus!
