use std::sync::Arc;

use card_engine::board::{Character, Hero};
use card_engine::catalog::{
    CardId, CardKind, CardSet, Class, Content, ProtoCard, ProtoHero, ProtoMinion, Rarety, Tribe,
};
use card_engine::game::{hero_action_nop, Game};
use card_engine::hooks::{Action, HeroAction, MinionAction, Precast, Trigger, TriggerEvent};
use card_engine::player::{Card, Player};
use card_engine::turn::{PlayerIndex, TurnState};

fn proto_card(id: CardId, cost: u32) -> ProtoCard {
    ProtoCard {
        id,
        title: "card",
        text: "",
        lore: "",
        tribe: Tribe::General,
        categories: Vec::new(),
        cost,
        rarety: Rarety::Common,
        class: Class::Neutral,
        set: CardSet::Basic,
        golden: false,
        kind: CardKind::MinionCard(id % 2),
    }
}

fn proto_hero(id: usize, health: i32) -> ProtoHero {
    ProtoHero {
        id,
        base_armor: 0,
        base_health: health,
        base_attack: 0,
        hero_power: id,
        action: HeroAction { id: 0 },
    }
}

fn proto_minion(id: usize, health: i32, attack: u32) -> ProtoMinion {
    ProtoMinion {
        id,
        base_health: health,
        health,
        attack,
        precast: Precast { id: 0 },
        action: MinionAction { id: 0 },
    }
}

/// A catalog of `cards` cards (card `i` costs `i + 1`), two heroes and two
/// minions.
fn catalog(cards: usize) -> Arc<Content> {
    Arc::new(Content {
        cards: (0..cards).map(|i| proto_card(i, i as u32 + 1)).collect(),
        heroes: vec![proto_hero(0, 30), proto_hero(1, 25)],
        minions: vec![proto_minion(0, 2, 1), proto_minion(1, 7, 6)],
        spells: Vec::new(),
        weapons: Vec::new(),
    })
}

fn hand_protos(player: &Player) -> Vec<CardId> {
    player.hand.iter().map(|c| c.proto).collect()
}

fn sorted(ids: &[CardId]) -> Vec<CardId> {
    let mut v = ids.to_vec();
    v.sort();
    v
}

#[test]
fn a_new_game_is_at_game_start() {
    let mut game = Game::new(catalog(5), 0, vec![0, 1, 2], 1, vec![4, 3]);
    assert_eq!(game.turn.state, TurnState::GameStart);
    assert_eq!(game.turn.turn_count, 0);
    assert_eq!(game.turn.current_player, PlayerIndex::Player1);
    assert_eq!(game.turn.starting_player, PlayerIndex::Player1);
    assert_eq!(game.next_id, 2);
    assert!(game.rules.is_empty());
    assert!(game.triggers.is_empty());
    assert_eq!(game.player1.index, PlayerIndex::Player1);
    assert_eq!(game.player2.index, PlayerIndex::Player2);
    assert_eq!(game.player1.deck, vec![0, 1, 2]);
    assert_eq!(game.player2.deck, vec![4, 3]);
    for p in [PlayerIndex::Player1, PlayerIndex::Player2] {
        let player = game.player(p);
        assert!(player.hand.is_empty());
        assert!(player.graveyard.is_empty());
        assert!(player.effects.is_empty());
        assert_eq!(player.base_mana, 0);
        assert_eq!(player.mana, 0);
    }
}

#[test]
fn the_heroes_get_the_ids_zero_and_one() {
    let game = Game::new(catalog(0), 1, Vec::new(), 0, Vec::new());
    let h1 = &game.board.half1.hero;
    let h2 = &game.board.half2.hero;
    assert_eq!(h1.character.id, 0);
    assert_eq!(h2.character.id, 1);
    assert_eq!(h1.proto, 1);
    assert_eq!(h2.proto, 0);
    assert_eq!(h1.character.health, 25);
    assert_eq!(h1.character.base_health, 25);
    assert_eq!(h2.character.health, 30);
    assert_eq!(h1.hero_power.proto, 1);
    assert!(h1.weapon.is_none());
    assert!(game.board.half1.minions.is_empty());
    assert!(game.board.half2.minions.is_empty());
}

#[test]
fn opening_with_empty_decks_fizzles_and_starts_turn_one() {
    let game = Game::new(catalog(1), 0, Vec::new(), 0, Vec::new());
    assert!(game.can_step());
    let game = game.step();
    assert!(game.player1.hand.is_empty());
    assert!(game.player2.hand.is_empty());
    assert!(game.player1.deck.is_empty());
    assert!(game.player2.deck.is_empty());
    assert_eq!(game.turn.state, TurnState::TurnStart);
    assert_eq!(game.turn.turn_count, 1);
    assert_eq!(game.turn.current_player, PlayerIndex::Player1);
}

#[test]
fn drawing_three_of_five_takes_the_top_three_in_pop_order() {
    let game = Game::new(catalog(5), 0, vec![0, 1, 2, 3, 4], 0, Vec::new());
    assert_eq!(game.turn.state, TurnState::GameStart);
    assert!(game.can_draw(PlayerIndex::Player1, 3));
    let game = game.draw(PlayerIndex::Player1, 3);
    assert_eq!(game.player1.hand.len(), 3);
    assert_eq!(hand_protos(&game.player1), vec![4, 3, 2]);
    assert_eq!(game.player1.hand[0].cost, 5);
    assert_eq!(game.player1.hand[1].cost, 4);
    assert_eq!(game.player1.hand[2].cost, 3);
    assert!(matches!(game.player1.hand[0].kind, CardKind::MinionCard(0)));
    assert!(matches!(game.player1.hand[1].kind, CardKind::MinionCard(1)));
    assert_eq!(game.player1.deck, vec![0, 1]);
    assert!(game.player2.hand.is_empty());
    assert_eq!(game.turn.state, TurnState::GameStart);
}

#[test]
fn a_turn_start_at_the_ceiling_keeps_the_pool_and_fills_it() {
    let mut game = Game::new(catalog(1), 0, Vec::new(), 0, Vec::new());
    game.turn.state = TurnState::TurnStart;
    game.player1.base_mana = 10;
    game.player1.mana = 3;
    let game = game.step();
    assert_eq!(game.player1.base_mana, 10);
    assert_eq!(game.player1.mana, 10);
    assert_eq!(game.player2.base_mana, 0);
    assert_eq!(game.player2.mana, 0);
    assert_eq!(game.turn.state, TurnState::TurnPlay);
}

#[test]
fn a_draw_from_an_empty_deck_changes_nothing() {
    let mut game = Game::new(catalog(3), 0, Vec::new(), 0, vec![1]);
    game.player1.hand.push(Card { proto: 2, cost: 3, kind: CardKind::SpellCard(0) });
    game.player1.graveyard.push(1);
    for count in [0, 1, 3, 1000] {
        assert!(game.can_draw(PlayerIndex::Player1, count));
        game = game.draw(PlayerIndex::Player1, count);
        assert_eq!(hand_protos(&game.player1), vec![2]);
        assert_eq!(game.player1.graveyard, vec![1]);
        assert!(game.player1.deck.is_empty());
        assert_eq!(game.player2.deck, vec![1]);
    }
}

#[test]
fn a_draw_stops_when_the_deck_runs_out() {
    let game = Game::new(catalog(3), 0, Vec::new(), 0, vec![2, 0]);
    let game = game.draw(PlayerIndex::Player2, 3);
    assert_eq!(hand_protos(&game.player2), vec![0, 2]);
    assert!(game.player2.deck.is_empty());
    assert!(game.player1.hand.is_empty());
}

#[test]
fn draws_go_behind_the_cards_already_in_hand() {
    let game = Game::new(catalog(4), 0, vec![0, 1, 2, 3], 0, Vec::new());
    let game = game.draw(PlayerIndex::Player1, 1).draw(PlayerIndex::Player1, 2);
    assert_eq!(hand_protos(&game.player1), vec![3, 2, 1]);
    assert_eq!(game.player1.deck, vec![0]);
}

#[test]
fn drawing_nothing_changes_nothing() {
    let game = Game::new(catalog(4), 0, vec![0, 1], 0, Vec::new());
    let game = game.draw(PlayerIndex::Player1, 0);
    assert!(game.player1.hand.is_empty());
    assert_eq!(game.player1.deck, vec![0, 1]);
}

#[test]
fn a_card_without_a_prototype_cannot_be_drawn() {
    let game = Game::new(catalog(2), 0, vec![5, 0, 1], 0, vec![0, 7]);
    assert!(game.can_draw(PlayerIndex::Player1, 2));
    assert!(!game.can_draw(PlayerIndex::Player1, 3));
    assert!(!game.can_draw(PlayerIndex::Player2, 1));
    assert!(game.can_draw(PlayerIndex::Player2, 0));
    assert!(!game.deck_known(PlayerIndex::Player1));
    assert!(!game.deck_known(PlayerIndex::Player2));
    assert!(!game.can_step());
}

#[test]
fn the_mulligan_phase_cannot_step() {
    let mut game = Game::new(catalog(1), 0, Vec::new(), 0, Vec::new());
    game.turn.state = TurnState::Mulligan;
    assert!(!game.can_step());
}

#[test]
fn a_full_turn_counter_cannot_start_another_turn() {
    let mut game = Game::new(catalog(1), 0, Vec::new(), 0, Vec::new());
    game.turn.turn_count = u32::MAX;
    assert!(!game.can_step());
    game.turn.state = TurnState::TurnEnd;
    assert!(!game.can_step());
    game.turn.state = TurnState::TurnPlay;
    assert!(game.can_step());
    game.turn.state = TurnState::GameEnd;
    assert!(game.can_step());
}

#[test]
fn the_opening_deals_three_cards_to_each_player() {
    let deck1: Vec<CardId> = (0..5).collect();
    let deck2: Vec<CardId> = vec![7, 7, 8, 9];
    let game = Game::new(catalog(10), 0, deck1.clone(), 1, deck2.clone());
    assert!(game.can_step());
    let game = game.step();
    assert_eq!(game.player1.hand.len(), 3);
    assert_eq!(game.player1.deck.len(), 2);
    assert_eq!(game.player2.hand.len(), 3);
    assert_eq!(game.player2.deck.len(), 1);
    let mut all1 = game.player1.deck.clone();
    all1.extend(hand_protos(&game.player1));
    assert_eq!(sorted(&all1), deck1);
    let mut all2 = game.player2.deck.clone();
    all2.extend(hand_protos(&game.player2));
    assert_eq!(sorted(&all2), deck2);
    for card in game.player1.hand.iter() {
        assert_eq!(card.cost, card.proto as u32 + 1);
    }
    assert_eq!(game.player1.mana, 0);
    assert_eq!(game.turn.state, TurnState::TurnStart);
    assert_eq!(game.turn.turn_count, 1);
    assert_eq!(game.turn.current_player, PlayerIndex::Player1);
    assert_eq!(game.next_id, 2);
}

#[test]
fn a_turn_start_draws_one_card_and_grows_the_pool() {
    let mut game = Game::new(catalog(3), 0, vec![0, 1, 2], 0, vec![2, 1]);
    game.turn.state = TurnState::TurnStart;
    game.turn.current_player = PlayerIndex::Player2;
    let game = game.step();
    assert_eq!(hand_protos(&game.player2), vec![1]);
    assert_eq!(game.player2.deck, vec![2]);
    assert_eq!(game.player2.base_mana, 1);
    assert_eq!(game.player2.mana, 1);
    assert!(game.player1.hand.is_empty());
    assert_eq!(game.player1.deck, vec![0, 1, 2]);
    assert_eq!(game.player1.base_mana, 0);
    assert_eq!(game.turn.state, TurnState::TurnPlay);
    assert_eq!(game.turn.current_player, PlayerIndex::Player2);
    assert_eq!(game.turn.turn_count, 0);
}

#[test]
fn turn_play_and_turn_end_only_advance_the_phase() {
    let mut game = Game::new(catalog(3), 0, vec![0, 1, 2], 0, vec![2, 1]);
    game.turn.state = TurnState::TurnPlay;
    game.turn.turn_count = 1;
    game.player1.base_mana = 4;
    game.player1.mana = 2;
    let game = game.step();
    assert_eq!(game.turn.state, TurnState::TurnEnd);
    assert_eq!(game.turn.current_player, PlayerIndex::Player1);
    let game = game.step();
    assert_eq!(game.turn.state, TurnState::TurnStart);
    assert_eq!(game.turn.current_player, PlayerIndex::Player2);
    assert_eq!(game.turn.turn_count, 2);
    assert_eq!(game.player1.deck, vec![0, 1, 2]);
    assert_eq!(game.player2.deck, vec![2, 1]);
    assert!(game.player1.hand.is_empty());
    assert!(game.player2.hand.is_empty());
    assert_eq!(game.player1.base_mana, 4);
    assert_eq!(game.player1.mana, 2);
}

#[test]
fn a_finished_game_does_not_change() {
    let mut game = Game::new(catalog(3), 0, vec![0, 1, 2], 0, vec![2, 1]);
    game.turn.state = TurnState::GameEnd;
    game.turn.turn_count = 12;
    game.player1.base_mana = 6;
    assert!(game.can_step());
    let game = game.step().step();
    assert_eq!(game.turn.state, TurnState::GameEnd);
    assert_eq!(game.turn.turn_count, 12);
    assert_eq!(game.turn.current_player, PlayerIndex::Player1);
    assert_eq!(game.player1.deck, vec![0, 1, 2]);
    assert_eq!(game.player2.deck, vec![2, 1]);
    assert!(game.player1.hand.is_empty());
    assert_eq!(game.player1.base_mana, 6);
    assert_eq!(game.player1.mana, 0);
}

#[test]
fn the_pool_grows_by_one_each_turn_up_to_ten() {
    let mut game = Game::new(catalog(1), 0, Vec::new(), 0, Vec::new());
    let mut turns_of = [0u32, 0u32];
    let mut before = [0u32, 0u32];
    for _ in 0..100 {
        let mover = game.turn.current_player;
        let at_turn_start = game.turn.state == TurnState::TurnStart;
        assert!(game.can_step());
        game = game.step();
        if at_turn_start {
            let seat = if mover == PlayerIndex::Player1 { 0 } else { 1 };
            turns_of[seat] += 1;
            let player = game.player(mover);
            assert_eq!(player.base_mana, turns_of[seat].min(10));
            assert_eq!(player.mana, player.base_mana);
        }
        let now = [game.player1.base_mana, game.player2.base_mana];
        assert!(now[0] >= before[0] && now[1] >= before[1]);
        assert!(now[0] <= 10 && now[1] <= 10);
        assert!(game.player1.mana <= game.player1.base_mana);
        assert!(game.player2.mana <= game.player2.base_mana);
        before = now;
    }
    assert_eq!(game.player1.base_mana, 10);
    assert_eq!(game.player2.base_mana, 10);
}

#[test]
fn refresh_mana_grows_and_fills_the_pool() {
    let mut player = Player::new(PlayerIndex::Player2, vec![1, 2]);
    player.refresh_mana();
    assert_eq!((player.base_mana, player.mana), (1, 1));
    player.mana = 0;
    player.refresh_mana();
    assert_eq!((player.base_mana, player.mana), (2, 2));
    player.base_mana = 9;
    player.refresh_mana();
    assert_eq!((player.base_mana, player.mana), (10, 10));
    player.mana = 4;
    player.refresh_mana();
    assert_eq!((player.base_mana, player.mana), (10, 10));
    assert_eq!(player.deck, vec![1, 2]);
}

#[test]
fn current_and_enemy_player_follow_the_turn() {
    let mut game = Game::new(catalog(1), 0, vec![0], 0, Vec::new());
    assert_eq!(game.current_player().index, PlayerIndex::Player1);
    assert_eq!(game.enemy_player().index, PlayerIndex::Player2);
    assert_eq!(game.current_player().deck, vec![0]);
    game.turn.current_player = PlayerIndex::Player2;
    assert_eq!(game.current_player().index, PlayerIndex::Player2);
    assert_eq!(game.enemy_player().index, PlayerIndex::Player1);
    assert!(game.current_player().deck.is_empty());
}

#[test]
fn a_player_can_be_changed_through_the_accessors() {
    let mut game = Game::new(catalog(1), 0, vec![0], 0, Vec::new());
    game.player(PlayerIndex::Player2).mana = 7;
    game.current_player().graveyard.push(0);
    game.enemy_player().base_mana = 9;
    assert_eq!(game.player2.mana, 7);
    assert_eq!(game.player2.base_mana, 9);
    assert_eq!(game.player1.graveyard, vec![0]);
    assert_eq!(game.player1.mana, 0);
}

#[test]
fn shuffling_keeps_the_cards_of_the_deck() {
    let deck: Vec<CardId> = vec![3, 1, 4, 1, 5, 9, 2, 6, 5, 3, 5];
    let game = Game::new(catalog(10), 0, deck.clone(), 0, vec![8, 7]);
    let game = game.shuffle_deck(PlayerIndex::Player1);
    assert_eq!(sorted(&game.player1.deck), sorted(&deck));
    assert_eq!(game.player2.deck, vec![8, 7]);
    assert!(game.player1.hand.is_empty());
    assert_eq!(game.turn.state, TurnState::GameStart);
    let game = game.shuffle_deck(PlayerIndex::Player2);
    assert_eq!(sorted(&game.player2.deck), vec![7, 8]);
}

#[test]
fn shuffling_changes_the_order_of_a_large_deck() {
    let deck: Vec<CardId> = (0..200).collect();
    let game = Game::new(catalog(200), 0, deck.clone(), 0, Vec::new());
    let game = game.shuffle_deck(PlayerIndex::Player1);
    assert_eq!(sorted(&game.player1.deck), deck);
    assert_ne!(game.player1.deck, deck);
}

#[test]
fn shuffling_an_empty_or_single_card_deck_is_harmless() {
    let game = Game::new(catalog(3), 0, Vec::new(), 0, vec![2]);
    let game = game.shuffle_deck(PlayerIndex::Player1).shuffle_deck(PlayerIndex::Player2);
    assert!(game.player1.deck.is_empty());
    assert_eq!(game.player2.deck, vec![2]);
}

#[test]
fn summoned_minions_get_the_ids_from_two_on() {
    let mut game = Game::new(catalog(1), 0, Vec::new(), 0, Vec::new());
    let seats = [
        PlayerIndex::Player1,
        PlayerIndex::Player2,
        PlayerIndex::Player2,
        PlayerIndex::Player1,
        PlayerIndex::Player2,
    ];
    for (k, seat) in seats.iter().enumerate() {
        assert!(game.can_summon(k % 2));
        game = game.summon(*seat, k % 2);
        assert_eq!(game.next_id, 3 + k as u32);
    }
    let ids1: Vec<u32> = game.board.half1.minions.iter().map(|m| m.character.id).collect();
    let ids2: Vec<u32> = game.board.half2.minions.iter().map(|m| m.character.id).collect();
    assert_eq!(ids1, vec![2, 5]);
    assert_eq!(ids2, vec![3, 4, 6]);
    assert_eq!(game.board.half1.hero.character.id, 0);
    assert_eq!(game.board.half2.hero.character.id, 1);
}

#[test]
fn a_summoned_minion_takes_its_stats_from_the_prototype() {
    let game = Game::new(catalog(1), 0, vec![0], 0, Vec::new());
    let game = game.summon(PlayerIndex::Player2, 1);
    assert!(game.board.half1.minions.is_empty());
    assert_eq!(game.board.half2.minions.len(), 1);
    let m = &game.board.half2.minions[0];
    assert_eq!(m.proto, 1);
    assert_eq!(m.character.id, 2);
    assert_eq!(m.character.base_health, 7);
    assert_eq!(m.character.health, 7);
    assert_eq!(m.character.attack, 6);
    assert_eq!(m.character.attack_counts, 0);
    assert!(m.character.effects.is_empty());
    assert_eq!(game.player1.deck, vec![0]);
    assert_eq!(game.turn.state, TurnState::GameStart);
}

#[test]
fn ids_stay_apart_when_summons_and_steps_alternate() {
    let mut game = Game::new(catalog(4), 0, vec![0, 1, 2, 3], 1, vec![3, 2, 1, 0]);
    let mut seen: Vec<u32> = vec![0, 1];
    for k in 0..12 {
        game = game.step();
        let seat = game.turn.current_player;
        game = game.summon(seat, k % 2);
        let half = if seat == PlayerIndex::Player1 { &game.board.half1 } else { &game.board.half2 };
        let id = half.minions[half.minions.len() - 1].character.id;
        assert!(!seen.contains(&id));
        assert!(id > seen[seen.len() - 1]);
        seen.push(id);
    }
    assert_eq!(seen, (0..14).collect::<Vec<u32>>());
}

#[test]
fn an_unknown_minion_or_a_full_counter_cannot_summon() {
    let mut game = Game::new(catalog(1), 0, Vec::new(), 0, Vec::new());
    assert!(game.can_summon(1));
    assert!(!game.can_summon(2));
    game.next_id = u32::MAX;
    assert!(!game.can_summon(0));
    game.next_id = u32::MAX - 1;
    assert!(game.can_summon(0));
    let game = game.summon(PlayerIndex::Player1, 0);
    assert_eq!(game.next_id, u32::MAX);
    assert_eq!(game.board.half1.minions[0].character.id, u32::MAX - 1);
}

#[test]
fn the_idle_hero_action_returns_what_it_was_given() {
    let game = Game::new(catalog(2), 0, vec![1, 0], 1, Vec::new());
    let hero = Hero::from_proto(Character::raw(40), &proto_hero(3, 12));
    let (game, hero) = hero_action_nop(game, hero);
    assert_eq!(game.player1.deck, vec![1, 0]);
    assert_eq!(game.turn.state, TurnState::GameStart);
    assert_eq!(game.next_id, 2);
    assert_eq!(hero.character.id, 40);
    assert_eq!(hero.character.health, 12);
    assert_eq!(hero.proto, 3);
}

#[test]
fn a_card_is_a_projection_of_its_prototype() {
    let card = Card::from_proto(&proto_card(7, 3));
    assert_eq!(card.proto, 7);
    assert_eq!(card.cost, 3);
    assert!(matches!(card.kind, CardKind::MinionCard(1)));
}

#[test]
fn player_draw_reads_the_catalog_it_is_given() {
    let cards: Vec<ProtoCard> = vec![proto_card(10, 1), proto_card(11, 2), proto_card(12, 3)];
    let mut player = Player::new(PlayerIndex::Player1, vec![2, 0, 1]);
    assert!(player.can_draw(&cards, 3));
    player.draw(&cards, 2);
    assert_eq!(hand_protos(&player), vec![11, 10]);
    assert_eq!(player.hand[0].cost, 2);
    assert_eq!(player.deck, vec![2]);
    assert!(!player.can_draw(&cards[..2].to_vec(), 1));
}

#[test]
fn a_cloned_game_shares_the_catalog() {
    let content = catalog(2);
    let game = Game::new(content.clone(), 0, vec![1], 0, Vec::new());
    let copy = game.clone();
    let game = game.draw(PlayerIndex::Player1, 1);
    assert_eq!(copy.player1.deck, vec![1]);
    assert!(game.player1.deck.is_empty());
    assert!(Arc::ptr_eq(&copy.content, &game.content));
    assert!(Arc::ptr_eq(&copy.content, &content));
}

#[test]
fn an_event_fires_its_triggers_in_registration_order() {
    let mut game = Game::new(catalog(1), 0, Vec::new(), 0, Vec::new());
    assert!(game.fired_by(TriggerEvent::CardDrawn).is_empty());
    let bind = |events: Vec<TriggerEvent>, id: usize| Trigger {
        trigger_events: events,
        action: Action { id },
    };
    game.triggers.push(bind(vec![TriggerEvent::CardDrawn, TriggerEvent::TurnEnd], 30));
    game.triggers.push(bind(vec![TriggerEvent::TurnStart], 10));
    game.triggers.push(bind(vec![TriggerEvent::TurnEnd, TriggerEvent::TurnEnd], 20));
    game.triggers.push(bind(Vec::new(), 40));
    game.triggers.push(bind(vec![TriggerEvent::TurnEnd], 30));
    let ids = |fired: Vec<Action>| fired.iter().map(|a| a.id).collect::<Vec<usize>>();
    assert_eq!(ids(game.fired_by(TriggerEvent::TurnEnd)), vec![30, 20, 30]);
    assert_eq!(ids(game.fired_by(TriggerEvent::CardDrawn)), vec![30]);
    assert_eq!(ids(game.fired_by(TriggerEvent::TurnStart)), vec![10]);
    assert!(game.fired_by(TriggerEvent::HeroAttacked).is_empty());
    assert_eq!(game.triggers.len(), 5);
}
