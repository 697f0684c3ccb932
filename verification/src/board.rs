//! The battlefield: characters, the heroes and minions built on them, and
//! the two halves of the board they stand on.

use vstd::prelude::*;
use crate::catalog::{
    ProtoHero, ProtoHeroId, ProtoMinion, ProtoMinionId, ProtoSpellId, ProtoWeaponId,
};
use crate::hooks::Effect;
use crate::turn::PlayerIndex;

verus! {

pub type CharacterId = u32;

/// The attributes heroes and minions share in combat.
#[derive(Debug, Clone)]
pub struct Character {
    /// Unique over the whole match.
    pub id: CharacterId,
    pub base_health: i32,
    pub health: i32,
    pub attack: u32,
    /// Attacks made this turn.
    pub attack_counts: u32,
    pub effects: Vec<Effect>,
}

/// Mathematical model of a [`Character`].
pub struct CharacterView {
    pub id: nat,
    pub base_health: int,
    pub health: int,
    pub attack: nat,
    pub attack_counts: nat,
    pub effects: Seq<Effect>,
}

impl View for Character {
    type V = CharacterView;

    open spec fn view(&self) -> CharacterView {
        CharacterView {
            id: self.id as nat,
            base_health: self.base_health as int,
            health: self.health as int,
            attack: self.attack as nat,
            attack_counts: self.attack_counts as nat,
            effects: self.effects@,
        }
    }
}

impl CharacterView {
    /// A character with the given id and nothing else: no health, no
    /// attack, no effects.
    pub open spec fn raw(id: nat) -> CharacterView {
        CharacterView {
            id,
            base_health: 0,
            health: 0,
            attack: 0,
            attack_counts: 0,
            effects: Seq::empty(),
        }
    }
}

impl Character {
    /// A character with the given id and nothing else.
    pub fn raw(id: CharacterId) -> (r: Character)
        ensures
            r@ == CharacterView::raw(id as nat),
    {
        Character {
            id,
            base_health: 0,
            health: 0,
            attack: 0,
            attack_counts: 0,
            effects: Vec::new(),
        }
    }
}

/// The power of a hero.
#[derive(Debug, Clone)]
pub struct HeroPower {
    /// Uses made this turn.
    pub uses: u32,
    pub proto: ProtoSpellId,
    pub effects: Vec<Effect>,
}

/// Mathematical model of a [`HeroPower`].
pub struct HeroPowerView {
    pub uses: nat,
    pub proto: ProtoSpellId,
    pub effects: Seq<Effect>,
}

impl View for HeroPower {
    type V = HeroPowerView;

    open spec fn view(&self) -> HeroPowerView {
        HeroPowerView { uses: self.uses as nat, proto: self.proto, effects: self.effects@ }
    }
}

impl HeroPowerView {
    /// The unused power made from the spell prototype `proto`.
    pub open spec fn fresh(proto: ProtoSpellId) -> HeroPowerView {
        HeroPowerView { uses: 0, proto, effects: Seq::empty() }
    }
}

impl HeroPower {
    /// The unused power made from the spell prototype `proto`.
    pub fn new(proto: ProtoSpellId) -> (r: HeroPower)
        ensures
            r@ == HeroPowerView::fresh(proto),
    {
        HeroPower { uses: 0, proto, effects: Vec::new() }
    }
}

/// A weapon in a hero's hand.
#[derive(Debug, Clone)]
pub struct Weapon {
    pub proto: ProtoWeaponId,
    pub damage: u32,
    pub durability: u32,
    pub effects: Vec<Effect>,
}

/// Mathematical model of a [`Weapon`].
pub struct WeaponView {
    pub proto: ProtoWeaponId,
    pub damage: nat,
    pub durability: nat,
    pub effects: Seq<Effect>,
}

impl View for Weapon {
    type V = WeaponView;

    open spec fn view(&self) -> WeaponView {
        WeaponView {
            proto: self.proto,
            damage: self.damage as nat,
            durability: self.durability as nat,
            effects: self.effects@,
        }
    }
}

/// A hero in play. Each player has exactly one, made once when the match
/// begins.
#[derive(Clone)]
pub struct Hero {
    pub proto: ProtoHeroId,
    pub character: Character,
    /// Absorbs damage before health does.
    pub armor: u32,
    pub hero_power: HeroPower,
    pub weapon: Option<Weapon>,
}

/// Mathematical model of a [`Hero`].
pub struct HeroView {
    pub proto: ProtoHeroId,
    pub character: CharacterView,
    pub armor: nat,
    pub hero_power: HeroPowerView,
    pub weapon: Option<WeaponView>,
}

impl View for Hero {
    type V = HeroView;

    open spec fn view(&self) -> HeroView {
        HeroView {
            proto: self.proto,
            character: self.character@,
            armor: self.armor as nat,
            hero_power: self.hero_power@,
            weapon: match self.weapon {
                Some(w) => Some(w@),
                None => None,
            },
        }
    }
}

impl HeroView {
    /// The hero that `proto` describes, built on the character `c`: at full
    /// health, with the prototype's attack and armor, an unused power and
    /// no weapon. Of `c` the id, the attacks made and the effects are kept.
    pub open spec fn from_proto(c: CharacterView, proto: ProtoHero) -> HeroView {
        HeroView {
            proto: proto.id,
            character: CharacterView {
                base_health: proto.base_health as int,
                health: proto.base_health as int,
                attack: proto.base_attack as nat,
                ..c
            },
            armor: proto.base_armor as nat,
            hero_power: HeroPowerView::fresh(proto.hero_power),
            weapon: None,
        }
    }
}

impl Hero {
    /// Makes the hero that `proto` describes, built on the character `c`.
    pub fn from_proto(c: Character, proto: &ProtoHero) -> (r: Hero)
        ensures
            r@ == HeroView::from_proto(c@, *proto),
    {
        let mut c = c;
        c.base_health = proto.base_health;
        c.health = c.base_health;
        c.attack = proto.base_attack;
        Hero {
            proto: proto.id,
            character: c,
            armor: proto.base_armor,
            hero_power: HeroPower::new(proto.hero_power),
            weapon: None,
        }
    }
}

/// A minion in play.
#[derive(Debug, Clone)]
pub struct Minion {
    pub proto: ProtoMinionId,
    pub character: Character,
}

/// Mathematical model of a [`Minion`].
pub struct MinionView {
    pub proto: ProtoMinionId,
    pub character: CharacterView,
}

impl View for Minion {
    type V = MinionView;

    open spec fn view(&self) -> MinionView {
        MinionView { proto: self.proto, character: self.character@ }
    }
}

impl MinionView {
    /// The minion that `proto` describes, built on the character `c`: with
    /// the prototype's health and attack. Of `c` the id, the attacks made
    /// and the effects are kept.
    pub open spec fn from_proto(c: CharacterView, proto: ProtoMinion) -> MinionView {
        MinionView {
            proto: proto.id,
            character: CharacterView {
                base_health: proto.base_health as int,
                health: proto.health as int,
                attack: proto.attack as nat,
                ..c
            },
        }
    }
}

impl Minion {
    /// Makes the minion that `proto` describes, built on the character `c`.
    pub fn from_proto(c: Character, proto: &ProtoMinion) -> (r: Minion)
        ensures
            r@ == MinionView::from_proto(c@, *proto),
    {
        let mut c = c;
        c.base_health = proto.base_health;
        c.health = proto.health;
        c.attack = proto.attack;
        Minion { proto: proto.id, character: c }
    }
}

/// One player's slice of the battlefield. The order of the minions is
/// their order on the board.
#[derive(Clone)]
pub struct Half {
    pub hero: Hero,
    pub minions: Vec<Minion>,
    pub effects: Vec<Effect>,
}

/// Mathematical model of a [`Half`].
pub struct HalfView {
    pub hero: HeroView,
    pub minions: Seq<MinionView>,
    pub effects: Seq<Effect>,
}

impl View for Half {
    type V = HalfView;

    open spec fn view(&self) -> HalfView {
        HalfView {
            hero: self.hero@,
            minions: self.minions@.map_values(|m: Minion| m@),
            effects: self.effects@,
        }
    }
}

impl HalfView {
    /// The half a match begins with: the hero alone.
    pub open spec fn fresh(hero: HeroView) -> HalfView {
        HalfView { hero, minions: Seq::empty(), effects: Seq::empty() }
    }

    /// The half with `minion` placed after the minions already there.
    pub open spec fn with_minion(self, minion: MinionView) -> HalfView {
        HalfView { minions: self.minions.push(minion), ..self }
    }

    /// The ids of the minions, in board order.
    pub open spec fn minion_ids(self) -> Seq<nat> {
        self.minions.map_values(|m: MinionView| m.character.id)
    }
}

impl Half {
    /// The half a match begins with: the hero alone.
    pub fn new(hero: Hero) -> (r: Half)
        ensures
            r@ == HalfView::fresh(hero@),
    {
        let r = Half { hero, minions: Vec::new(), effects: Vec::new() };
        assert(r@.minions =~= Seq::empty());
        r
    }

    /// Places `minion` after the minions already there.
    pub fn add_minion(&mut self, minion: Minion)
        ensures
            final(self)@ == old(self)@.with_minion(minion@),
    {
        self.minions.push(minion);
        assert(self@.minions =~= old(self)@.minions.push(minion@));
    }
}

/// The battlefield: one half for each player.
#[derive(Clone)]
pub struct Board {
    pub half1: Half,
    pub half2: Half,
    pub effects: Vec<Effect>,
}

/// Mathematical model of a [`Board`].
pub struct BoardView {
    pub half1: HalfView,
    pub half2: HalfView,
    pub effects: Seq<Effect>,
}

impl View for Board {
    type V = BoardView;

    open spec fn view(&self) -> BoardView {
        BoardView { half1: self.half1@, half2: self.half2@, effects: self.effects@ }
    }
}

impl BoardView {
    /// The board a match begins with: the two heroes and nothing else.
    pub open spec fn fresh(hero1: HeroView, hero2: HeroView) -> BoardView {
        BoardView {
            half1: HalfView::fresh(hero1),
            half2: HalfView::fresh(hero2),
            effects: Seq::empty(),
        }
    }
}

impl BoardView {
    /// The half of the player in seat `p`.
    pub open spec fn half(self, p: PlayerIndex) -> HalfView {
        match p {
            PlayerIndex::Player1 => self.half1,
            PlayerIndex::Player2 => self.half2,
        }
    }

    /// The board with `minion` placed last on the half of `p`.
    pub open spec fn with_minion(self, p: PlayerIndex, minion: MinionView) -> BoardView {
        match p {
            PlayerIndex::Player1 => BoardView { half1: self.half1.with_minion(minion), ..self },
            PlayerIndex::Player2 => BoardView { half2: self.half2.with_minion(minion), ..self },
        }
    }

    /// The ids of all minions in play: those of player one, then those of
    /// player two.
    pub open spec fn minion_ids(self) -> Seq<nat> {
        self.half1.minion_ids() + self.half2.minion_ids()
    }
}

impl Board {
    /// The board a match begins with: the two heroes and nothing else.
    pub fn new(hero1: Hero, hero2: Hero) -> (r: Board)
        ensures
            r@ == BoardView::fresh(hero1@, hero2@),
    {
        Board { half1: Half::new(hero1), half2: Half::new(hero2), effects: Vec::new() }
    }
}

} // verus!
