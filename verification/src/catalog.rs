//! The content catalog: the read-only prototypes that cards, heroes,
//! minions, spells and weapons are made from, each table keyed by a numeric
//! id.

use vstd::prelude::*;
use crate::hooks::{HeroAction, MinionAction, Precast, SpellAction, WeaponAction};

verus! {

pub type CardId = usize;

pub type ProtoHeroId = usize;

pub type ProtoMinionId = usize;

pub type ProtoSpellId = usize;

pub type ProtoWeaponId = usize;

/// What a card turns into when it resolves, with the id of the prototype it
/// instantiates.
#[derive(Debug, Clone, Copy)]
pub enum CardKind {
    HeroCard(ProtoHeroId),
    HeroPowerCard(ProtoSpellId),
    MinionCard(ProtoMinionId),
    SpellCard(ProtoSpellId),
    WeaponCard(ProtoWeaponId),
}

#[derive(Debug, PartialEq, Eq, Clone, Copy, Structural)]
pub enum Rarety {
    Basic,
    Common,
    Rare,
    Epic,
    Legendary,
}

#[derive(Debug, PartialEq, Eq, Clone, Copy, Structural)]
pub enum Class {
    Neutral,
    Warrior,
    Mage,
    Paladin,
    Rogue,
    Hunter,
    Priest,
    Warlock,
    Shaman,
    Druid,
}

/// The release a card belongs to.
#[derive(Debug, PartialEq, Eq, Clone, Copy, Structural)]
pub enum CardSet {
    Basic,
}

#[derive(Debug, PartialEq, Eq, Clone, Copy, Structural)]
pub enum Tribe {
    Beast,
    Demon,
    Dragon,
    Mech,
    Murloc,
    Pirate,
    Totem,
    General,
}

#[derive(Debug, PartialEq, Eq, Clone, Copy, Structural)]
pub struct Category;

/// Prototype of a card: display text and the static properties every copy
/// of the card shares.
#[derive(Debug, Clone)]
pub struct ProtoCard {
    pub id: CardId,
    pub title: &'static str,
    pub text: &'static str,
    pub lore: &'static str,
    pub tribe: Tribe,
    pub categories: Vec<Category>,
    pub cost: u32,
    pub rarety: Rarety,
    pub class: Class,
    pub set: CardSet,
    pub golden: bool,
    pub kind: CardKind,
}

/// Prototype of a hero.
#[derive(Clone, Copy)]
pub struct ProtoHero {
    pub id: ProtoHeroId,
    pub base_armor: u32,
    pub base_health: i32,
    pub base_attack: u32,
    pub hero_power: ProtoSpellId,
    pub action: HeroAction,
}

/// Prototype of a minion.
pub struct ProtoMinion {
    pub id: ProtoMinionId,
    pub base_health: i32,
    pub health: i32,
    pub attack: u32,
    pub precast: Precast,
    pub action: MinionAction,
}

impl Clone for ProtoMinion {
    fn clone(&self) -> (r: ProtoMinion)
        ensures
            r == *self,
    {
        ProtoMinion {
            id: self.id,
            base_health: self.base_health,
            health: self.health,
            attack: self.attack,
            precast: self.precast,
            action: self.action,
        }
    }
}

/// Prototype of a spell.
pub struct ProtoSpell {
    pub id: ProtoSpellId,
    pub precast: Precast,
    pub action: SpellAction,
}

impl Clone for ProtoSpell {
    fn clone(&self) -> (r: ProtoSpell)
        ensures
            r == *self,
    {
        ProtoSpell { id: self.id, precast: self.precast, action: self.action }
    }
}

/// Prototype of a weapon.
pub struct ProtoWeapon {
    pub id: ProtoWeaponId,
    pub attack: u32,
    pub durability: u32,
    pub precast: Precast,
    pub action: WeaponAction,
}

impl Clone for ProtoWeapon {
    fn clone(&self) -> (r: ProtoWeapon)
        ensures
            r == *self,
    {
        ProtoWeapon {
            id: self.id,
            attack: self.attack,
            durability: self.durability,
            precast: self.precast,
            action: self.action,
        }
    }
}

/// The catalog itself. A prototype is looked up by its position in the
/// table of its kind.
pub struct Content {
    pub cards: Vec<ProtoCard>,
    pub heroes: Vec<ProtoHero>,
    pub minions: Vec<ProtoMinion>,
    pub spells: Vec<ProtoSpell>,
    pub weapons: Vec<ProtoWeapon>,
}

} // verus!
