//! Hook points through which content plugs into the engine: handles of game
//! transforms, and the rules and triggers that bind them.

use vstd::prelude::*;
use vstd::std_specs::cmp::PartialEqSpecImpl;

verus! {

/// Stable handle of a transform from one game state to the next.
///
/// The engine stores and compares handles; the driver that owns the
/// transforms resolves them. Two handles name the same transform exactly
/// when their ids are equal.
#[derive(Debug, PartialEq, Eq, Clone, Copy, Structural)]
pub struct Action {
    pub id: usize,
}

/// Stable handle of a gating check: run on a game state before an effect
/// may resolve, it says whether the effect is legal there and yields the
/// [`Metadata`] handed to the effect.
#[derive(Debug, PartialEq, Eq, Clone, Copy, Structural)]
pub struct Precast {
    pub id: usize,
}

/// Stable handle of the effect of a hero: a transform of a game state and
/// the hero it belongs to.
#[derive(Debug, PartialEq, Eq, Clone, Copy, Structural)]
pub struct HeroAction {
    pub id: usize,
}

/// Stable handle of the effect of a minion: a transform of a game state and
/// the minion it belongs to, given the [`Metadata`] of its gating check.
#[derive(Debug, PartialEq, Eq, Clone, Copy, Structural)]
pub struct MinionAction {
    pub id: usize,
}

/// Stable handle of the effect of a spell: a transform of a game state,
/// given the [`Metadata`] of its gating check.
#[derive(Debug, PartialEq, Eq, Clone, Copy, Structural)]
pub struct SpellAction {
    pub id: usize,
}

/// Stable handle of the effect of a weapon: a transform of a game state and
/// the weapon it belongs to, given the [`Metadata`] of its gating check.
#[derive(Debug, PartialEq, Eq, Clone, Copy, Structural)]
pub struct WeaponAction {
    pub id: usize,
}

/// What a gating check hands to the effect it guards, such as a chosen
/// target.
#[derive(Debug, PartialEq, Eq, Clone, Copy, Structural)]
pub enum Metadata {
    Nothing,
}

/// A lasting modification attached to a character, a weapon, a hero power,
/// a player or the board.
#[derive(Debug, PartialEq, Eq, Clone, Copy, Structural)]
pub enum Effect {
    Nothing,
}

/// A pair of transforms that bracket the lifetime of a bounded effect:
/// `init` runs when the rule becomes active, `end` when it lapses.
#[derive(Debug, Clone, Copy)]
pub struct Rule {
    pub init: Action,
    pub end: Action,
}

impl PartialEq for Rule {
    /// Two rules are equal exactly when both hooks are the same transform.
    fn eq(&self, other: &Rule) -> (r: bool) {
        self.init.id == other.init.id && self.end.id == other.end.id
    }
}

impl PartialEqSpecImpl for Rule {
    open spec fn obeys_eq_spec() -> bool {
        true
    }

    open spec fn eq_spec(&self, other: &Rule) -> bool {
        self.init == other.init && self.end == other.end
    }
}

impl Eq for Rule {}

/// Every kind of occurrence a trigger can listen for.
#[derive(Debug, PartialEq, Eq, Clone, Copy, Structural)]
pub enum TriggerEvent {
    TurnStart,
    TurnEnd,
    CardDrawn,
    CardPlayed,
    SpellCasted,
    MinionSummoned,
    WeaponEquipped,
    MinionSpawned,
    MinionAttacking,
    MinionAttacked,
    HeroAttacking,
    HeroAttacked,
    HeroPowerUsed,
    HeroTargeted,
    MinionTargeted,
}

/// Binds a set of events to one transform, which fires when any of the
/// events occurs. The events are kept in a vector; order and repetition
/// carry no meaning.
#[derive(Debug, Clone)]
pub struct Trigger {
    pub trigger_events: Vec<TriggerEvent>,
    pub action: Action,
}

impl Trigger {
    /// The set of events this trigger listens for.
    pub open spec fn events(&self) -> Set<TriggerEvent> {
        self.trigger_events@.to_set()
    }

    /// The test a trigger passes when it listens for `e`.
    pub open spec fn listening_for(e: TriggerEvent) -> spec_fn(Trigger) -> bool {
        |t: Trigger| t.events().contains(e)
    }

    /// The transform a trigger fires.
    pub open spec fn action_of() -> spec_fn(Trigger) -> Action {
        |t: Trigger| t.action
    }

    /// Whether this trigger fires on `e`.
    pub fn listens_for(&self, e: TriggerEvent) -> (r: bool)
        ensures
            r == self.events().contains(e),
    {
        let mut i: usize = 0;
        while i < self.trigger_events.len()
            invariant
                i <= self.trigger_events.len(),
                forall|j: int| 0 <= j < i ==> self.trigger_events@[j] != e,
            decreases self.trigger_events.len() - i,
        {
            if self.trigger_events[i] == e {
                return true;
            }
            i += 1;
        }
        false
    }

    /// Whether every event of `self` is an event of `other`.
    fn events_within(&self, other: &Trigger) -> (r: bool)
        ensures
            r == self.events().subset_of(other.events()),
    {
        let mut i: usize = 0;
        while i < self.trigger_events.len()
            invariant
                i <= self.trigger_events.len(),
                forall|j: int| 0 <= j < i ==> other.events().contains(self.trigger_events@[j]),
            decreases self.trigger_events.len() - i,
        {
            if !other.listens_for(self.trigger_events[i]) {
                return false;
            }
            i += 1;
        }
        true
    }
}

impl PartialEq for Trigger {
    /// Two triggers are equal exactly when they listen for the same set of
    /// events and fire the same transform.
    fn eq(&self, other: &Trigger) -> (r: bool) {
        let same = self.action.id == other.action.id && self.events_within(other)
            && other.events_within(self);
        proof {
            if same {
                assert(self.events() =~= other.events());
            }
        }
        same
    }
}

impl PartialEqSpecImpl for Trigger {
    open spec fn obeys_eq_spec() -> bool {
        true
    }

    open spec fn eq_spec(&self, other: &Trigger) -> bool {
        self.events() == other.events() && self.action == other.action
    }
}

impl Eq for Trigger {}

} // verus!
