//! What `==` means on rules and triggers.

use vstd::prelude::*;
use vstd::std_specs::cmp::PartialEqSpec;
use crate::hooks::{Rule, Trigger, TriggerEvent};

verus! {

/// Two rules are equal exactly when each hook of the one names the same
/// transform as that hook of the other, which is to say when the two are
/// the same value.
pub proof fn lemma_rule_equality(a: Rule, b: Rule)
    ensures
        a.eq_spec(&b) <==> a.init.id == b.init.id && a.end.id == b.end.id,
        a.eq_spec(&b) <==> a == b,
{
}

/// Two triggers are equal exactly when each listens for every event the
/// other listens for and both fire the same transform. How often and in
/// what order the events are written down does not count.
pub proof fn lemma_trigger_equality(a: Trigger, b: Trigger)
    ensures
        a.eq_spec(&b) <==> a.action.id == b.action.id && forall|e: TriggerEvent|
            a.trigger_events@.contains(e) <==> b.trigger_events@.contains(e),
{
    if a.action.id == b.action.id && forall|e: TriggerEvent|
        a.trigger_events@.contains(e) <==> b.trigger_events@.contains(e) {
        assert(a.events() =~= b.events());
    }
    if a.eq_spec(&b) {
        assert forall|e: TriggerEvent|
            a.trigger_events@.contains(e) <==> b.trigger_events@.contains(e) by {
            assert(a.events().contains(e) <==> b.events().contains(e));
        }
    }
}

} // verus!
