use card_engine::hooks::{Action, Rule, Trigger, TriggerEvent};

fn rule(init: usize, end: usize) -> Rule {
    Rule { init: Action { id: init }, end: Action { id: end } }
}

fn trigger(events: Vec<TriggerEvent>, action: usize) -> Trigger {
    Trigger { trigger_events: events, action: Action { id: action } }
}

#[test]
fn rules_with_the_same_hooks_are_equal() {
    assert!(rule(3, 7) == rule(3, 7));
    assert!(!(rule(3, 7) != rule(3, 7)));
}

#[test]
fn rules_that_differ_in_one_hook_are_not_equal() {
    assert!(rule(3, 7) != rule(4, 7));
    assert!(rule(3, 7) != rule(3, 8));
    assert!(rule(3, 7) != rule(7, 3));
}

#[test]
fn triggers_with_the_same_events_and_action_are_equal() {
    let a = trigger(vec![TriggerEvent::CardDrawn, TriggerEvent::TurnEnd], 5);
    let b = trigger(vec![TriggerEvent::CardDrawn, TriggerEvent::TurnEnd], 5);
    assert!(a == b);
}

#[test]
fn trigger_events_are_a_set() {
    let a = trigger(vec![TriggerEvent::CardDrawn, TriggerEvent::TurnEnd], 5);
    let b = trigger(vec![TriggerEvent::TurnEnd, TriggerEvent::CardDrawn], 5);
    let c = trigger(
        vec![TriggerEvent::TurnEnd, TriggerEvent::CardDrawn, TriggerEvent::TurnEnd],
        5,
    );
    assert!(a == b);
    assert!(a == c);
    assert!(c == a);
}

#[test]
fn triggers_that_differ_in_an_event_are_not_equal() {
    let a = trigger(vec![TriggerEvent::CardDrawn, TriggerEvent::TurnEnd], 5);
    let fewer = trigger(vec![TriggerEvent::CardDrawn], 5);
    let other = trigger(vec![TriggerEvent::CardDrawn, TriggerEvent::TurnStart], 5);
    assert!(a != fewer);
    assert!(fewer != a);
    assert!(a != other);
}

#[test]
fn triggers_that_differ_in_the_action_are_not_equal() {
    let a = trigger(vec![TriggerEvent::HeroAttacked], 5);
    let b = trigger(vec![TriggerEvent::HeroAttacked], 6);
    assert!(a != b);
}

#[test]
fn a_trigger_listens_for_its_events_only() {
    let t = trigger(vec![TriggerEvent::MinionSummoned, TriggerEvent::SpellCasted], 1);
    assert!(t.listens_for(TriggerEvent::MinionSummoned));
    assert!(t.listens_for(TriggerEvent::SpellCasted));
    assert!(!t.listens_for(TriggerEvent::MinionSpawned));
    assert!(!trigger(Vec::new(), 1).listens_for(TriggerEvent::TurnStart));
}
