use std::cell::RefCell;

use guahao_duel::action::{Action, Resource};
use guahao_duel::game::{resolve, run_match, MatchState, Play, RoundOutcome};

#[test]
fn apply_exact_subtraction() {
    let (v, depleted) = Resource::new(3, 1, 1).apply(Resource::new(2, 1, 0));
    assert!(!depleted);
    assert_eq!(v, Resource::new(1, 0, 1));
}

#[test]
fn apply_depletes_on_any_negative_component() {
    let (v, depleted) = Resource::new(0, 1, 1).apply(Resource::new(1, 0, 0));
    assert!(depleted);
    assert_eq!(v, Resource::new(-1, 1, 1));

    let (v, depleted) = Resource::new(5, 0, 5).apply(Resource::new(0, 1, 0));
    assert!(depleted);
    assert_eq!(v, Resource::new(5, -1, 5));

    let (v, depleted) = Resource::new(5, 0, 0).apply(Resource::new(0, 0, 1));
    assert!(depleted);
    assert_eq!(v, Resource::new(5, 0, -1));
}

#[test]
fn apply_stops_at_first_negative_component() {
    // The second component would also go negative, but the walk stops at the
    // first, leaving the third untouched even though the cost names it.
    let (v, depleted) = Resource::new(0, 0, 5).apply(Resource::new(1, 1, 1));
    assert!(depleted);
    assert_eq!(v, Resource::new(-1, 0, 5));

    let (v, depleted) = Resource::new(1, 0, 0).apply(Resource::new(1, 1, 1));
    assert!(depleted);
    assert_eq!(v, Resource::new(0, -1, 0));
}

#[test]
fn register_grants_a_token() {
    let (v, depleted) = Resource::initial().apply(Action::Guahao.get_cost());
    assert!(!depleted);
    assert_eq!(v, Resource::new(1, 1, 1));

    // Never a depletion from a resting vector, whatever its prior value.
    let (v, depleted) = Resource::new(0, 0, 0).apply(Action::Guahao.get_cost());
    assert!(!depleted);
    assert_eq!(v, Resource::new(1, 0, 0));

    let (v, depleted) = Resource::new(9, 3, 7).apply(Action::Guahao.get_cost());
    assert!(!depleted);
    assert_eq!(v, Resource::new(10, 3, 7));
}

#[test]
fn outcome_negation_is_an_involution() {
    for o in [RoundOutcome::Win, RoundOutcome::Lose, RoundOutcome::Continue] {
        assert_eq!(o.neg().neg(), o);
    }
    assert_eq!(RoundOutcome::Continue.neg(), RoundOutcome::Continue);
    assert_eq!(RoundOutcome::Win.neg(), RoundOutcome::Lose);
    assert_eq!(RoundOutcome::Lose.neg(), RoundOutcome::Win);
}

fn rich() -> Resource {
    Resource::new(9, 9, 9)
}

#[test]
fn attack_versus_attack() {
    let (_, _, o) = resolve(Action::Attack(2), Action::Attack(1), rich(), rich());
    assert_eq!(o, RoundOutcome::Win);
    let (_, _, o) = resolve(Action::Attack(1), Action::Attack(2), rich(), rich());
    assert_eq!(o, RoundOutcome::Lose);
    let (_, _, o) = resolve(Action::Attack(2), Action::Attack(2), rich(), rich());
    assert_eq!(o, RoundOutcome::Continue);
    // Swapping sides negates the outcome.
    let (_, _, o) = resolve(Action::Attack(1), Action::Attack(2), rich(), rich());
    let (_, _, swapped) = resolve(Action::Attack(2), Action::Attack(1), rich(), rich());
    assert_eq!(swapped, o.neg());
}

#[test]
fn attack_versus_defense() {
    let (_, _, o) = resolve(Action::Attack(2), Action::Defend(2), rich(), rich());
    assert_eq!(o, RoundOutcome::Continue);
    let (_, _, o) = resolve(Action::Attack(2), Action::Defend(3), rich(), rich());
    assert_eq!(o, RoundOutcome::Win);
    let (_, _, o) = resolve(Action::Defend(1), Action::Attack(1), rich(), rich());
    assert_eq!(o, RoundOutcome::Continue);
    let (_, _, o) = resolve(Action::Defend(1), Action::Attack(2), rich(), rich());
    assert_eq!(o, RoundOutcome::Lose);
}

#[test]
fn attack_versus_unleveled_replies() {
    let (_, _, o) = resolve(Action::Attack(1), Action::Fantan, rich(), rich());
    assert_eq!(o, RoundOutcome::Lose);
    let (_, _, o) = resolve(Action::Attack(1), Action::Quanfang, rich(), rich());
    assert_eq!(o, RoundOutcome::Continue);
    let (_, _, o) = resolve(Action::Attack(1), Action::Guahao, rich(), rich());
    assert_eq!(o, RoundOutcome::Win);
    // And seen from the other side.
    let (_, _, o) = resolve(Action::Fantan, Action::Attack(1), rich(), rich());
    assert_eq!(o, RoundOutcome::Win);
    let (_, _, o) = resolve(Action::Quanfang, Action::Attack(1), rich(), rich());
    assert_eq!(o, RoundOutcome::Continue);
    let (_, _, o) = resolve(Action::Guahao, Action::Attack(1), rich(), rich());
    assert_eq!(o, RoundOutcome::Lose);
}

#[test]
fn neither_side_attacks() {
    let (_, _, o) = resolve(Action::Guahao, Action::Quanfang, rich(), rich());
    assert_eq!(o, RoundOutcome::Continue);
    let (_, _, o) = resolve(Action::Defend(3), Action::Fantan, rich(), rich());
    assert_eq!(o, RoundOutcome::Continue);
}

#[test]
fn scenario_self_inflicted_depletion() {
    // Both sides start fresh; A cannot pay for an attack, so the round is an
    // immediate loss for A, with the negative component visible and B's
    // vector untouched.
    let a = Resource::initial();
    let b = Resource::initial();
    let (new_a, new_b, o) = resolve(Action::Attack(1), Action::Guahao, a, b);
    assert_eq!(o, RoundOutcome::Lose);
    assert_eq!(new_a, Resource::new(-1, 1, 1));
    assert_eq!(new_b, Resource::initial());
}

#[test]
fn scenario_matched_defense_carries_forward() {
    let a = Resource::new(2, 1, 1);
    let b = Resource::new(2, 1, 1);
    let (new_a, new_b, o) = resolve(Action::Attack(2), Action::Defend(2), a, b);
    assert_eq!(o, RoundOutcome::Continue);
    assert_eq!(new_a, Resource::new(0, 1, 1));
    assert_eq!(new_b, Resource::new(2, 1, 1));
}

#[test]
fn scenario_reflected_attack() {
    let a = Resource::new(0, 1, 1);
    let b = Resource::new(1, 1, 1);
    let (new_a, new_b, o) = resolve(Action::Fantan, Action::Attack(1), a, b);
    assert_eq!(o, RoundOutcome::Win);
    assert_eq!(new_a, Resource::new(0, 1, 0));
    assert_eq!(new_b, Resource::new(0, 1, 1));
}

#[test]
fn play_round_updates_the_match() {
    let mut m = MatchState::new();
    let o = m.play_round(Action::Guahao, Action::Guahao);
    assert_eq!(o, RoundOutcome::Continue);
    assert_eq!(m.state_a, Resource::new(1, 1, 1));
    assert_eq!(m.state_b, Resource::new(1, 1, 1));
    let o = m.play_round(Action::Attack(1), Action::Guahao);
    assert_eq!(o, RoundOutcome::Win);
    assert_eq!(m.state_a, Resource::new(0, 1, 1));
    assert_eq!(m.state_b, Resource::new(2, 1, 1));
}

/// A deterministic player for driving the match loop: plays a fixed script,
/// then keeps registering, and records what it is notified of.
struct Scripted {
    moves: RefCell<Vec<Action>>,
    seen: RefCell<Vec<RoundOutcome>>,
}

impl Scripted {
    fn new(mut moves: Vec<Action>) -> Scripted {
        moves.reverse();
        Scripted { moves: RefCell::new(moves), seen: RefCell::new(Vec::new()) }
    }
}

impl Play for Scripted {
    fn get_action(&self, _state: Resource, _other_state: Resource) -> Action {
        self.moves.borrow_mut().pop().unwrap_or(Action::Guahao)
    }

    fn notify_round_result(
        &self,
        _state: Resource,
        _other_state: Resource,
        _other_action: Action,
        outcome: RoundOutcome,
    ) {
        self.seen.borrow_mut().push(outcome);
    }
}

#[test]
fn match_loop_runs_to_a_terminal_outcome() {
    let a = Scripted::new(vec![Action::Guahao, Action::Attack(1)]);
    let b = Scripted::new(vec![Action::Guahao, Action::Guahao]);
    let r = run_match(&a, &b, 100);
    assert_eq!(r, Some(RoundOutcome::Win));
    // Both sides were told about both rounds, each from its own perspective.
    assert_eq!(*a.seen.borrow(), vec![RoundOutcome::Continue, RoundOutcome::Win]);
    assert_eq!(*b.seen.borrow(), vec![RoundOutcome::Continue, RoundOutcome::Lose]);
}

#[test]
fn match_loop_with_no_budget_asks_nothing() {
    let a = Scripted::new(vec![Action::Attack(1)]);
    let b = Scripted::new(vec![Action::Attack(1)]);
    assert_eq!(run_match(&a, &b, 0), None);
    assert!(a.seen.borrow().is_empty());
    assert!(b.seen.borrow().is_empty());
}

#[test]
fn resting_vectors() {
    assert!(Resource::initial().is_resting());
    assert!(Resource::new(0, 0, 0).is_resting());
    assert!(!Resource::new(-1, 1, 1).is_resting());
    assert!(!Resource::new(0, -2, 0).is_resting());
    assert!(!Resource::new(0, 0, -1).is_resting());
}

#[test]
fn match_loop_stops_when_the_budget_runs_out() {
    // Two sides that only ever register never reach a terminal outcome.
    let a = Scripted::new(vec![]);
    let b = Scripted::new(vec![]);
    let r = run_match(&a, &b, 5);
    assert_eq!(r, None);
    assert_eq!(a.seen.borrow().len(), 5);
}
