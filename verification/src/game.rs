//! The round-resolution engine and the match loop: cost application for both
//! sides, the fixed action-pair table, and the state machine that drives
//! rounds until a terminal outcome.

use vstd::prelude::*;

use crate::action::{
    apply_partial, cost_spec, depletes, fits, sub_components, vec_wf, Action, Resource,
};

verus! {

/// One round's result, always from the acting side's own perspective; the
/// opposing side's outcome is the negation.
#[derive(Clone, Copy, PartialEq, Eq, Structural, Debug)]
pub enum RoundOutcome {
    Win,
    Lose,
    Continue,
}

/// The opposing side's perspective: `Win` and `Lose` swap, `Continue` is its
/// own negation.
pub open spec fn neg_spec(o: RoundOutcome) -> RoundOutcome {
    match o {
        RoundOutcome::Win => RoundOutcome::Lose,
        RoundOutcome::Lose => RoundOutcome::Win,
        RoundOutcome::Continue => RoundOutcome::Continue,
    }
}

impl RoundOutcome {
    /// The same round seen from the other side.
    pub fn neg(self) -> (r: RoundOutcome)
        ensures
            r == neg_spec(self),
    {
        match self {
            RoundOutcome::Win => RoundOutcome::Lose,
            RoundOutcome::Lose => RoundOutcome::Win,
            RoundOutcome::Continue => RoundOutcome::Continue,
        }
    }
}

/// The fixed action-pair table, for rounds where both sides paid their cost.
/// At most one side can be treated as "the attacker": a pair of attacks is
/// settled entirely by the level comparison in the first arm and never
/// reaches the swapped-roles arms.
pub open spec fn outcome_spec(a: Action, b: Action) -> RoundOutcome {
    match (a, b) {
        (Action::Attack(x), Action::Attack(y)) => if y < x {
            RoundOutcome::Win
        } else if y == x {
            RoundOutcome::Continue
        } else {
            RoundOutcome::Lose
        },
        (Action::Attack(x), Action::Defend(d)) => if d == x {
            RoundOutcome::Continue
        } else {
            RoundOutcome::Win
        },
        (Action::Attack(_), Action::Guahao) => RoundOutcome::Win,
        (Action::Attack(_), Action::Quanfang) => RoundOutcome::Continue,
        (Action::Attack(_), Action::Fantan) => RoundOutcome::Lose,
        (Action::Defend(d), Action::Attack(y)) => if d == y {
            RoundOutcome::Continue
        } else {
            RoundOutcome::Lose
        },
        (Action::Guahao, Action::Attack(_)) => RoundOutcome::Lose,
        (Action::Quanfang, Action::Attack(_)) => RoundOutcome::Continue,
        (Action::Fantan, Action::Attack(_)) => RoundOutcome::Win,
        _ => RoundOutcome::Continue,
    }
}

/// One whole round, from side A's perspective: A's own cost is applied to A's
/// vector first (depletion there is a self-inflicted loss, and B's vector is
/// left untouched); then B's cost to B's vector (depletion is a win for A,
/// with A's vector already fully charged); only when both sides paid does the
/// action-pair table decide.
pub open spec fn resolve_spec(a: Action, b: Action, va: Seq<int>, vb: Seq<int>) -> (
    Seq<int>,
    Seq<int>,
    RoundOutcome,
) {
    if depletes(va, cost_spec(a)) {
        (apply_partial(va, cost_spec(a)), vb, RoundOutcome::Lose)
    } else if depletes(vb, cost_spec(b)) {
        (sub_components(va, cost_spec(a)), apply_partial(vb, cost_spec(b)), RoundOutcome::Win)
    } else {
        (sub_components(va, cost_spec(a)), sub_components(vb, cost_spec(b)), outcome_spec(a, b))
    }
}

/// Resolves one round: applies each side's own cost to its own vector and
/// decides the outcome for side A.
pub fn resolve(action_a: Action, action_b: Action, vector_a: Resource, vector_b: Resource) -> (r: (
    Resource,
    Resource,
    RoundOutcome,
))
    requires
        action_a.wf(),
        action_b.wf(),
        fits(vector_a@, cost_spec(action_a)),
        fits(vector_b@, cost_spec(action_b)),
    ensures
        (r.0@, r.1@, r.2) == resolve_spec(action_a, action_b, vector_a@, vector_b@),
{
    let cost_a = action_a.get_cost();
    let (new_a, depleted_a) = vector_a.apply(cost_a);
    if depleted_a {
        return (new_a, vector_b, RoundOutcome::Lose);
    }
    let cost_b = action_b.get_cost();
    let (new_b, depleted_b) = vector_b.apply(cost_b);
    if depleted_b {
        return (new_a, new_b, RoundOutcome::Win);
    }
    let outcome = match (action_a, action_b) {
        (Action::Attack(x), Action::Attack(y)) => {
            if y < x {
                RoundOutcome::Win
            } else if y == x {
                RoundOutcome::Continue
            } else {
                RoundOutcome::Lose
            }
        },
        (Action::Attack(x), Action::Defend(d)) => {
            if d == x {
                RoundOutcome::Continue
            } else {
                RoundOutcome::Win
            }
        },
        (Action::Attack(_), Action::Guahao) => RoundOutcome::Win,
        (Action::Attack(_), Action::Quanfang) => RoundOutcome::Continue,
        (Action::Attack(_), Action::Fantan) => RoundOutcome::Lose,
        (Action::Defend(d), Action::Attack(y)) => {
            if d == y {
                RoundOutcome::Continue
            } else {
                RoundOutcome::Lose
            }
        },
        (Action::Guahao, Action::Attack(_)) => RoundOutcome::Lose,
        (Action::Quanfang, Action::Attack(_)) => RoundOutcome::Continue,
        (Action::Fantan, Action::Attack(_)) => RoundOutcome::Win,
        _ => RoundOutcome::Continue,
    };
    (new_a, new_b, outcome)
}

/// Negating an outcome twice returns the original outcome; `Continue` is its
/// own negation.
pub proof fn lemma_neg_involution(o: RoundOutcome)
    ensures
        neg_spec(neg_spec(o)) == o,
        neg_spec(RoundOutcome::Continue) == RoundOutcome::Continue,
{
}

/// Swapping the two sides of a round negates the table's outcome: whatever
/// the pair of actions, each side sees the other's result from the opposite
/// perspective.
pub proof fn lemma_outcome_antisymmetric(a: Action, b: Action)
    ensures
        outcome_spec(b, a) == neg_spec(outcome_spec(a, b)),
{
}

/// A duel of two attacks, with both sides able to pay: side A wins exactly
/// when its level is the higher one, loses exactly when it is the lower one,
/// and equal levels stalemate — and the same round seen from side B is the
/// negation, so the rule is symmetric under swapping sides.
pub proof fn lemma_attack_duel(a: u8, b: u8, va: Seq<int>, vb: Seq<int>)
    requires
        !depletes(va, cost_spec(Action::Attack(a))),
        !depletes(vb, cost_spec(Action::Attack(b))),
    ensures
        resolve_spec(Action::Attack(a), Action::Attack(b), va, vb).2 == RoundOutcome::Win <==> b
            < a,
        resolve_spec(Action::Attack(a), Action::Attack(b), va, vb).2 == RoundOutcome::Lose <==> b
            > a,
        resolve_spec(Action::Attack(a), Action::Attack(b), va, vb).2 == RoundOutcome::Continue
            <==> a == b,
        resolve_spec(Action::Attack(b), Action::Attack(a), vb, va).2 == neg_spec(
            resolve_spec(Action::Attack(a), Action::Attack(b), va, vb).2,
        ),
{
}

/// An attack against a defense, with both sides able to pay: a defense of the
/// matching level stalemates the round, any other level lets the attack
/// through and side A wins.
pub proof fn lemma_attack_vs_defend(a: u8, d: u8, va: Seq<int>, vb: Seq<int>)
    requires
        !depletes(va, cost_spec(Action::Attack(a))),
        !depletes(vb, cost_spec(Action::Defend(d))),
    ensures
        d == a ==> resolve_spec(Action::Attack(a), Action::Defend(d), va, vb).2
            == RoundOutcome::Continue,
        d != a ==> resolve_spec(Action::Attack(a), Action::Defend(d), va, vb).2
            == RoundOutcome::Win,
{
}

/// An attack against each unleveled reply, with both sides able to pay:
/// reflect turns it into a loss for the attacker, full defense blocks it into
/// a stalemate, and registering leaves the defender open, a win for the
/// attacker.
pub proof fn lemma_attack_vs_unleveled(a: u8, va: Seq<int>, vb: Seq<int>)
    requires
        !depletes(va, cost_spec(Action::Attack(a))),
    ensures
        !depletes(vb, cost_spec(Action::Fantan)) ==> resolve_spec(
            Action::Attack(a),
            Action::Fantan,
            va,
            vb,
        ).2 == RoundOutcome::Lose,
        !depletes(vb, cost_spec(Action::Quanfang)) ==> resolve_spec(
            Action::Attack(a),
            Action::Quanfang,
            va,
            vb,
        ).2 == RoundOutcome::Continue,
        !depletes(vb, cost_spec(Action::Guahao)) ==> resolve_spec(
            Action::Attack(a),
            Action::Guahao,
            va,
            vb,
        ).2 == RoundOutcome::Win,
{
}

/// The player port: anything that can supply an action each round and be
/// told how the round went. Implementations may block while choosing (human
/// input, a message queue) or answer at once (a bot); the engine validates
/// nothing beyond the level range — an unaffordable move is a deliberate
/// choice that loses by depletion, not a rejected input.
pub trait Play {
    /// Supplies this side's move for the round, given its own and the
    /// opponent's current balances, which rest non-negative between rounds.
    fn get_action(&self, state: Resource, other_state: Resource) -> (a: Action)
        requires
            vec_wf(state@),
            vec_wf(other_state@),
        ensures
            a.wf(),
    ;

    /// Reports the finished round: both updated balances, the opponent's
    /// move, and the outcome from this side's perspective. Presentation only;
    /// the engine ignores any failure to deliver.
    fn notify_round_result(
        &self,
        state: Resource,
        other_state: Resource,
        other_action: Action,
        outcome: RoundOutcome,
    );
}

/// The two vectors a match owns, side A first. Each round mutates both in
/// place; between rounds both are non-negative.
pub struct MatchState {
    pub state_a: Resource,
    pub state_b: Resource,
}

impl MatchState {
    /// Both sides rest between rounds: no component is negative.
    pub open spec fn wf(self) -> bool {
        vec_wf(self.state_a@) && vec_wf(self.state_b@)
    }

    /// A fresh match: both sides hold the initial balance.
    pub fn new() -> (m: MatchState)
        ensures
            m.state_a@ == seq![0int, 1int, 1int],
            m.state_b@ == seq![0int, 1int, 1int],
            m.wf(),
    {
        MatchState { state_a: Resource::initial(), state_b: Resource::initial() }
    }

    /// Plays one round: resolves the two actions against the owned vectors
    /// and stores the updated vectors. A `Continue` outcome leaves both
    /// vectors non-negative, ready for another round; a terminal outcome may
    /// leave the loser's vector showing the negative component that ended it.
    pub fn play_round(&mut self, action_a: Action, action_b: Action) -> (o: RoundOutcome)
        requires
            action_a.wf(),
            action_b.wf(),
            old(self).wf(),
            fits(old(self).state_a@, cost_spec(action_a)),
            fits(old(self).state_b@, cost_spec(action_b)),
        ensures
            (final(self).state_a@, final(self).state_b@, o) == resolve_spec(
                action_a,
                action_b,
                old(self).state_a@,
                old(self).state_b@,
            ),
            o == RoundOutcome::Continue ==> final(self).wf(),
    {
        let (new_a, new_b, outcome) = resolve(action_a, action_b, self.state_a, self.state_b);
        self.state_a = new_a;
        self.state_b = new_b;
        outcome
    }
}

/// Whether applying `cost` to `state` keeps every subtraction representable;
/// the only way out of range upward is granting a token to a side already at
/// the component maximum.
fn cost_fits(state: &Resource, cost: &Resource) -> (b: bool)
    ensures
        b == fits(state@, cost@),
{
    let r = state.registration as i16 - cost.registration as i16;
    let f = state.full_defense as i16 - cost.full_defense as i16;
    let l = state.reflect as i16 - cost.reflect as i16;
    -128 <= r && r <= 127 && -128 <= f && f <= 127 && -128 <= l && l <= 127
}

/// Drives rounds until one side wins: asks each port for an action, resolves,
/// reports the outcome to both sides (negated for side B), and repeats on
/// `Continue`. Returns the terminal outcome for side A.
///
/// The engine imposes no round limit of its own; `max_rounds` is the caller's
/// budget, and `None` says no side had won when it ran out — a match of
/// nothing but stalemates is accepted behavior, so a caller that wants an
/// unbounded match simply passes a budget it cannot exhaust. `None` is also
/// returned, with the vectors untouched, if a token balance would leave the
/// representable range, a fatal engine limit never reached from the initial
/// balances under ordinary play lengths.
pub fn run_match<PA: Play, PB: Play>(player_a: &PA, player_b: &PB, max_rounds: u64) -> (r: Option<
    RoundOutcome,
>)
    ensures
        r matches Some(o) ==> o != RoundOutcome::Continue,
        max_rounds == 0 ==> r is None,
{
    let mut m = MatchState::new();
    let mut rounds_left: u64 = max_rounds;
    while rounds_left > 0
        invariant
            m.wf(),
            rounds_left <= max_rounds,
        decreases rounds_left,
    {
        rounds_left = rounds_left - 1;
        let action_a = player_a.get_action(m.state_a, m.state_b);
        let action_b = player_b.get_action(m.state_b, m.state_a);
        if !cost_fits(&m.state_a, &action_a.get_cost()) || !cost_fits(
            &m.state_b,
            &action_b.get_cost(),
        ) {
            return None;
        }
        let outcome = m.play_round(action_a, action_b);
        player_a.notify_round_result(m.state_a, m.state_b, action_b, outcome);
        player_b.notify_round_result(m.state_b, m.state_a, action_a, outcome.neg());
        if outcome != RoundOutcome::Continue {
            return Some(outcome);
        }
    }
    None
}

} // verus!
