//! The scripted bot: a player port that draws uniformly at random among the
//! moves it can currently afford.

use vstd::prelude::*;

use crate::action::{cost_spec, depletes, vec_wf, Action, Resource};
use crate::game::{Play, RoundOutcome};

verus! {

/// Relies on `rand::Rng::gen_range` over `rand::thread_rng`: returns a value
/// drawn from `0..n`. It panics only on an empty range, which the
/// precondition excludes.
#[verifier::external_body]
fn random_below(n: usize) -> (r: usize)
    requires
        n > 0,
    ensures
        r < n,
{
    rand::Rng::gen_range(&mut rand::thread_rng(), 0..n)
}

/// The attacks a side holding `n` registration tokens can afford: one per
/// level from 1 up to `n`.
pub open spec fn attack_options(n: int) -> Seq<Action> {
    Seq::new(if n >= 0 { n as nat } else { 0 }, |i: int| Action::Attack((i + 1) as u8))
}

/// The defenses worth considering against a side holding `n` registration
/// tokens: one per level the opponent could attack with.
pub open spec fn defend_options(n: int) -> Seq<Action> {
    Seq::new(if n >= 0 { n as nat } else { 0 }, |i: int| Action::Defend((i + 1) as u8))
}

/// The moves the bot considers: registering is always sensible; attacks and
/// defenses up to what the balances support; full defense only against an
/// opponent who could out-level a plain defense, reflect only against an
/// opponent who can attack at all — each only when its token is in stock.
pub open spec fn sensible_actions_spec(s: Seq<int>, o: Seq<int>) -> Seq<Action> {
    seq![Action::Guahao] + attack_options(s[0]) + defend_options(o[0]) + (if o[0] > 1 && s[1] > 0 {
        seq![Action::Quanfang]
    } else {
        Seq::empty()
    }) + (if o[0] > 0 && s[2] > 0 {
        seq![Action::Fantan]
    } else {
        Seq::empty()
    })
}

/// A scripted player: no blocking, no presentation, a uniformly random pick
/// among its sensible moves.
pub struct BotPlayer;

impl BotPlayer {
    /// Lists the moves the bot would consider in this position. Every listed
    /// move is well-formed and affordable: applying its cost to `state`
    /// cannot deplete.
    pub fn list_sensible_actions(&self, state: Resource, other_state: Resource) -> (acts: Vec<
        Action,
    >)
        requires
            vec_wf(state@),
            vec_wf(other_state@),
        ensures
            acts@ == sensible_actions_spec(state@, other_state@),
            forall|i: int|
                0 <= i < acts@.len() ==> (#[trigger] acts@[i]).wf() && !depletes(
                    state@,
                    cost_spec(acts@[i]),
                ),
    {
        let mut acts: Vec<Action> = Vec::new();
        acts.push(Action::Guahao);

        let mut a: i16 = 1;
        while a <= state.registration as i16
            invariant
                vec_wf(state@),
                1 <= a <= state.registration as i16 + 1,
                acts@ == seq![Action::Guahao] + attack_options(a - 1),
                forall|i: int|
                    0 <= i < acts@.len() ==> (#[trigger] acts@[i]).wf() && !depletes(
                        state@,
                        cost_spec(acts@[i]),
                    ),
            decreases state.registration as i16 + 1 - a,
        {
            acts.push(Action::Attack(a as u8));
            proof {
                assert(attack_options(a as int) =~= attack_options(a - 1).push(
                    Action::Attack(a as u8),
                ));
                assert(acts@ =~= seq![Action::Guahao] + attack_options(a as int));
            }
            a = a + 1;
        }
        proof {
            assert(acts@ =~= seq![Action::Guahao] + attack_options(state@[0]));
        }

        let mut d: i16 = 1;
        while d <= other_state.registration as i16
            invariant
                vec_wf(state@),
                1 <= d <= other_state.registration as i16 + 1,
                acts@ == seq![Action::Guahao] + attack_options(state@[0]) + defend_options(d - 1),
                forall|i: int|
                    0 <= i < acts@.len() ==> (#[trigger] acts@[i]).wf() && !depletes(
                        state@,
                        cost_spec(acts@[i]),
                    ),
            decreases other_state.registration as i16 + 1 - d,
        {
            acts.push(Action::Defend(d as u8));
            proof {
                assert(defend_options(d as int) =~= defend_options(d - 1).push(
                    Action::Defend(d as u8),
                ));
                assert(acts@ =~= seq![Action::Guahao] + attack_options(state@[0]) + defend_options(
                    d as int,
                ));
            }
            d = d + 1;
        }
        proof {
            assert(acts@ =~= seq![Action::Guahao] + attack_options(state@[0]) + defend_options(
                other_state@[0],
            ));
        }

        if other_state.registration > 1 && state.full_defense > 0 {
            acts.push(Action::Quanfang);
        }
        if other_state.registration > 0 && state.reflect > 0 {
            acts.push(Action::Fantan);
        }
        proof {
            assert(acts@ =~= sensible_actions_spec(state@, other_state@));
        }
        acts
    }

    /// Picks one sensible move uniformly at random. Restricted to affordable
    /// moves, the bot never selects an action whose cost would deplete its
    /// own vector.
    pub fn pick_action(&self, state: Resource, other_state: Resource) -> (a: Action)
        requires
            vec_wf(state@),
            vec_wf(other_state@),
        ensures
            a.wf(),
            !depletes(state@, cost_spec(a)),
            sensible_actions_spec(state@, other_state@).contains(a),
    {
        let acts = self.list_sensible_actions(state, other_state);
        let choice = random_below(acts.len());
        let a = acts[choice];
        proof {
            assert(sensible_actions_spec(state@, other_state@).contains(a)) by {
                assert(sensible_actions_spec(state@, other_state@)[choice as int] == a);
            }
        }
        a
    }
}

impl Play for BotPlayer {
    fn get_action(&self, state: Resource, other_state: Resource) -> (a: Action)
        ensures
            !depletes(state@, cost_spec(a)),
            sensible_actions_spec(state@, other_state@).contains(a),
    {
        self.pick_action(state, other_state)
    }

    fn notify_round_result(
        &self,
        state: Resource,
        other_state: Resource,
        other_action: Action,
        outcome: RoundOutcome,
    ) {
    }
}

} // verus!
