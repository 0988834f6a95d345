//! Replaying genomes through the simulator and scoring them.
//!
//! A genome is a sequence of small indices into the crafter's action list,
//! with zero ending the sequence. Replaying a genome is a pure function of
//! the synth and the genome: every function here is specified exactly by its
//! `spec_` twin, so two replays of the same genome give the same state.

use vstd::prelude::*;
use crate::actions::Action;
use crate::xiv_model::{
    Condition, SimulationCondition, State, Synth, Violations, GAIN_LIMIT, GENOME_LIMIT,
    WASTE_STEP_LIMIT,
};

verus! {

/// A genome: indices into the crafter's action list, each between one and
/// the list's length; zero ends the sequence.
pub type CrafterActions = Vec<usize>;

/// The actions a genome encodes: entries are taken until the first zero, and
/// an index beyond the crafter's action list is skipped.
pub open spec fn spec_actions_list(genome: Seq<usize>, actions: Seq<Action>) -> Seq<Action>
    decreases genome.len(),
{
    if genome.len() == 0 {
        Seq::empty()
    } else {
        let m = genome[0];
        if m == 0 {
            Seq::empty()
        } else if m - 1 < actions.len() {
            seq![actions[m - 1]] + spec_actions_list(genome.drop_first(), actions)
        } else {
            spec_actions_list(genome.drop_first(), actions)
        }
    }
}

/// The state a replay started from `state` reaches: entries are simulated
/// until the first zero; a completed craft or exhausted durability yields
/// that state, and exhausted crafting points yield the state before the
/// exhausting action.
pub open spec fn spec_final_state_from(state: State, synth: Synth, genome: Seq<usize>) -> State
    decreases genome.len(),
{
    if genome.len() == 0 {
        state
    } else {
        let m = genome[0];
        if m == 0 {
            state
        } else if m - 1 < synth.crafter.actions.len() {
            let tmp = state.spec_add_action(synth, synth.crafter.actions[m - 1]);
            if tmp.progress_state >= synth.recipe.difficulty as i64 {
                tmp
            } else if tmp.durability_state <= 0 {
                tmp
            } else if tmp.cp_state <= 0 {
                state
            } else {
                spec_final_state_from(tmp, synth, genome.drop_first())
            }
        } else {
            spec_final_state_from(state, synth, genome.drop_first())
        }
    }
}

/// The state a genome's replay reaches from the synth's starting state.
pub open spec fn spec_final_state(synth: Synth, genome: Seq<usize>) -> State {
    spec_final_state_from(State::spec_from_synth(synth), synth, genome)
}

/// All actions a genome encodes, up to the first zero entry.
pub fn get_actions_list(genome: &CrafterActions, synth: &Synth) -> (r: Vec<Action>)
    ensures
        r@ == spec_actions_list(genome@, synth.crafter.actions@),
{
    let ghost g = genome@;
    let ghost actions = synth.crafter.actions@;
    let mut result: Vec<Action> = Vec::new();
    let n = genome.len();
    let mut i: usize = 0;
    proof {
        assert(g.skip(0) =~= g);
        assert(result@ + spec_actions_list(g, actions) =~= spec_actions_list(g, actions));
    }
    while i < n
        invariant
            0 <= i <= n,
            n == g.len(),
            g == genome@,
            actions == synth.crafter.actions@,
            result@ + spec_actions_list(g.skip(i as int), actions)
                == spec_actions_list(g, actions),
        decreases n - i,
    {
        let m = genome[i];
        proof {
            assert(g.skip(i as int)[0] == g[i as int]);
            assert(g.skip(i as int).drop_first() =~= g.skip(i as int + 1));
        }
        if m == 0 {
            proof {
                assert(result@ + spec_actions_list(g.skip(i as int), actions) =~= result@);
            }
            return result;
        }
        if m - 1 < synth.crafter.actions.len() {
            let action = synth.crafter.actions[m - 1];
            result.push(action);
        }
        i = i + 1;
    }
    proof {
        assert(result@ + spec_actions_list(g.skip(n as int), actions) =~= result@);
    }
    result
}

/// Replay a genome from the synth's starting state, stopping at the first
/// zero entry or as soon as the craft is complete or failed.
pub fn calculate_final_state(genome: &CrafterActions, synth: &Synth) -> (r: State)
    requires
        synth.wf(),
        genome@.len() <= GENOME_LIMIT,
    ensures
        r == spec_final_state(*synth, genome@),
        r.inv(*synth),
        -20 <= r.durability_state <= synth.recipe.durability,
        -1_000 <= r.cp_state <= synth.crafter.craft_points,
        0 <= r.progress_state <= synth.recipe.difficulty + GAIN_LIMIT,
        0 <= r.quality_state <= synth.recipe.start_quality + synth.recipe.max_quality
            + genome@.len() * GAIN_LIMIT,
        -5 * genome@.len() <= r.wasted_actions <= genome@.len() * WASTE_STEP_LIMIT,
        0 <= r.trick_uses <= genome@.len(),
        0 <= r.reliability <= 1,
        r.step <= genome@.len(),
        r.last_step <= genome@.len(),
{
    let ghost g = genome@;
    let mut state = State::from_synth(synth);
    let condition = SimulationCondition::new_sim_condition();
    let n = genome.len();
    let mut i: usize = 0;
    proof {
        assert(g.skip(0) =~= g);
    }
    while i < n
        invariant
            0 <= i <= n,
            n == g.len(),
            g == genome@,
            g.len() <= GENOME_LIMIT,
            synth.wf(),
            condition.ignore_condition,
            state.inv(*synth),
            spec_final_state(*synth, g)
                == spec_final_state_from(state, *synth, g.skip(i as int)),
            state.step <= i,
            state.last_step <= i,
            state.progress_state < synth.recipe.difficulty,
            0 <= state.durability_state <= synth.recipe.durability,
            0 <= state.cp_state <= synth.crafter.craft_points,
            state.step == 0 ==> state.quality_state == synth.recipe.start_quality,
            0 <= state.quality_state <= synth.recipe.start_quality
                + synth.recipe.max_quality + i * GAIN_LIMIT,
            -5 * i <= state.wasted_actions <= i * WASTE_STEP_LIMIT,
            0 <= state.trick_uses <= i,
            0 <= state.reliability <= 1,
        decreases n - i,
    {
        let m = genome[i];
        proof {
            assert(g.skip(i as int)[0] == g[i as int]);
            assert(g.skip(i as int).drop_first() =~= g.skip(i as int + 1));
        }
        if m == 0 {
            return state;
        }
        if m - 1 < synth.crafter.actions.len() {
            let action = synth.crafter.actions[m - 1];
            let tmp = state.add_action(synth, action, &condition);
            if tmp.progress_state >= synth.recipe.difficulty as i64 {
                return tmp;
            }
            if tmp.durability_state <= 0 {
                return tmp;
            }
            if tmp.cp_state <= 0 {
                return state;
            }
            state = tmp;
        }
        i = i + 1;
    }
    state
}

/// The final state and the actions actually simulated: the encoded actions
/// cut to the number of steps the replay performed.
pub open spec fn spec_final_actions_list(synth: Synth, genome: Seq<usize>)
    -> (State, Seq<Action>) {
    let state = spec_final_state(synth, genome);
    let actions = spec_actions_list(genome, synth.crafter.actions@);
    let cut = State::spec_min(state.step as int, actions.len() as int);
    (state, actions.take(cut))
}

/// Replay a genome and return the final state with the actions that were
/// simulated before the replay stopped.
pub fn get_final_actions_list(genome: &CrafterActions, synth: &Synth)
    -> (r: (State, Vec<Action>))
    requires
        synth.wf(),
        genome@.len() <= GENOME_LIMIT,
    ensures
        r.0 == spec_final_actions_list(*synth, genome@).0,
        r.1@ == spec_final_actions_list(*synth, genome@).1,
        r.0 == spec_final_state(*synth, genome@),
{
    let mut actions = get_actions_list(genome, synth);
    let state = calculate_final_state(genome, synth);
    let cut = if (state.step as usize) < actions.len() {
        state.step as usize
    } else {
        actions.len()
    };
    actions.truncate(cut);
    (state, actions)
}

/// The sum of a sequence of fitness values.
pub open spec fn spec_sum(s: Seq<i64>) -> int
    decreases s.len(),
{
    if s.len() == 0 {
        0
    } else {
        spec_sum(s.drop_last()) + s.last()
    }
}

/// Division truncated toward zero, as the fitness average uses.
pub open spec fn spec_trunc_div(a: int, b: int) -> int {
    if a >= 0 {
        a / b
    } else {
        -((-a) / b)
    }
}

impl Synth {
    /// The fitness of a replayed genome: the capped quality (or, when
    /// solving for completion, the weighted crafting-point and durability
    /// remainders) minus the weighted penalties; a finished craft that beats
    /// the quality target with its safety margin earns a speed bonus of
    /// `4 / step`.
    pub open spec fn spec_fitness_of(self, genome: Seq<usize>) -> int {
        let state = spec_final_state(self, genome);
        let violations = state.spec_check_violations(self);
        let penalties = state.spec_penalties(self, 10_000);
        let base = if self.solver_vars.solve_for_completion {
            state.cp_state * self.solver_vars.remainder_cp_fitness_value
                + state.durability_state * self.solver_vars.remainder_dur_fitness_value
        } else {
            State::spec_min(state.quality_state as int, self.recipe.max_quality as int)
        };
        let fitness = base - penalties;
        if violations.progress_ok && state.step > 0
            && state.quality_state * 100
                >= self.recipe.max_quality * (100 + self.recipe.safety_margin) {
            (fitness * (state.step + 4)) / (state.step as int)
        } else {
            fitness
        }
    }

    pub fn fitness_of(&self, actions: &CrafterActions) -> (r: i64)
        requires
            self.wf(),
            actions@.len() <= GENOME_LIMIT,
        ensures
            r == self.spec_fitness_of(actions@),
    {
        let state = calculate_final_state(actions, self);
        let violations = state.check_violations(self);
        let penalties = state.calculate_penalties(self, 10_000);
        proof {
            crate::xiv_model::lemma_penalties_bound(state, *self, 10_000);
        }
        let mut fitness: i64;
        if self.solver_vars.solve_for_completion {
            proof {
                assert({
                    &&& -10_000_000_000 <= state.cp_state
                        * self.solver_vars.remainder_cp_fitness_value <= 10_000_000_000
                    &&& -430_000_000_000_000
                        <= state.durability_state
                            * self.solver_vars.remainder_dur_fitness_value
                        <= 430_000_000_000_000
                }) by (nonlinear_arith)
                    requires -1_000 <= state.cp_state <= 100_000
                        && -20 <= state.durability_state <= 4_294_967_295
                        && -100_000 <= self.solver_vars.remainder_cp_fitness_value <= 100_000
                        && -100_000 <= self.solver_vars.remainder_dur_fitness_value
                            <= 100_000;
            }
            fitness = state.cp_state * self.solver_vars.remainder_cp_fitness_value
                + state.durability_state * self.solver_vars.remainder_dur_fitness_value;
        } else {
            fitness = if state.quality_state <= self.recipe.max_quality as i64 {
                state.quality_state
            } else {
                self.recipe.max_quality as i64
            };
        }
        fitness = fitness - penalties;
        // A finished craft beating the quality target with margin earns the
        // speed bonus.
        if violations.progress_ok && state.step > 0
            && on_target(state.quality_state, self.recipe.max_quality,
                self.recipe.safety_margin) {
            proof {
                assert(-4_300_000_000_000_000_000
                    <= fitness * (state.step as i64 + 4)
                    <= 4_300_000_000_000_000_000) by (nonlinear_arith)
                    requires -850_000_000_000_000 <= fitness <= 850_000_000_000_000
                        && 0 < state.step <= 5_000;
            }
            let num = fitness * (state.step as i64 + 4);
            fitness = div_floor(num, state.step as i64);
        }
        fitness
    }

    /// The average of a set of fitness values, truncated toward zero.
    pub fn average(&self, a: &[i64]) -> (r: i64)
        requires
            1 <= a@.len() <= 1_000_000_000,
        ensures
            r == spec_trunc_div(spec_sum(a@), a@.len() as int),
    {
        let ghost s = a@;
        let n = a.len();
        let mut sum: i128 = 0;
        let mut i: usize = 0;
        while i < n
            invariant
                0 <= i <= n,
                n == s.len(),
                s == a@,
                n <= 1_000_000_000,
                sum == spec_sum(s.take(i as int)),
                i as int * (i64::MIN as int) <= sum <= i as int * (i64::MAX as int),
            decreases n - i,
        {
            proof {
                assert(s.take(i as int + 1).drop_last() =~= s.take(i as int));
                assert(s.take(i as int + 1).last() == s[i as int]);
                lemma_sum_bound(s.take(i as int + 1));
            }
            sum = sum + a[i] as i128;
            i = i + 1;
        }
        proof {
            assert(s.take(n as int) =~= s);
        }
        if sum >= 0 {
            let q = sum / (n as i128);
            proof {
                vstd::arithmetic::div_mod::lemma_div_pos_is_pos(sum as int, n as int);
                vstd::arithmetic::div_mod::lemma_div_is_ordered(
                    sum as int, n as int * i64::MAX as int, n as int);
                vstd::arithmetic::div_mod::lemma_div_multiples_vanish(
                    i64::MAX as int, n as int);
            }
            q as i64
        } else {
            let q = (-sum) / (n as i128);
            proof {
                vstd::arithmetic::div_mod::lemma_div_pos_is_pos((-sum) as int, n as int);
                vstd::arithmetic::div_mod::lemma_div_is_ordered(
                    (-sum) as int, n as int * (9_223_372_036_854_775_808), n as int);
                vstd::arithmetic::div_mod::lemma_div_multiples_vanish(
                    9_223_372_036_854_775_808, n as int);
            }
            (-q) as i64
        }
    }

    /// An upper bound the search can compare against: completing the craft
    /// plus five times the quality target.
    pub fn highest_possible_fitness(&self) -> (r: i64)
        ensures
            r == self.recipe.difficulty + self.recipe.max_quality * 5,
    {
        self.recipe.difficulty as i64 + self.recipe.max_quality as i64 * 5
    }

    pub fn lowest_possible_fitness(&self) -> (r: i64)
        ensures
            r == i64::MIN,
    {
        i64::MIN
    }
}

/// The sum of a sequence of fitness values is at most the length times the
/// largest representable value, and likewise below.
proof fn lemma_sum_bound(s: Seq<i64>)
    ensures
        s.len() * (i64::MIN as int) <= spec_sum(s) <= s.len() * (i64::MAX as int),
    decreases s.len(),
{
    if s.len() > 0 {
        lemma_sum_bound(s.drop_last());
        assert(s.len() * (i64::MIN as int)
            == (s.len() - 1) * (i64::MIN as int) + i64::MIN) by (nonlinear_arith);
        assert(s.len() * (i64::MAX as int)
            == (s.len() - 1) * (i64::MAX as int) + i64::MAX) by (nonlinear_arith);
    }
}

/// True when the quality beats the quality target scaled by the safety
/// margin percentage.
fn on_target(quality: i64, max_quality: u32, safety_margin: u32) -> (r: bool)
    requires
        0 <= quality <= 100_000_000_000_000,
        safety_margin <= 1_000,
    ensures
        r == (quality * 100 >= max_quality * (100 + safety_margin)),
{
    proof {
        assert(0 <= max_quality as i64 * (100 + safety_margin as i64)
            <= 5_000_000_000_000) by (nonlinear_arith)
            requires max_quality <= 4_294_967_295 && safety_margin <= 1_000;
    }
    quality * 100 >= max_quality as i64 * (100 + safety_margin as i64)
}

/// Floor division by a positive divisor, for a dividend of either sign.
fn div_floor(n: i64, d: i64) -> (q: i64)
    requires
        1 <= d,
        -4_611_686_018_427_387_903 <= n <= 4_611_686_018_427_387_903,
    ensures
        q == n as int / d as int,
{
    if n >= 0 {
        n / d
    } else {
        let a = -n;
        let p = a / d;
        let m = a % d;
        proof {
            vstd::arithmetic::div_mod::lemma_fundamental_div_mod(a as int, d as int);
            vstd::arithmetic::div_mod::lemma_fundamental_div_mod(n as int, d as int);
            vstd::arithmetic::div_mod::lemma_mod_division_less_than_divisor(
                a as int, d as int);
            vstd::arithmetic::div_mod::lemma_mod_division_less_than_divisor(
                n as int, d as int);
            vstd::arithmetic::div_mod::lemma_div_pos_is_pos(a as int, d as int);
            vstd::arithmetic::div_mod::lemma_div_nonincreasing(a as int, d as int);
            assert(n as int / d as int
                == if m == 0 { -(p as int) } else { -(p as int) - 1 }) by (nonlinear_arith)
                requires
                    d >= 1,
                    n as int == -(a as int),
                    a as int == d * ((a as int) / (d as int)) + (a as int) % (d as int),
                    n as int == d * ((n as int) / (d as int)) + (n as int) % (d as int),
                    0 <= (a as int) % (d as int) && (a as int) % (d as int) < d,
                    0 <= (n as int) % (d as int) && (n as int) % (d as int) < d,
                    p == a as int / d as int,
                    m == a as int % d as int;
        }
        if m == 0 {
            -p
        } else {
            -p - 1
        }
    }
}

/// Compact snapshot of a state, as each generation reports it.
#[derive(Clone, Debug, PartialEq)]
pub struct StatusState {
    pub quality: i64,
    pub durability: i64,
    pub cp: i64,
    pub progress: i64,
    /// Placeholder until a high-quality formula is wired in; always zero.
    pub hq_percent: u32,
    pub feasible: bool,
    pub violations: Violations,
    pub condition: Condition,
    pub bonus_max_cp: i64,
}

impl StatusState {
    /// The snapshot a state yields: its resources, its violations, and
    /// whether it is feasible (all constraints met and the craft complete).
    pub open spec fn spec_from_state(state: State, synth: Synth) -> StatusState {
        let violations = state.spec_check_violations(synth);
        StatusState {
            quality: state.quality_state,
            durability: state.durability_state,
            cp: state.cp_state,
            progress: state.progress_state,
            hq_percent: 0,
            feasible: violations.spec_is_okay() && violations.progress_ok,
            violations,
            condition: state.condition,
            bonus_max_cp: state.bonus_max_cp,
        }
    }

    pub fn from_state(state: &State, synth: &Synth) -> (r: StatusState)
        ensures
            r == StatusState::spec_from_state(*state, *synth),
    {
        let violations = state.check_violations(synth);
        let feasible = violations.is_okay() && violations.progress_ok;
        StatusState {
            quality: state.quality_state,
            durability: state.durability_state,
            cp: state.cp_state,
            progress: state.progress_state,
            hq_percent: 0,
            feasible,
            violations,
            condition: state.condition,
            bonus_max_cp: state.bonus_max_cp,
        }
    }
}

/// One step of the search driver: a finished search with its best sequence,
/// an intermediate report, or an error.
#[derive(Clone, Debug, PartialEq)]
pub enum SimStep {
    Success {
        best_sequence: Vec<Action>,
        execution_log: String,
        elapsed_time: Option<i64>,
    },
    Progress {
        generations_completed: u32,
        max_generations: u32,
        best_sequence: Vec<Action>,
        state: StatusState,
    },
    Error(String),
}

/// Build the intermediate report of a generation: the best genome's
/// simulated actions and a snapshot of its final state.
pub fn progress_report(
    genome: &CrafterActions,
    synth: &Synth,
    generations_completed: u32,
    max_generations: u32,
) -> (r: SimStep)
    requires
        synth.wf(),
        genome@.len() <= GENOME_LIMIT,
    ensures
        r is Progress,
        r->Progress_generations_completed == generations_completed,
        r->Progress_max_generations == max_generations,
        r->Progress_best_sequence@ == spec_final_actions_list(*synth, genome@).1,
        r->Progress_state == StatusState::spec_from_state(
            spec_final_state(*synth, genome@), *synth),
{
    let (state, best_sequence) = get_final_actions_list(genome, synth);
    let status = StatusState::from_state(&state, synth);
    SimStep::Progress {
        generations_completed,
        max_generations,
        best_sequence,
        state: status,
    }
}

/// Build the final report of a search: the best genome's simulated actions,
/// the log the caller assembled, and the elapsed time.
pub fn success_report(
    genome: &CrafterActions,
    synth: &Synth,
    execution_log: String,
    elapsed_time: Option<i64>,
) -> (r: SimStep)
    requires
        synth.wf(),
        genome@.len() <= GENOME_LIMIT,
    ensures
        r is Success,
        r->Success_best_sequence@ == spec_final_actions_list(*synth, genome@).1,
        r->Success_execution_log == execution_log,
        r->Success_elapsed_time == elapsed_time,
{
    let (_state, best_sequence) = get_final_actions_list(genome, synth);
    SimStep::Success {
        best_sequence,
        execution_log,
        elapsed_time,
    }
}

/// Whether a replay started from `state` halts inside the genome: it meets
/// a zero entry, completes the craft, or exhausts durability or crafting
/// points.
pub open spec fn spec_replay_halts(state: State, synth: Synth, genome: Seq<usize>) -> bool
    decreases genome.len(),
{
    if genome.len() == 0 {
        false
    } else {
        let m = genome[0];
        if m == 0 {
            true
        } else if m - 1 < synth.crafter.actions.len() {
            let tmp = state.spec_add_action(synth, synth.crafter.actions[m - 1]);
            if tmp.progress_state >= synth.recipe.difficulty as i64 {
                true
            } else if tmp.durability_state <= 0 {
                true
            } else if tmp.cp_state <= 0 {
                true
            } else {
                spec_replay_halts(tmp, synth, genome.drop_first())
            }
        } else {
            spec_replay_halts(state, synth, genome.drop_first())
        }
    }
}

/// A replay never looks past a zero entry: the final state of a genome is
/// the final state of its prefix up to the zero.
pub proof fn lemma_replay_stops_at_zero(
    state: State,
    synth: Synth,
    genome: Seq<usize>,
    k: int,
)
    requires
        0 <= k < genome.len(),
        genome[k] == 0,
    ensures
        spec_final_state_from(state, synth, genome)
            == spec_final_state_from(state, synth, genome.take(k)),
    decreases k,
{
    if k == 0 {
    } else {
        let m = genome[0];
        assert(genome.take(k)[0] == m);
        assert(genome.take(k).drop_first() =~= genome.drop_first().take(k - 1));
        assert(genome.drop_first()[k - 1] == genome[k]);
        if m == 0 {
        } else if m - 1 < synth.crafter.actions.len() {
            let tmp = state.spec_add_action(synth, synth.crafter.actions[m - 1]);
            if tmp.progress_state >= synth.recipe.difficulty as i64 {
            } else if tmp.durability_state <= 0 {
            } else if tmp.cp_state <= 0 {
            } else {
                lemma_replay_stops_at_zero(tmp, synth, genome.drop_first(), k - 1);
            }
        } else {
            lemma_replay_stops_at_zero(state, synth, genome.drop_first(), k - 1);
        }
    }
}

/// A replay never looks past the step where it halts: once a prefix of the
/// genome halts the replay, the entries after the prefix cannot change the
/// final state.
pub proof fn lemma_replay_ignores_after_halt(
    state: State,
    synth: Synth,
    genome: Seq<usize>,
    k: int,
)
    requires
        0 <= k <= genome.len(),
        spec_replay_halts(state, synth, genome.take(k)),
    ensures
        spec_final_state_from(state, synth, genome)
            == spec_final_state_from(state, synth, genome.take(k)),
    decreases k,
{
    assert(k > 0);
    let m = genome[0];
    assert(genome.take(k)[0] == m);
    assert(genome.take(k).drop_first() =~= genome.drop_first().take(k - 1));
    if m == 0 {
    } else if m - 1 < synth.crafter.actions.len() {
        let tmp = state.spec_add_action(synth, synth.crafter.actions[m - 1]);
        if tmp.progress_state >= synth.recipe.difficulty as i64 {
        } else if tmp.durability_state <= 0 {
        } else if tmp.cp_state <= 0 {
        } else {
            lemma_replay_ignores_after_halt(tmp, synth, genome.drop_first(), k - 1);
        }
    } else {
        lemma_replay_ignores_after_halt(state, synth, genome.drop_first(), k - 1);
    }
}

/// The fitness of a genome does not depend on entries after the first zero.
pub proof fn lemma_fitness_ignores_after_zero(synth: Synth, genome: Seq<usize>, k: int)
    requires
        0 <= k < genome.len(),
        genome[k] == 0,
    ensures
        synth.spec_fitness_of(genome) == synth.spec_fitness_of(genome.take(k)),
{
    lemma_replay_stops_at_zero(State::spec_from_synth(synth), synth, genome, k);
}

/// The fitness of a genome does not depend on entries after the step where
/// its replay halts.
pub proof fn lemma_fitness_ignores_after_halt(synth: Synth, genome: Seq<usize>, k: int)
    requires
        0 <= k <= genome.len(),
        spec_replay_halts(State::spec_from_synth(synth), synth, genome.take(k)),
    ensures
        synth.spec_fitness_of(genome) == synth.spec_fitness_of(genome.take(k)),
{
    lemma_replay_ignores_after_halt(State::spec_from_synth(synth), synth, genome, k);
}

/// Convert an intermediate report into a final one, as pausing the search
/// does: the best sequence is kept, with an empty log and no elapsed time;
/// any other report passes through unchanged.
pub fn pause_step(step: SimStep) -> (r: SimStep)
    ensures
        step is Progress ==> {
            &&& r is Success
            &&& r->Success_best_sequence == step->Progress_best_sequence
            &&& r->Success_execution_log@ == Seq::<char>::empty()
            &&& r->Success_elapsed_time is None
        },
        !(step is Progress) ==> r == step,
{
    match step {
        SimStep::Progress { best_sequence, .. } => SimStep::Success {
            best_sequence,
            execution_log: String::new(),
            elapsed_time: None,
        },
        other => other,
    }
}

} // verus!
