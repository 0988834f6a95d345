//! The crafting data model and the deterministic state-transition simulator.
//!
//! A [`Synth`] bundles the crafter, the recipe and the solver parameters; a
//! [`State`] is the per-step record of a simulated craft. [`State::add_action`]
//! is the pure transition function: it applies one action, with all buff,
//! combo and stack effects, and returns the next state. Every transition is
//! specified exactly by the `spec_` twin functions, so a replay of a genome is
//! a mathematical function of the synth and the genome alone.
//!
//! All arithmetic is exact integer arithmetic with floor semantics. Rates use
//! fixed units: success probabilities are percentages, gain multipliers are in
//! hundredths, and `wasted_actions` counts hundredths of a wasted action.

use vstd::prelude::*;
use vstd::arithmetic::div_mod::{
    lemma_div_is_ordered, lemma_div_is_ordered_by_denominator, lemma_div_multiples_vanish,
    lemma_div_nonincreasing, lemma_div_of0, lemma_div_pos_is_pos,
};
use crate::actions::{Action, ActionType};
use crate::effect_tracker::EffectData;
use crate::level_table::{level_table_lookup, spec_level_table_lookup};

verus! {

/// Largest crafter stat (craftsmanship, control, crafting points) the model
/// admits; keeps every intermediate product far from overflow.
pub const STAT_LIMIT: u32 = 100_000;

/// Largest recipe divider the model admits.
pub const DIVIDER_LIMIT: u32 = 10_000;

/// Largest progress or quality modifier percentage the model admits.
pub const MODIFIER_LIMIT: u32 = 1_000;

/// Bound on the running numeric fields of a state under which one more step
/// cannot overflow.
pub const FIELD_LIMIT: i64 = 1_000_000_000_000_000;

/// Bound on the step counters.
pub const STEP_LIMIT: u32 = 1_000_000_000;

/// Largest single-step increase of the quality or progress accumulators
/// computed from multipliers; a first-step Trained Eye may add the recipe's
/// maximum quality on top.
pub const GAIN_LIMIT: i64 = 1_000_000_000;

/// Bound on the running numeric fields of any state produced by replaying a
/// genome of at most [`GENOME_LIMIT`] entries.
pub const RUN_LIMIT: i64 = 10_000_000_000_000;

/// Longest genome the replay functions accept; long enough for any craft and
/// small enough that no accumulator can overflow.
pub const GENOME_LIMIT: usize = 5_000;

/// Largest single-step increase of the wasted-action accumulator, in
/// hundredths.
pub const WASTE_STEP_LIMIT: i64 = 30_000;

/// The crafter: stats and the ordered list of actions available to them.
#[derive(Clone, Debug)]
pub struct Crafter {
    pub craftsmanship: u32,
    pub control: u32,
    pub craft_points: u32,
    pub level: u32,
    pub specialist: bool,
    pub actions: Vec<Action>,
}

impl Crafter {
    /// Stats within the machine limits of the integer model.
    pub open spec fn wf(self) -> bool {
        &&& self.craftsmanship <= STAT_LIMIT
        &&& self.control <= STAT_LIMIT
        &&& self.craft_points <= STAT_LIMIT
        &&& self.level <= 1_000
    }
}

/// The recipe being crafted.
#[derive(Clone, Debug)]
pub struct Recipe {
    pub base_level: u32,
    pub level: u32,
    pub difficulty: u32,
    pub durability: u32,
    pub safety_margin: u32,
    pub start_quality: u32,
    pub max_quality: u32,
    pub suggested_craftsmanship: u32,
    pub suggested_control: u32,
    pub progress_divider: u32,
    pub progress_modifier: Option<u32>,
    pub quality_divider: u32,
    pub quality_modifier: Option<u32>,
    pub stars: Option<u32>,
}

impl Recipe {
    /// Recipe numbers within the machine limits of the integer model. The
    /// dividers must be positive, and a difficulty of zero would make every
    /// state complete before the first action.
    pub open spec fn wf(self) -> bool {
        &&& 1 <= self.difficulty
        &&& 1 <= self.progress_divider <= DIVIDER_LIMIT
        &&& 1 <= self.quality_divider <= DIVIDER_LIMIT
        &&& (self.progress_modifier matches Some(m) ==> 1 <= m <= MODIFIER_LIMIT)
        &&& (self.quality_modifier matches Some(m) ==> 1 <= m <= MODIFIER_LIMIT)
        &&& self.safety_margin <= 1_000
    }
}

/// Parameters of the genetic search.
#[derive(Clone, Debug)]
pub struct SolverVars {
    pub solve_for_completion: bool,
    pub remainder_cp_fitness_value: i64,
    pub remainder_dur_fitness_value: i64,
    pub max_stagnation_counter: i64,
    pub population: i64,
    pub generations: i64,
}

impl Default for SolverVars {
    fn default() -> (r: Self)
        ensures
            r == (SolverVars {
                solve_for_completion: false,
                remainder_cp_fitness_value: 0,
                remainder_dur_fitness_value: 0,
                max_stagnation_counter: 0,
                population: 0,
                generations: 0,
            }),
    {
        SolverVars {
            solve_for_completion: false,
            remainder_cp_fitness_value: 0,
            remainder_dur_fitness_value: 0,
            max_stagnation_counter: 0,
            population: 0,
            generations: 0,
        }
    }
}

/// Immutable description of one synthesis: crafter, recipe and solver
/// parameters.
#[derive(Clone, Debug)]
pub struct Synth {
    pub crafter: Crafter,
    pub recipe: Recipe,
    pub max_trick_uses: i64,
    pub reliability_percent: u32,
    pub max_length: u32,
    pub solver_vars: SolverVars,
}

impl Synth {
    /// The machine limits under which every simulator step is exact.
    pub open spec fn wf(self) -> bool {
        &&& self.crafter.wf()
        &&& self.recipe.wf()
        &&& 0 <= self.max_trick_uses <= 1_000_000_000
        &&& -100_000 <= self.solver_vars.remainder_cp_fitness_value <= 100_000
        &&& -100_000 <= self.solver_vars.remainder_dur_fitness_value <= 100_000
    }

    /// The configured modifier percentage, defaulting to 100.
    pub open spec fn spec_modifier(m: Option<u32>) -> int {
        match m {
            Some(v) => v as int,
            None => 100,
        }
    }

    /// Base progress added by a progress action before multipliers:
    /// `floor(craftsmanship * 10 / progress_divider + 2)`, scaled by the
    /// progress modifier percentage when the effective crafter level does not
    /// exceed the recipe level.
    pub open spec fn spec_base_progress_increase(
        self,
        eff_crafter_level: u32,
        craftsmanship: u32,
    ) -> int {
        let num = 10 * craftsmanship + 2 * self.recipe.progress_divider;
        if eff_crafter_level <= self.recipe.level {
            (num * Self::spec_modifier(self.recipe.progress_modifier))
                / (100 * self.recipe.progress_divider)
        } else {
            num as int / self.recipe.progress_divider as int
        }
    }

    /// Base quality added by a quality action before multipliers:
    /// `floor(control * 10 / quality_divider + 35)`, scaled by the quality
    /// modifier percentage when the effective crafter level does not exceed
    /// the recipe base level.
    pub open spec fn spec_base_quality_increase(
        self,
        eff_crafter_level: u32,
        control: u32,
    ) -> int {
        let num = 10 * control + 35 * self.recipe.quality_divider;
        if eff_crafter_level <= self.recipe.base_level {
            (num * Self::spec_modifier(self.recipe.quality_modifier))
                / (100 * self.recipe.quality_divider)
        } else {
            num as int / self.recipe.quality_divider as int
        }
    }

    pub fn calculate_base_progress_increase(
        &self,
        eff_crafter_level: u32,
        craftsmanship: u32,
    ) -> (r: i64)
        requires
            self.wf(),
            craftsmanship <= STAT_LIMIT,
        ensures
            r == self.spec_base_progress_increase(eff_crafter_level, craftsmanship),
            0 <= r <= 20_000_000,
    {
        let pd = self.recipe.progress_divider as i64;
        let num: i64 = 10 * (craftsmanship as i64) + 2 * pd;
        if eff_crafter_level <= self.recipe.level {
            let m: i64 = match self.recipe.progress_modifier {
                Some(v) => v as i64,
                None => 100,
            };
            proof {
                assert(num * m <= 1_020_000_000 && num * m >= 0) by (nonlinear_arith)
                    requires 0 <= num <= 1_020_000 && 1 <= m <= 1_000;
            }
            let prod = num * m;
            let r = prod / (100 * pd);
            proof {
                lemma_div_pos_is_pos(prod as int, 100 * (pd as int));
                lemma_div_is_ordered_by_denominator(prod as int, 100, 100 * (pd as int));
                lemma_div_is_ordered(prod as int, 1_020_000_000int, 100);
            }
            r
        } else {
            let r = num / pd;
            proof {
                lemma_div_nonincreasing(num as int, pd as int);
                lemma_div_pos_is_pos(num as int, pd as int);
            }
            r
        }
    }

    pub fn calculate_base_quality_increase(
        &self,
        eff_crafter_level: u32,
        control: u32,
    ) -> (r: i64)
        requires
            self.wf(),
            control <= STAT_LIMIT,
        ensures
            r == self.spec_base_quality_increase(eff_crafter_level, control),
            0 <= r <= 20_000_000,
    {
        let qd = self.recipe.quality_divider as i64;
        let num: i64 = 10 * (control as i64) + 35 * qd;
        if eff_crafter_level <= self.recipe.base_level {
            let m: i64 = match self.recipe.quality_modifier {
                Some(v) => v as i64,
                None => 100,
            };
            proof {
                assert(num * m <= 1_350_000_000 && num * m >= 0) by (nonlinear_arith)
                    requires 0 <= num <= 1_350_000 && 1 <= m <= 1_000;
            }
            let prod = num * m;
            let r = prod / (100 * qd);
            proof {
                lemma_div_pos_is_pos(prod as int, 100 * (qd as int));
                lemma_div_is_ordered_by_denominator(prod as int, 100, 100 * (qd as int));
                lemma_div_is_ordered(prod as int, 1_350_000_000int, 100);
            }
            r
        } else {
            let r = num / qd;
            proof {
                lemma_div_nonincreasing(num as int, qd as int);
                lemma_div_pos_is_pos(num as int, qd as int);
            }
            r
        }
    }

    /// Both base increases, as the genome builder estimates step counts.
    pub fn calculate_progress_and_quality_increase(&self) -> (r: (i64, i64))
        requires
            self.wf(),
        ensures
            r.0 == self.spec_base_progress_increase(
                spec_level_table_lookup(self.crafter.level), self.crafter.craftsmanship),
            r.1 == self.spec_base_quality_increase(
                spec_level_table_lookup(self.crafter.level), self.crafter.control),
            0 <= r.0 <= 20_000_000,
            0 <= r.1 <= 20_000_000,
    {
        let eff = self.get_effective_crafter_level();
        let p = self.calculate_base_progress_increase(eff, self.crafter.craftsmanship);
        let q = self.calculate_base_quality_increase(eff, self.crafter.control);
        (p, q)
    }

    /// Probability, in percent, that a step's condition turns Good, from the
    /// recipe level and whether the crafter has quality assurance (level 63
    /// or above).
    pub open spec fn spec_prob_good(self) -> int {
        let quality_assurance = self.crafter.level >= 63;
        if self.recipe.level >= 300 {
            if quality_assurance { 11 } else { 10 }
        } else if self.recipe.level >= 276 {
            if quality_assurance { 17 } else { 15 }
        } else if self.recipe.level >= 255 {
            if quality_assurance { 22 } else { 20 }
        } else if self.recipe.level >= 150 {
            if quality_assurance { 17 } else { 15 }
        } else {
            if quality_assurance { 27 } else { 25 }
        }
    }

    pub fn prob_good_for_synth(&self) -> (r: u32)
        ensures
            r == self.spec_prob_good(),
    {
        let recipe_level = self.recipe.level;
        let quality_assurance = self.crafter.level >= 63;
        if recipe_level >= 300 {
            if quality_assurance { 11 } else { 10 }
        } else if recipe_level >= 276 {
            if quality_assurance { 17 } else { 15 }
        } else if recipe_level >= 255 {
            if quality_assurance { 22 } else { 20 }
        } else if recipe_level >= 150 {
            if quality_assurance { 17 } else { 15 }
        } else {
            if quality_assurance { 27 } else { 25 }
        }
    }

    /// Probability, in percent, that a step's condition turns Excellent.
    pub open spec fn spec_prob_excellent(self) -> int {
        if self.recipe.level >= 300 { 1 }
        else if self.recipe.level >= 255 { 2 }
        else if self.recipe.level >= 150 { 1 }
        else { 2 }
    }

    pub fn prob_excellent_for_synth(&self) -> (r: u32)
        ensures
            r == self.spec_prob_excellent(),
    {
        let recipe_level = self.recipe.level;
        if recipe_level >= 300 { 1 }
        else if recipe_level >= 255 { 2 }
        else if recipe_level >= 150 { 1 }
        else { 2 }
    }

    pub fn get_effective_crafter_level(&self) -> (r: u32)
        ensures
            r == spec_level_table_lookup(self.crafter.level),
    {
        level_table_lookup(self.crafter.level)
    }
}

/// The material condition of a step. The deterministic simulator keeps it at
/// `Normal`.
#[derive(Copy, Clone, Debug, PartialEq, Eq, Structural)]
pub enum Condition {
    Poor,
    Normal,
    Good,
    Excellent,
}

impl Default for Condition {
    fn default() -> (r: Self)
        ensures
            r == Condition::Normal,
    {
        Condition::Normal
    }
}

impl Condition {
    pub fn check_good_or_excellent(&self) -> (r: bool)
        ensures
            r == (*self == Condition::Good || *self == Condition::Excellent),
    {
        match self {
            Condition::Good => true,
            Condition::Excellent => true,
            _ => false,
        }
    }
}

/// The two effect stores of a state: countdown buffs and count-up counters.
#[derive(Copy, Clone, Debug, PartialEq, Eq, Default)]
pub struct Effects {
    pub count_downs: EffectData,
    pub count_ups: EffectData,
}

/// Which constraints a final state satisfies.
#[derive(Copy, Clone, Debug, PartialEq, Eq, Structural)]
pub struct Violations {
    pub progress_ok: bool,
    pub cp_ok: bool,
    pub durability_ok: bool,
    pub trick_ok: bool,
    pub reliability_ok: bool,
}

impl Violations {
    pub open spec fn spec_is_okay(self) -> bool {
        self.durability_ok && self.cp_ok && self.reliability_ok && self.trick_ok
            && self.progress_ok
    }

    pub fn is_okay(&self) -> (r: bool)
        ensures
            r == self.spec_is_okay(),
    {
        self.durability_ok && self.cp_ok && self.reliability_ok && self.trick_ok
            && self.progress_ok
    }
}

/// Condition tracker of a simulation run. The simulator is deterministic: it
/// ignores the material condition, treats every conditional action as
/// triggered, and uses probability one for the Good-or-Excellent mass. The
/// analytical condition-probability recurrence works on real numbers and is
/// outside this model.
#[derive(Copy, Clone, Debug, PartialEq, Eq, Structural)]
pub struct SimulationCondition {
    pub ignore_condition: bool,
}

impl SimulationCondition {
    pub fn new_sim_condition() -> (r: SimulationCondition)
        ensures
            r.ignore_condition,
    {
        SimulationCondition { ignore_condition: true }
    }

    /// Whether the current condition counts as Good or Excellent; always true
    /// for the deterministic tracker.
    pub fn check_good_or_excellent(&self, _state: &State) -> (r: bool)
        ensures
            r,
    {
        true
    }

    /// The probability mass of Good or Excellent, in percent.
    pub fn p_good_or_excellent(&self) -> (r: i64)
        requires
            self.ignore_condition,
        ensures
            r == 100,
    {
        100
    }
}

/// The per-step record of a simulated craft.
///
/// `wasted_actions` is in hundredths; `success_probability`-derived values are
/// percentages. `iq_cnt`, `control`, `quality_gain`, `name_of_element_uses`
/// and `success` are bookkeeping slots that the deterministic transition
/// leaves at their initial values.
#[derive(Copy, Clone, Debug, PartialEq, Eq)]
pub struct State {
    pub step: u32,
    pub last_step: u32,
    /// Action leading to this state.
    pub action: Option<Action>,
    pub durability_state: i64,
    pub cp_state: i64,
    pub bonus_max_cp: i64,
    pub quality_state: i64,
    pub progress_state: i64,
    /// Accumulated penalty for wasted actions, in hundredths.
    pub wasted_actions: i64,
    pub trick_uses: i64,
    pub name_of_element_uses: i64,
    pub reliability: i64,
    pub effects: Effects,
    pub condition: Condition,
    /// 1 exactly when the previous action opened the touch combo.
    pub touch_combo_step: i64,
    pub iq_cnt: i64,
    pub control: i64,
    pub quality_gain: i64,
    pub base_progress_gain: i64,
    pub base_quality_gain: i64,
    pub success: bool,
}

impl State {
    /// The starting state of a synthesis: full durability and crafting
    /// points, the start quality, and an inner-quiet counter primed at -1 so
    /// the first stack raises it to zero.
    pub open spec fn spec_from_synth(synth: Synth) -> State {
        State {
            step: 0,
            last_step: 0,
            action: None,
            durability_state: synth.recipe.durability as i64,
            cp_state: synth.crafter.craft_points as i64,
            bonus_max_cp: 0,
            quality_state: synth.recipe.start_quality as i64,
            progress_state: 0,
            wasted_actions: 0,
            trick_uses: 0,
            name_of_element_uses: 0,
            reliability: 1,
            effects: Effects {
                count_downs: EffectData {
                    s0: None, s1: None, s2: None, s3: None, s4: None,
                },
                count_ups: EffectData {
                    s0: Some((Action::InnerQuiet, -1i8)), s1: None, s2: None, s3: None, s4: None,
                },
            },
            condition: Condition::Normal,
            touch_combo_step: 0,
            iq_cnt: 0,
            control: 0,
            quality_gain: 0,
            base_progress_gain: 0,
            base_quality_gain: 0,
            success: false,
        }
    }

    pub fn from_synth(synth: &Synth) -> (r: State)
        ensures
            r == State::spec_from_synth(*synth),
            r.inv(*synth),
            r.bounded(),
    {
        proof {
            reveal(EffectData::spec_insert);
        }
        let mut count_ups = EffectData::new();
        count_ups.insert(Action::InnerQuiet, -1);
        State {
            step: 0,
            last_step: 0,
            action: None,
            durability_state: synth.recipe.durability as i64,
            cp_state: synth.crafter.craft_points as i64,
            bonus_max_cp: 0,
            quality_state: synth.recipe.start_quality as i64,
            progress_state: 0,
            wasted_actions: 0,
            trick_uses: 0,
            name_of_element_uses: 0,
            reliability: 1,
            effects: Effects { count_downs: EffectData::new(), count_ups },
            condition: Condition::Normal,
            touch_combo_step: 0,
            iq_cnt: 0,
            control: 0,
            quality_gain: 0,
            base_progress_gain: 0,
            base_quality_gain: 0,
            success: false,
        }
    }

    /// The invariant every reachable state keeps:
    /// durability never exceeds the recipe's, crafting points never exceed
    /// the crafter's maximum plus the bonus, the inner-quiet stack count
    /// never exceeds nine, and no effect key appears twice in either store.
    pub open spec fn inv(self, synth: Synth) -> bool {
        &&& self.effects.count_downs.wf()
        &&& self.effects.count_ups.wf()
        &&& self.effects.count_downs.values_within(1, 9)
        &&& self.effects.count_ups.values_within(-1, 9)
        &&& self.durability_state <= synth.recipe.durability as i64
        &&& self.cp_state <= synth.crafter.craft_points as i64 + self.bonus_max_cp
        &&& self.bonus_max_cp == 0
        &&& 0 <= self.progress_state
        &&& 0 <= self.quality_state
        &&& 0 <= self.reliability <= 1
        &&& 0 <= self.trick_uses
        &&& self.touch_combo_step == 0 || self.touch_combo_step == 1
    }

    /// Magnitude bounds under which one more step cannot overflow; a caller
    /// replaying a genome keeps them by bounding the genome's length.
    pub open spec fn bounded(self) -> bool {
        &&& self.step < STEP_LIMIT
        &&& self.last_step < STEP_LIMIT
        &&& -FIELD_LIMIT <= self.wasted_actions <= FIELD_LIMIT
        &&& -FIELD_LIMIT <= self.progress_state <= FIELD_LIMIT
        &&& -FIELD_LIMIT <= self.quality_state <= FIELD_LIMIT
        &&& -FIELD_LIMIT <= self.durability_state <= FIELD_LIMIT
        &&& -FIELD_LIMIT <= self.cp_state <= FIELD_LIMIT
        &&& -FIELD_LIMIT <= self.trick_uses <= FIELD_LIMIT
        &&& -FIELD_LIMIT <= self.reliability <= FIELD_LIMIT
    }

    /// Tighter magnitude bounds that the replay of a length-limited genome
    /// guarantees; they keep the penalty and fitness arithmetic within range.
    pub open spec fn run_bounded(self) -> bool {
        &&& -RUN_LIMIT <= self.wasted_actions <= RUN_LIMIT
        &&& -RUN_LIMIT <= self.progress_state <= RUN_LIMIT
        &&& -RUN_LIMIT <= self.quality_state <= RUN_LIMIT
        &&& -RUN_LIMIT <= self.durability_state <= RUN_LIMIT
        &&& -RUN_LIMIT <= self.cp_state <= RUN_LIMIT
        &&& -RUN_LIMIT <= self.trick_uses <= RUN_LIMIT
        &&& -RUN_LIMIT <= self.reliability <= RUN_LIMIT
        &&& self.step < STEP_LIMIT
    }

    /// Which constraints this state satisfies: progress reached the
    /// difficulty, crafting points and durability are not exhausted, tricks
    /// stayed within their budget, and the reliability goal holds.
    pub open spec fn spec_check_violations(self, synth: Synth) -> Violations {
        Violations {
            progress_ok: self.progress_state >= synth.recipe.difficulty as i64,
            cp_ok: self.cp_state >= 0,
            durability_ok: self.durability_state >= -5 && (
                (self.action matches Some(a) && a.spec_details().durability_cost == 10)
                || self.durability_state >= 0
            ),
            trick_ok: self.trick_uses <= synth.max_trick_uses,
            reliability_ok: self.reliability > synth.reliability_percent as int / 100,
        }
    }

    pub fn check_violations(&self, synth: &Synth) -> (r: Violations)
        ensures
            r == self.spec_check_violations(*synth),
    {
        let progress_ok = self.progress_state >= synth.recipe.difficulty as i64;
        let cp_ok = self.cp_state >= 0;
        let mut durability_ok = false;
        if self.durability_state >= -5 {
            if let Some(action) = self.action {
                let details = action.details();
                if details.durability_cost == 10 || self.durability_state >= 0 {
                    durability_ok = true;
                }
            }
            if self.durability_state >= 0 {
                durability_ok = true;
            }
        }
        let trick_ok = self.trick_uses <= synth.max_trick_uses;
        let reliability_ok = self.reliability > (synth.reliability_percent / 100) as i64;
        Violations {
            progress_ok,
            cp_ok,
            durability_ok,
            trick_ok,
            reliability_ok,
        }
    }

    /// The penalty total of a final state, scaled by `penalty_weight` and
    /// truncated toward zero: a twentieth of the wasted actions, plus, for
    /// each failed constraint, its absolute shortfall.
    pub open spec fn spec_penalty_units(self, synth: Synth) -> int {
        let violations = self.spec_check_violations(synth);
        let base = self.wasted_actions as int;
        let d = if !violations.durability_ok {
            if self.durability_state >= 0 { self.durability_state as int }
            else { -(self.durability_state as int) }
        } else { 0 };
        let p = if !violations.progress_ok {
            let diff = synth.recipe.difficulty as int - self.progress_state;
            if diff >= 0 { diff } else { -diff }
        } else { 0 };
        let c = if !violations.cp_ok {
            if self.cp_state >= 0 { self.cp_state as int } else { -(self.cp_state as int) }
        } else { 0 };
        let t = if self.trick_uses > synth.max_trick_uses {
            self.trick_uses - synth.max_trick_uses
        } else { 0 };
        let r = if self.reliability < synth.reliability_percent as int / 100 {
            synth.reliability_percent as int / 100 - self.reliability
        } else { 0 };
        base + 2000 * (d + p + c + t + r)
    }

    /// The weighted penalty: `penalty_units` is in hundredths of a wasted
    /// action, and a whole wasted action costs `weight / 20`. The quotient is
    /// truncated toward zero, as the unweighted penalty can be negative when
    /// combo discounts outweigh everything else.
    pub open spec fn spec_penalties(self, synth: Synth, penalty_weight: i64) -> int {
        let units = self.spec_penalty_units(synth);
        if units >= 0 {
            (units * penalty_weight) / 2000
        } else {
            -(((-units) * penalty_weight) / 2000)
        }
    }

    pub fn calculate_penalties(&self, synth: &Synth, penalty_weight: i64) -> (r: i64)
        requires
            synth.wf(),
            self.run_bounded(),
            0 <= penalty_weight <= 20_000,
        ensures
            r == self.spec_penalties(*synth, penalty_weight),
    {
        let violations = self.check_violations(synth);
        let mut shortfall: i64 = 0;
        if !violations.durability_ok {
            shortfall = shortfall + if self.durability_state >= 0 {
                self.durability_state
            } else {
                -self.durability_state
            };
        }
        if !violations.progress_ok {
            let diff = synth.recipe.difficulty as i64 - self.progress_state;
            shortfall = shortfall + if diff >= 0 { diff } else { -diff };
        }
        if !violations.cp_ok {
            shortfall = shortfall + if self.cp_state >= 0 { self.cp_state } else { -self.cp_state };
        }
        if self.trick_uses > synth.max_trick_uses {
            shortfall = shortfall + (self.trick_uses - synth.max_trick_uses);
        }
        let reliability_floor = (synth.reliability_percent / 100) as i64;
        if self.reliability < reliability_floor {
            shortfall = shortfall + (reliability_floor - self.reliability);
        }
        let units: i128 = self.wasted_actions as i128 + 2000 * (shortfall as i128);
        proof {
            assert(-130_000_000_000_000_000 <= units <= 130_000_000_000_000_000);
        }
        if units >= 0 {
            proof {
                assert(units * (penalty_weight as i128) <= 2_600_000_000_000_000_000_000
                    && units * (penalty_weight as i128) >= 0) by (nonlinear_arith)
                    requires 0 <= units <= 130_000_000_000_000_000
                        && 0 <= penalty_weight <= 20_000;
            }
            let prod = units * (penalty_weight as i128);
            let r = prod / 2000;
            proof {
                lemma_div_pos_is_pos(prod as int, 2000);
                lemma_div_is_ordered(prod as int, 2_600_000_000_000_000_000_000, 2000);
            }
            r as i64
        } else {
            proof {
                assert((-units) * (penalty_weight as i128) <= 2_600_000_000_000_000_000_000
                    && (-units) * (penalty_weight as i128) >= 0) by (nonlinear_arith)
                    requires 0 <= -units <= 130_000_000_000_000_000
                        && 0 <= penalty_weight <= 20_000;
            }
            let pos = (-units) * (penalty_weight as i128);
            let q = pos / 2000;
            proof {
                lemma_div_pos_is_pos(pos as int, 2000);
                lemma_div_is_ordered(pos as int, 2_600_000_000_000_000_000_000, 2000);
            }
            let r = -q;
            r as i64
        }
    }
}

/// The numbers one action application contributes, computed by
/// [`State::apply_modifiers`]: the gains before the success multiplier, the
/// costs, and the probability of success. `success_probability` is a
/// percentage and `quality_increase_multiplier` is in ten-thousandths.
#[derive(Copy, Clone, Debug, PartialEq, Eq)]
pub struct ModifierResult {
    pub craftsmanship: u32,
    pub control: i64,
    pub eff_crafter_level: u32,
    pub eff_recipe_level: u32,
    pub level_difference: i64,
    pub success_probability: i64,
    pub quality_increase_multiplier: i64,
    pub progress_gain: i64,
    pub quality_gain: i64,
    pub durability_cost: i64,
    pub cp_cost: i64,
}

/// The multipliers and costs the bookkeeping half of the modifier phase
/// hands to the gain computation. Multipliers are in hundredths,
/// `success_probability` is a percentage, and `num_iq` is the inner-quiet
/// stack count.
#[derive(Copy, Clone, Debug, PartialEq, Eq, Structural)]
pub struct ModifierScratch {
    pub success_probability: i64,
    pub cp_cost: i64,
    pub progress_mult: i64,
    pub quality_mult: i64,
    pub byregot_mult: i64,
    pub iq_mult: i64,
    pub num_iq: i64,
}

/// With the field bounds a bounded replay guarantees, the weighted penalty
/// stays far from the integer limits.
pub proof fn lemma_penalties_bound(state: State, synth: Synth, w: i64)
    requires
        synth.wf(),
        0 <= w <= 20_000,
        -20 <= state.durability_state <= 4_294_967_295,
        -1_000 <= state.cp_state <= 100_000,
        0 <= state.progress_state <= 4_294_967_295 + GAIN_LIMIT,
        -200_000_000 <= state.wasted_actions <= 200_000_000,
        0 <= state.trick_uses <= 10_000,
        0 <= state.reliability <= 1,
    ensures
        -400_000_000_000_000 <= state.spec_penalties(synth, w) <= 400_000_000_000_000,
{
    lemma_div_is_ordered(synth.reliability_percent as int, u32::MAX as int, 100);
    lemma_div_pos_is_pos(synth.reliability_percent as int, 100);
    let units = state.spec_penalty_units(synth);
    assert(-200_000_000 <= units <= 20_000_000_000_000);
    if units >= 0 {
        assert(units * w <= 400_000_000_000_000_000) by (nonlinear_arith)
            requires 0 <= units <= 20_000_000_000_000 && 0 <= w <= 20_000;
        assert(units * w >= 0) by (nonlinear_arith)
            requires 0 <= units && 0 <= w;
        lemma_div_pos_is_pos(units * w, 2000);
        lemma_div_is_ordered(units * w, 400_000_000_000_000_000, 2000);
    } else {
        assert((-units) * w <= 4_000_000_000_000) by (nonlinear_arith)
            requires 0 <= -units <= 200_000_000 && 0 <= w <= 20_000;
        assert((-units) * w >= 0) by (nonlinear_arith)
            requires 0 <= -units && 0 <= w;
        lemma_div_pos_is_pos((-units) * w, 2000);
        lemma_div_is_ordered((-units) * w, 4_000_000_000_000, 2000);
    }
}

/// Every descriptor in the catalog stays within these ranges; the step
/// arithmetic depends on them.
pub proof fn lemma_details_ranges(a: Action)
    ensures
        0 <= a.spec_details().durability_cost <= 20,
        0 <= a.spec_details().cp_cost <= 250,
        0 <= a.spec_details().success_probability <= 100,
        0 <= a.spec_details().quality_increase_multiplier <= 250,
        0 <= a.spec_details().progress_increase_multiplier <= 500,
        a.spec_details().action_type matches ActionType::Countdown { active_turns }
            ==> 1 <= active_turns <= 8,
{
    reveal(Action::spec_details);
}

impl State {
    /// The smaller of two mathematical integers.
    pub open spec fn spec_min(a: int, b: int) -> int {
        if a <= b { a } else { b }
    }

    /// The numeric state fields all lie within the given magnitude.
    pub open spec fn within(self, m: int) -> bool {
        &&& -m <= self.wasted_actions <= m
        &&& -m <= self.progress_state <= m
        &&& -m <= self.quality_state <= m
        &&& -m <= self.durability_state <= m
        &&& -m <= self.cp_state <= m
        &&& -m <= self.trick_uses <= m
        &&& -m <= self.reliability <= m
    }

    /// The effect stores are well formed and their counters in range:
    /// countdowns from one to nine turns, count-ups from -1 to the
    /// inner-quiet cap of nine.
    pub open spec fn effects_ok(self) -> bool {
        &&& self.effects.count_downs.wf()
        &&& self.effects.count_ups.wf()
        &&& self.effects.count_downs.values_within(1, 9)
        &&& self.effects.count_ups.values_within(-1, 9)
    }
    /// First phase of a step, first half: the success probability, the combo
    /// bookkeeping, the wasted-action penalties for misplaced actions, and
    /// the progress, quality, Byregot and inner-quiet multipliers.
    pub open spec fn spec_modifiers_bookkeeping(self, synth: Synth, action: Action)
        -> (State, ModifierScratch) {
        let details = action.spec_details();
        // Focused actions always succeed right after Observe.
        let observed = (action == Action::FocusedSynthesis || action == Action::FocusedTouch)
            && self.action == Some(Action::Observe);
        let sp0 = if observed { 100int } else { details.success_probability as int };
        let success_probability = if sp0 > 100 { 100int } else { sp0 };
        // Advanced Touch closes the Basic-Standard-Advanced combo.
        let combo_advanced = action == Action::AdvancedTouch
            && self.action == Some(Action::StandardTouch) && self.touch_combo_step == 1;
        let touch1 = if combo_advanced { 0int } else { self.touch_combo_step as int };
        let cp1 = if combo_advanced { 18int } else { details.cp_cost as int };
        // Standard Touch after Basic Touch is discounted and opens the combo.
        let combo_standard = action == Action::StandardTouch
            && self.action == Some(Action::BasicTouch);
        let wasted1 = if combo_standard { self.wasted_actions - 5 }
            else { self.wasted_actions as int };
        let touch2 = if combo_standard { 1int } else { touch1 };
        let cp2 = if combo_standard { 18int } else { cp1 };
        let repeat_standard = action == Action::StandardTouch
            && self.action == Some(Action::StandardTouch);
        let wasted2 = if repeat_standard { wasted1 + 10 } else { wasted1 };
        // Waste Not runs counter to a solve-for-completion search.
        let wasted3 = if (action == Action::WasteNot || action == Action::WasteNot2)
            && synth.solver_vars.solve_for_completion { wasted2 + 5000 } else { wasted2 };
        // Progress multiplier, in hundredths; a pending Muscle Memory buff is
        // consumed by the first progress action.
        let muscle_applies = details.progress_increase_multiplier > 0
            && self.effects.count_downs.spec_get(Action::MuscleMemory) is Some;
        let prog_mult1 = if muscle_applies { 200int } else { 100int };
        let count_downs1 = if muscle_applies {
            self.effects.count_downs.spec_remove(Action::MuscleMemory)
        } else { self.effects.count_downs };
        let prog_mult2 = if count_downs1.spec_get(Action::Veneration) is Some {
            prog_mult1 + 50
        } else { prog_mult1 };
        // Muscle Memory anywhere but the first step is wasted.
        let muscle_misuse = action == Action::MuscleMemory && self.step != 1;
        let wasted4 = if muscle_misuse { wasted3 + 1000 } else { wasted3 };
        let prog_mult3 = if muscle_misuse { 0int } else { prog_mult2 };
        let cp3 = if muscle_misuse { 0int } else { cp2 };
        // Quality multiplier, in hundredths; the inner-quiet multiplier is
        // kept separate because it stacks multiplicatively.
        let qual_mult1 = if count_downs1.spec_get(Action::GreatStrides) is Some {
            200int
        } else { 100int };
        let qual_mult2 = if count_downs1.spec_get(Action::Innovation) is Some {
            qual_mult1 + 50
        } else { qual_mult1 };
        let iq = self.effects.count_ups.spec_get(Action::InnerQuiet);
        let iq_mult = match iq {
            Some(v) => 100 + 10 * (v as int + 1),
            None => 100int,
        };
        let num_iq = match iq {
            Some(v) => v as int,
            None => 0int,
        };
        // Byregot's Blessing needs at least one inner-quiet stack.
        let byregot = action == Action::ByregotsBlessing;
        let qual_mult3 = if byregot && num_iq < 1 { 0int } else { qual_mult2 };
        let byregot_mult = if byregot && num_iq >= 1 {
            100 + (if 20 * (num_iq + 1) < 300 { 20 * (num_iq + 1) } else { 300int })
        } else { 100int };
        let new_state = State {
            wasted_actions: wasted4 as i64,
            touch_combo_step: touch2 as i64,
            effects: Effects { count_downs: count_downs1, ..self.effects },
            ..self
        };
        let scratch = ModifierScratch {
            success_probability: success_probability as i64,
            cp_cost: cp3 as i64,
            progress_mult: prog_mult3 as i64,
            quality_mult: qual_mult3 as i64,
            byregot_mult: byregot_mult as i64,
            iq_mult: iq_mult as i64,
            num_iq: num_iq as i64,
        };
        (new_state, scratch)
    }

    /// First phase of a step, second half: the progress and quality gains
    /// from the multipliers, and the gain corrections for Trained Finesse,
    /// the prudent actions under Waste Not, a Groundwork durability
    /// shortfall, Trained Eye, Precise Touch and a misplaced Reflect.
    pub open spec fn spec_modifiers_gains(
        self,
        synth: Synth,
        action: Action,
        scratch: ModifierScratch,
    ) -> (State, ModifierResult) {
        let details = action.spec_details();
        let eff_crafter_level = spec_level_table_lookup(synth.crafter.level);
        let eff_recipe_level = synth.recipe.level;
        let pure_level_difference =
            synth.crafter.level as int - synth.recipe.base_level as int;
        let base_progress = synth.spec_base_progress_increase(
            eff_crafter_level, synth.crafter.craftsmanship);
        let progress_gain1 = (base_progress * details.progress_increase_multiplier
            * scratch.progress_mult) / 10000;
        let base_quality = synth.spec_base_quality_increase(
            eff_crafter_level, synth.crafter.control);
        let quality_gain1 = (base_quality * details.quality_increase_multiplier
            * scratch.quality_mult * scratch.byregot_mult * scratch.iq_mult) / 100000000;
        // Trained Finesse needs the full nine inner-quiet stacks.
        let finesse_misuse = action == Action::TrainedFinesse && scratch.num_iq != 9;
        let wasted5 = if finesse_misuse { self.wasted_actions + 100 }
            else { self.wasted_actions as int };
        let quality_gain2 = if finesse_misuse { 0int } else { quality_gain1 };
        // Waste Not halves durability costs but blocks the prudent actions.
        let waste_not_active = self.effects.count_downs.spec_get(Action::WasteNot) is Some
            || self.effects.count_downs.spec_get(Action::WasteNot2) is Some;
        let prudent_touch_blocked = waste_not_active && action == Action::PrudentTouch;
        let prudent_synth_blocked = waste_not_active && action == Action::PrudentSynthesis;
        let quality_gain3 = if prudent_touch_blocked { 0int } else { quality_gain2 };
        let progress_gain2 = if prudent_synth_blocked { 0int } else { progress_gain1 };
        let wasted6 = if prudent_touch_blocked || prudent_synth_blocked {
            wasted5 + 100
        } else { wasted5 };
        let durability_cost = if waste_not_active && !prudent_touch_blocked
            && !prudent_synth_blocked {
            details.durability_cost as int / 2
        } else { details.durability_cost as int };
        // Groundwork with a durability shortfall still costs full durability
        // but yields half the progress: the halving applies to the computed
        // gain, after the Waste Not discount has fixed the cost.
        let groundwork_short = self.durability_state < durability_cost
            && (action == Action::Groundwork || action == Action::Groundwork2);
        let progress_gain3 = if groundwork_short { progress_gain2 / 2 } else { progress_gain2 };
        // Trained Eye fills the quality bar on a first step against a recipe
        // ten or more levels below the crafter.
        let trained_eye = action == Action::TrainedEye;
        let trained_eye_valid = self.step == 1 && pure_level_difference >= 10
            && synth.recipe.stars is None;
        let quality_gain4 = if trained_eye {
            if trained_eye_valid { synth.recipe.max_quality as int } else { 0int }
        } else { quality_gain3 };
        let wasted7 = if trained_eye && !trained_eye_valid { wasted6 + 100 } else { wasted6 };
        let cp4 = if trained_eye && !trained_eye_valid { 0int } else { scratch.cp_cost as int };
        // Precise Touch is legal here: the deterministic condition counts as
        // Good or Excellent with probability mass one, leaving the gain as is.
        // Reflect anywhere but the first step is wasted.
        let reflect_misuse = action == Action::Reflect && self.step != 1;
        let wasted8 = if reflect_misuse { wasted7 + 100 } else { wasted7 };
        let control_out = if reflect_misuse { 0int } else { synth.crafter.control as int };
        let quality_gain5 = if reflect_misuse { 0int } else { quality_gain4 };
        let cp5 = if reflect_misuse { 0int } else { cp4 };
        let new_state = State { wasted_actions: wasted8 as i64, ..self };
        let result = ModifierResult {
            craftsmanship: synth.crafter.craftsmanship,
            control: control_out as i64,
            eff_crafter_level,
            eff_recipe_level,
            level_difference: (eff_crafter_level as int - eff_recipe_level as int) as i64,
            success_probability: scratch.success_probability,
            quality_increase_multiplier: (scratch.quality_mult * scratch.byregot_mult) as i64,
            progress_gain: progress_gain3 as i64,
            quality_gain: quality_gain5 as i64,
            durability_cost: durability_cost as i64,
            cp_cost: cp5 as i64,
        };
        (new_state, result)
    }

    /// First phase of a step: compute this action's gains, costs and success
    /// probability, applying combo bonuses, buff multipliers, inner-quiet
    /// stacking and the misuse penalties. Returns the state with the combo
    /// bookkeeping, wasted-action penalties and the consumed Muscle Memory
    /// buff applied, together with the modifier numbers.
    pub open spec fn spec_apply_modifiers(self, synth: Synth, action: Action)
        -> (State, ModifierResult) {
        let (prepared, scratch) = self.spec_modifiers_bookkeeping(synth, action);
        prepared.spec_modifiers_gains(synth, action, scratch)
    }

    /// The combo, penalty and multiplier bookkeeping of
    /// [`State::apply_modifiers`].
    #[verifier::rlimit(100)]
    pub fn modifiers_bookkeeping(
        &mut self,
        synth: &Synth,
        action: Action,
    ) -> (scratch: ModifierScratch)
        requires
            synth.wf(),
            old(self).effects_ok(),
            old(self).touch_combo_step == 0 || old(self).touch_combo_step == 1,
            old(self).within(FIELD_LIMIT as int + 100_000),
        ensures
            (*final(self), scratch) == old(self).spec_modifiers_bookkeeping(*synth, action),
            final(self).effects_ok(),
            final(self).touch_combo_step == 0 || final(self).touch_combo_step == 1,
            old(self).wasted_actions - 5 <= final(self).wasted_actions
                <= old(self).wasted_actions + 7_000,
            final(self).effects.count_ups == old(self).effects.count_ups,
            *final(self) == (State {
                wasted_actions: final(self).wasted_actions,
                touch_combo_step: final(self).touch_combo_step,
                effects: final(self).effects,
                ..*old(self)
            }),
            0 <= scratch.success_probability <= 100,
            0 <= scratch.cp_cost <= 250,
            0 <= scratch.progress_mult <= 250,
            0 <= scratch.quality_mult <= 250,
            100 <= scratch.byregot_mult <= 400,
            100 <= scratch.iq_mult <= 200,
            -1 <= scratch.num_iq <= 9,
    {
        proof {
            lemma_details_ranges(action);
        }
        let details = action.details();
        let mut cp_cost: i64 = details.cp_cost;
        // Focused actions always succeed right after Observe.
        let mut success_probability: i64 = details.success_probability;
        if action == Action::FocusedSynthesis || action == Action::FocusedTouch {
            if self.action == Some(Action::Observe) {
                success_probability = 100;
            }
        }
        if success_probability > 100 {
            success_probability = 100;
        }
        // Advanced Touch closes the Basic-Standard-Advanced combo.
        if action == Action::AdvancedTouch {
            if self.action == Some(Action::StandardTouch) && self.touch_combo_step == 1 {
                self.touch_combo_step = 0;
                cp_cost = 18;
            }
        }
        // Standard Touch after Basic Touch is discounted and opens the combo.
        if action == Action::StandardTouch {
            if self.action == Some(Action::BasicTouch) {
                cp_cost = 18;
                self.wasted_actions = self.wasted_actions - 5;
                self.touch_combo_step = 1;
            }
            if self.action == Some(Action::StandardTouch) {
                self.wasted_actions = self.wasted_actions + 10;
            }
        }
        // Waste Not runs counter to a solve-for-completion search.
        if (action == Action::WasteNot || action == Action::WasteNot2)
            && synth.solver_vars.solve_for_completion {
            self.wasted_actions = self.wasted_actions + 5000;
        }
        // Progress multiplier, in hundredths; a pending Muscle Memory buff is
        // consumed by the first progress action.
        let mut progress_mult: i64 = 100;
        if details.progress_increase_multiplier > 0
            && self.effects.count_downs.get(Action::MuscleMemory).is_some() {
            progress_mult = progress_mult + 100;
            proof {
                crate::effect_tracker::lemma_remove_wf(
                    self.effects.count_downs, Action::MuscleMemory);
                crate::effect_tracker::lemma_remove_within(
                    self.effects.count_downs, Action::MuscleMemory, 1, 9);
            }
            self.effects.count_downs.remove(Action::MuscleMemory);
        }
        if self.effects.count_downs.get(Action::Veneration).is_some() {
            progress_mult = progress_mult + 50;
        }
        // Muscle Memory anywhere but the first step is wasted.
        if action == Action::MuscleMemory && self.step != 1 {
            self.wasted_actions = self.wasted_actions + 1000;
            progress_mult = 0;
            cp_cost = 0;
        }
        // Quality multiplier, in hundredths; the inner-quiet multiplier is
        // kept separate because it stacks multiplicatively.
        let mut quality_mult: i64 = 100;
        if self.effects.count_downs.get(Action::GreatStrides).is_some() && quality_mult > 0 {
            quality_mult = quality_mult + 100;
        }
        if self.effects.count_downs.get(Action::Innovation).is_some() {
            quality_mult = quality_mult + 50;
        }
        proof {
            crate::effect_tracker::lemma_get_within(
                self.effects.count_ups, Action::InnerQuiet, -1, 9);
        }
        let iq = self.effects.count_ups.get(Action::InnerQuiet);
        let iq_mult: i64 = match iq {
            Some(v) => 100 + 10 * (v as i64 + 1),
            None => 100,
        };
        let num_iq: i64 = match iq {
            Some(v) => v as i64,
            None => 0,
        };
        // Byregot's Blessing needs at least one inner-quiet stack.
        let mut byregot_mult: i64 = 100;
        if action == Action::ByregotsBlessing {
            if num_iq >= 1 {
                let bonus = 20 * (num_iq + 1);
                byregot_mult = 100 + if bonus < 300 { bonus } else { 300 };
            } else {
                quality_mult = 0;
            }
        }
        ModifierScratch {
            success_probability,
            cp_cost,
            progress_mult,
            quality_mult,
            byregot_mult,
            iq_mult,
            num_iq,
        }
    }

    /// The gain computation of [`State::apply_modifiers`].
    #[verifier::rlimit(100)]
    pub fn modifiers_gains(
        &mut self,
        synth: &Synth,
        action: Action,
        scratch: ModifierScratch,
    ) -> (r: ModifierResult)
        requires
            synth.wf(),
            old(self).effects_ok(),
            old(self).within(FIELD_LIMIT as int + 110_000),
            0 <= scratch.success_probability <= 100,
            0 <= scratch.cp_cost <= 250,
            0 <= scratch.progress_mult <= 250,
            0 <= scratch.quality_mult <= 250,
            100 <= scratch.byregot_mult <= 400,
            100 <= scratch.iq_mult <= 200,
        ensures
            (*final(self), r) == old(self).spec_modifiers_gains(*synth, action, scratch),
            *final(self) == (State { wasted_actions: final(self).wasted_actions, ..*old(self) }),
            old(self).wasted_actions <= final(self).wasted_actions
                <= old(self).wasted_actions + 300,
            0 <= r.progress_gain <= GAIN_LIMIT,
            0 <= r.quality_gain <= GAIN_LIMIT + synth.recipe.max_quality,
            old(self).step != 1 ==> r.quality_gain <= GAIN_LIMIT,
            0 <= r.durability_cost <= 20,
            0 <= r.cp_cost <= 250,
            0 <= r.success_probability <= 100,
    {
        proof {
            lemma_details_ranges(action);
        }
        let details = action.details();
        let mut control: i64 = synth.crafter.control as i64;
        let mut cp_cost: i64 = scratch.cp_cost;
        let eff_crafter_level = synth.get_effective_crafter_level();
        let eff_recipe_level = synth.recipe.level;
        let level_difference: i64 = eff_crafter_level as i64 - eff_recipe_level as i64;
        let pure_level_difference: i64 =
            synth.crafter.level as i64 - synth.recipe.base_level as i64;
        // Progress gain, floored once after the exact rational product.
        let base_progress = synth.calculate_base_progress_increase(
            eff_crafter_level, synth.crafter.craftsmanship);
        proof {
            assert({
                &&& 0 <= base_progress * details.progress_increase_multiplier
                    <= 10_000_000_000
                &&& 0 <= base_progress * details.progress_increase_multiplier
                    * scratch.progress_mult <= 2_500_000_000_000
            }) by (nonlinear_arith)
                requires 0 <= base_progress <= 20_000_000
                    && 0 <= details.progress_increase_multiplier <= 500
                    && 0 <= scratch.progress_mult <= 250;
        }
        let progress_product = base_progress * details.progress_increase_multiplier
            * scratch.progress_mult;
        let mut progress_gain = progress_product / 10000;
        proof {
            lemma_div_pos_is_pos(progress_product as int, 10000);
            lemma_div_is_ordered(progress_product as int, 2_500_000_000_000, 10000);
        }
        // Quality gain, floored once after the exact rational product.
        let base_quality = synth.calculate_base_quality_increase(
            eff_crafter_level, synth.crafter.control);
        proof {
            assert({
                &&& 0 <= base_quality * details.quality_increase_multiplier
                    <= 5_000_000_000
                &&& 0 <= base_quality * details.quality_increase_multiplier
                    * scratch.quality_mult <= 1_250_000_000_000
                &&& 0 <= base_quality * details.quality_increase_multiplier
                    * scratch.quality_mult * scratch.byregot_mult <= 500_000_000_000_000
                &&& 0 <= base_quality * details.quality_increase_multiplier
                    * scratch.quality_mult * scratch.byregot_mult * scratch.iq_mult
                    <= 100_000_000_000_000_000
                &&& 0 <= scratch.quality_mult * scratch.byregot_mult <= 100_000
            }) by (nonlinear_arith)
                requires 0 <= base_quality <= 20_000_000
                    && 0 <= details.quality_increase_multiplier <= 250
                    && 0 <= scratch.quality_mult <= 250
                    && 100 <= scratch.byregot_mult <= 400
                    && 100 <= scratch.iq_mult <= 200;
        }
        let quality_product = base_quality * details.quality_increase_multiplier
            * scratch.quality_mult * scratch.byregot_mult * scratch.iq_mult;
        let mut quality_gain = quality_product / 100000000;
        proof {
            lemma_div_pos_is_pos(quality_product as int, 100000000);
            lemma_div_is_ordered(quality_product as int, 100_000_000_000_000_000, 100000000);
        }
        // Trained Finesse needs the full nine inner-quiet stacks.
        if action == Action::TrainedFinesse {
            if scratch.num_iq != 9 {
                self.wasted_actions = self.wasted_actions + 100;
                quality_gain = 0;
            }
        }
        // Waste Not halves durability costs but blocks the prudent actions.
        let mut durability_cost: i64 = details.durability_cost;
        if self.effects.count_downs.get(Action::WasteNot).is_some()
            || self.effects.count_downs.get(Action::WasteNot2).is_some() {
            if action == Action::PrudentTouch {
                quality_gain = 0;
                self.wasted_actions = self.wasted_actions + 100;
            } else if action == Action::PrudentSynthesis {
                progress_gain = 0;
                self.wasted_actions = self.wasted_actions + 100;
            } else {
                durability_cost = durability_cost / 2;
            }
        }
        // Groundwork with a durability shortfall still costs full durability
        // but yields half the progress.
        if self.durability_state < durability_cost {
            if action == Action::Groundwork || action == Action::Groundwork2 {
                proof {
                    lemma_div_pos_is_pos(progress_gain as int, 2);
                    lemma_div_nonincreasing(progress_gain as int, 2);
                }
                progress_gain = progress_gain / 2;
            }
        }
        // Trained Eye fills the quality bar on a first step against a recipe
        // ten or more levels below the crafter.
        if action == Action::TrainedEye {
            if self.step == 1 && pure_level_difference >= 10 && synth.recipe.stars.is_none() {
                quality_gain = synth.recipe.max_quality as i64;
            } else {
                self.wasted_actions = self.wasted_actions + 100;
                quality_gain = 0;
                cp_cost = 0;
            }
        }
        // Precise Touch is legal here: the deterministic condition always
        // counts as Good or Excellent with probability mass one, which
        // leaves the gain unchanged.
        // Reflect anywhere but the first step is wasted.
        if action == Action::Reflect {
            if self.step != 1 {
                self.wasted_actions = self.wasted_actions + 100;
                control = 0;
                quality_gain = 0;
                cp_cost = 0;
            }
        }
        ModifierResult {
            craftsmanship: synth.crafter.craftsmanship,
            control,
            eff_crafter_level,
            eff_recipe_level,
            level_difference,
            success_probability: scratch.success_probability,
            quality_increase_multiplier: scratch.quality_mult * scratch.byregot_mult,
            progress_gain,
            quality_gain,
            durability_cost,
            cp_cost,
        }
    }

    /// Compute this action's modifier numbers and apply the combo and
    /// penalty bookkeeping; the first phase of [`State::add_action`].
    pub fn apply_modifiers(
        &mut self,
        synth: &Synth,
        action: Action,
        condition: &SimulationCondition,
    ) -> (r: ModifierResult)
        requires
            synth.wf(),
            condition.ignore_condition,
            old(self).effects_ok(),
            old(self).touch_combo_step == 0 || old(self).touch_combo_step == 1,
            old(self).within(FIELD_LIMIT as int + 100_000),
        ensures
            (*final(self), r) == old(self).spec_apply_modifiers(*synth, action),
            final(self).effects_ok(),
            final(self).touch_combo_step == 0 || final(self).touch_combo_step == 1,
            old(self).wasted_actions - 5 <= final(self).wasted_actions
                <= old(self).wasted_actions + 10_000,
            final(self).effects.count_ups == old(self).effects.count_ups,
            *final(self) == (State {
                wasted_actions: final(self).wasted_actions,
                touch_combo_step: final(self).touch_combo_step,
                effects: final(self).effects,
                ..*old(self)
            }),
            0 <= r.progress_gain <= GAIN_LIMIT,
            0 <= r.quality_gain <= GAIN_LIMIT + synth.recipe.max_quality,
            old(self).step != 1 ==> r.quality_gain <= GAIN_LIMIT,
            0 <= r.durability_cost <= 20,
            0 <= r.cp_cost <= 250,
            0 <= r.success_probability <= 100,
    {
        let scratch = self.modifiers_bookkeeping(synth, action);
        self.modifiers_gains(synth, action, scratch)
    }
    /// An action restricted to Good or Excellent conditions: with crafting
    /// points left and the condition matching it counts a trick use,
    /// otherwise it is wasted.
    pub open spec fn spec_use_conditional_action(self) -> (State, bool) {
        if self.cp_state > 0 {
            (State { trick_uses: (self.trick_uses + 1) as i64, ..self }, true)
        } else {
            (State { wasted_actions: (self.wasted_actions + 100) as i64, ..self }, false)
        }
    }

    /// Second phase of a step, first half: durability restoration and the
    /// inner-quiet resets of Byregot's Blessing and Reflect.
    pub open spec fn spec_special_restore(self, synth: Synth, action: Action) -> State {
        let completion = synth.solver_vars.solve_for_completion;
        // Master's Mend restores durability; in a solve-for-completion run
        // the restoration is penalized instead of welcomed.
        let s1 = if action == Action::MastersMend {
            State {
                durability_state: (self.durability_state + 30) as i64,
                wasted_actions: if completion {
                    (self.wasted_actions + 5000) as i64
                } else { self.wasted_actions },
                ..self
            }
        } else { self };
        // An active Manipulation buff restores five durability each turn.
        let manipulation_heals = s1.effects.count_downs.spec_get(Action::Manipulation) is Some
            && s1.durability_state > 0 && action != Action::Manipulation;
        let s2 = if manipulation_heals {
            State {
                durability_state: (s1.durability_state + 5) as i64,
                wasted_actions: if completion {
                    (s1.wasted_actions + 5000) as i64
                } else { s1.wasted_actions },
                ..s1
            }
        } else { s1 };
        // Byregot's Blessing consumes the inner-quiet stacks.
        let s3 = if action == Action::ByregotsBlessing {
            if s2.effects.count_ups.spec_get(Action::InnerQuiet) is Some {
                State {
                    effects: Effects {
                        count_ups: s2.effects.count_ups.spec_remove(Action::InnerQuiet),
                        ..s2.effects
                    },
                    ..s2
                }
            } else {
                State { wasted_actions: (s2.wasted_actions + 100) as i64, ..s2 }
            }
        } else { s2 };
        // Reflect on the first step starts inner quiet at one stack.
        let s4 = if action == Action::Reflect {
            if self.step == 1 {
                let primed = if s3.effects.count_ups.spec_get(Action::InnerQuiet) is Some {
                    s3.effects.count_ups.spec_insert(Action::InnerQuiet, 1)
                } else {
                    s3.effects.count_ups.spec_insert(Action::InnerQuiet, 0)
                };
                State { effects: Effects { count_ups: primed, ..s3.effects }, ..s3 }
            } else {
                State { wasted_actions: (s3.wasted_actions + 100) as i64, ..s3 }
            }
        } else { s3 };
        s4
    }

    /// Second phase of a step, second half: the Final Appraisal progress
    /// clamp, Great Strides consumption and the conditional-action
    /// bookkeeping.
    pub open spec fn spec_special_discipline(self, synth: Synth, action: Action) -> State {
        let details = action.spec_details();
        let s4 = self;
        // Final Appraisal holds progress just short of completion.
        let s5 = if s4.effects.count_downs.spec_get(Action::FinalAppraisal) is Some {
            let ceiling = synth.recipe.difficulty as int - 1;
            let clamped = if s4.progress_state < 0 { 0int }
                else if s4.progress_state > ceiling { ceiling }
                else { s4.progress_state as int };
            State { progress_state: clamped as i64, ..s4 }
        } else { s4 };
        // A quality action consumes Great Strides.
        let s6 = if details.quality_increase_multiplier > 0
            && s5.effects.count_downs.spec_get(Action::GreatStrides) is Some {
            State {
                effects: Effects {
                    count_downs: s5.effects.count_downs.spec_remove(Action::GreatStrides),
                    ..s5.effects
                },
                ..s5
            }
        } else { s5 };
        // Conditional actions; a triggered Tricks of the Trade restores
        // twenty crafting points, scaled by the Good-or-Excellent mass of one.
        if details.on_excellent || details.on_good {
            let (s7, triggered) = s6.spec_use_conditional_action();
            if triggered && action == Action::TricksOfTheTrade {
                State { cp_state: (s7.cp_state + 20) as i64, ..s7 }
            } else { s7 }
        } else { s6 }
    }

    /// Second phase of a step: durability restoration, inner-quiet resets,
    /// the Final Appraisal progress clamp, Great Strides consumption, and the
    /// conditional-action bookkeeping.
    pub open spec fn spec_apply_special_action_effects(self, synth: Synth, action: Action)
        -> State {
        self.spec_special_restore(synth, action).spec_special_discipline(synth, action)
    }

    /// Third phase of a step: tick every countdown, grow the inner-quiet
    /// stacks, and register the effect the action itself starts.
    pub open spec fn spec_update_effects_counters(
        self,
        action: Action,
        success_probability: int,
    ) -> State {
        let details = action.spec_details();
        let count_downs1 = self.effects.count_downs.spec_decrement_all();
        let iq = self.effects.count_ups.spec_get(Action::InnerQuiet);
        let count_ups1 = match iq {
            Some(v) => {
                // Preparatory Touch adds two stacks; Precise Touch under a
                // matching condition adds the floor of twice the success
                // probability; any other quality action except Reflect and
                // Trained Finesse adds the floor of the success probability.
                let inc = if action == Action::PreparatoryTouch { 2int }
                    else if action == Action::PreciseTouch {
                        (2 * success_probability) / 100
                    }
                    else if details.quality_increase_multiplier > 0
                        && action != Action::Reflect && action != Action::TrainedFinesse {
                        success_probability / 100
                    }
                    else { 0int };
                let grown = v as int + inc;
                let capped = if grown > 9 { 9int } else { grown };
                self.effects.count_ups.spec_insert(Action::InnerQuiet, capped as i8)
            },
            None => self.effects.count_ups,
        };
        let count_ups2 = if details.action_type == ActionType::CountUp {
            count_ups1.spec_insert(action, 0)
        } else { count_ups1 };
        match details.action_type {
            ActionType::Countdown { active_turns } => {
                if action == Action::MuscleMemory && self.step != 1 {
                    State {
                        effects: Effects { count_downs: count_downs1, count_ups: count_ups2 },
                        wasted_actions: (self.wasted_actions + 100) as i64,
                        ..self
                    }
                } else {
                    State {
                        effects: Effects {
                            count_downs: count_downs1.spec_insert(action, active_turns as i8),
                            count_ups: count_ups2,
                        },
                        ..self
                    }
                }
            },
            _ => {
                State {
                    effects: Effects { count_downs: count_downs1, count_ups: count_ups2 },
                    ..self
                }
            },
        }
    }

    /// Fourth phase of a step: commit the gains and costs, run the special
    /// effects and the counter updates, and clamp durability and crafting
    /// points to their maxima.
    pub open spec fn spec_update_state(
        self,
        synth: Synth,
        action: Action,
        progress_gain: i64,
        quality_gain: i64,
        durability_cost: i64,
        cp_cost: i64,
        success_probability: int,
    ) -> State {
        let s1 = State {
            progress_state: (self.progress_state + progress_gain) as i64,
            quality_state: (self.quality_state + quality_gain) as i64,
            durability_state: (self.durability_state - durability_cost) as i64,
            cp_state: (self.cp_state - cp_cost) as i64,
            last_step: (self.last_step + 1) as u32,
            ..self
        };
        let s2 = s1.spec_apply_special_action_effects(synth, action);
        let s3 = s2.spec_update_effects_counters(action, success_probability);
        State {
            durability_state: Self::spec_min(
                s3.durability_state as int, synth.recipe.durability as int) as i64,
            cp_state: Self::spec_min(
                s3.cp_state as int,
                synth.crafter.craft_points as int + s3.bonus_max_cp as int) as i64,
            ..s3
        }
    }

    /// An action usable only on Good or Excellent conditions: count a trick
    /// use when crafting points remain and the condition matches, else waste
    /// the action; the deterministic condition always matches.
    pub fn use_conditional_action(&mut self, condition: &SimulationCondition) -> (r: bool)
        requires
            condition.ignore_condition,
            old(self).within(FIELD_LIMIT as int + 7_000_000_000),
        ensures
            (*final(self), r) == old(self).spec_use_conditional_action(),
    {
        let matches_condition = condition.check_good_or_excellent(self);
        if self.cp_state > 0 && matches_condition {
            self.trick_uses = self.trick_uses + 1;
            true
        } else {
            self.wasted_actions = self.wasted_actions + 100;
            false
        }
    }

    /// The restoration half of the special-effects phase.
    #[verifier::rlimit(100)]
    pub fn special_restore(&mut self, synth: &Synth, action: Action)
        requires
            synth.wf(),
            old(self).effects_ok(),
            old(self).within(FIELD_LIMIT as int + 6_000_000_000),
        ensures
            *final(self) == old(self).spec_special_restore(*synth, action),
            final(self).effects_ok(),
            *final(self) == (State {
                durability_state: final(self).durability_state,
                wasted_actions: final(self).wasted_actions,
                effects: final(self).effects,
                ..*old(self)
            }),
            final(self).effects.count_downs == old(self).effects.count_downs,
            old(self).durability_state <= final(self).durability_state
                <= old(self).durability_state + 35,
            old(self).wasted_actions <= final(self).wasted_actions
                <= old(self).wasted_actions + 10_100,
    {
        // Master's Mend restores durability; in a solve-for-completion run
        // the restoration is penalized instead of welcomed.
        if action == Action::MastersMend {
            self.durability_state = self.durability_state + 30;
            if synth.solver_vars.solve_for_completion {
                self.wasted_actions = self.wasted_actions + 5000;
            }
        }
        // An active Manipulation buff restores five durability each turn.
        if self.effects.count_downs.get(Action::Manipulation).is_some()
            && self.durability_state > 0 && action != Action::Manipulation {
            self.durability_state = self.durability_state + 5;
            if synth.solver_vars.solve_for_completion {
                self.wasted_actions = self.wasted_actions + 5000;
            }
        }
        // Byregot's Blessing consumes the inner-quiet stacks.
        if action == Action::ByregotsBlessing {
            if self.effects.count_ups.get(Action::InnerQuiet).is_some() {
                proof {
                    crate::effect_tracker::lemma_remove_wf(
                        self.effects.count_ups, Action::InnerQuiet);
                    crate::effect_tracker::lemma_remove_within(
                        self.effects.count_ups, Action::InnerQuiet, -1, 9);
                }
                self.effects.count_ups.remove(Action::InnerQuiet);
            } else {
                self.wasted_actions = self.wasted_actions + 100;
            }
        }
        // Reflect on the first step starts inner quiet at one stack.
        if action == Action::Reflect {
            if self.step == 1 {
                proof {
                    crate::effect_tracker::lemma_insert_wf(
                        self.effects.count_ups, Action::InnerQuiet, 1);
                    crate::effect_tracker::lemma_insert_within(
                        self.effects.count_ups, Action::InnerQuiet, 1, -1, 9);
                    crate::effect_tracker::lemma_insert_wf(
                        self.effects.count_ups, Action::InnerQuiet, 0);
                    crate::effect_tracker::lemma_insert_within(
                        self.effects.count_ups, Action::InnerQuiet, 0, -1, 9);
                }
                if self.effects.count_ups.get(Action::InnerQuiet).is_some() {
                    self.effects.count_ups.insert(Action::InnerQuiet, 1);
                } else {
                    self.effects.count_ups.insert(Action::InnerQuiet, 0);
                }
            } else {
                self.wasted_actions = self.wasted_actions + 100;
            }
        }
    }

    /// The clamp, buff-consumption and conditional-action half of the
    /// special-effects phase.
    #[verifier::rlimit(100)]
    pub fn special_discipline(
        &mut self,
        synth: &Synth,
        action: Action,
        condition: &SimulationCondition,
    )
        requires
            synth.wf(),
            condition.ignore_condition,
            old(self).effects_ok(),
            old(self).within(FIELD_LIMIT as int + 7_000_000_000),
        ensures
            *final(self) == old(self).spec_special_discipline(*synth, action),
            final(self).effects_ok(),
            *final(self) == (State {
                cp_state: final(self).cp_state,
                wasted_actions: final(self).wasted_actions,
                trick_uses: final(self).trick_uses,
                progress_state: final(self).progress_state,
                effects: final(self).effects,
                ..*old(self)
            }),
            final(self).effects.count_ups == old(self).effects.count_ups,
            old(self).cp_state <= final(self).cp_state <= old(self).cp_state + 20,
            old(self).wasted_actions <= final(self).wasted_actions
                <= old(self).wasted_actions + 100,
            old(self).trick_uses <= final(self).trick_uses <= old(self).trick_uses + 1,
            old(self).progress_state >= 0 ==> final(self).progress_state >= 0,
            final(self).progress_state <= old(self).progress_state
                || final(self).progress_state < synth.recipe.difficulty as i64,
    {
        proof {
            lemma_details_ranges(action);
        }
        let details = action.details();
        // Final Appraisal holds progress just short of completion.
        if self.effects.count_downs.get(Action::FinalAppraisal).is_some() {
            let ceiling = synth.recipe.difficulty as i64 - 1;
            self.progress_state = if self.progress_state < 0 { 0 }
                else if self.progress_state > ceiling { ceiling }
                else { self.progress_state };
        }
        // A quality action consumes Great Strides.
        if details.quality_increase_multiplier > 0
            && self.effects.count_downs.get(Action::GreatStrides).is_some() {
            proof {
                crate::effect_tracker::lemma_remove_wf(
                    self.effects.count_downs, Action::GreatStrides);
                crate::effect_tracker::lemma_remove_within(
                    self.effects.count_downs, Action::GreatStrides, 1, 9);
            }
            self.effects.count_downs.remove(Action::GreatStrides);
        }
        // Conditional actions; a triggered Tricks of the Trade restores
        // twenty crafting points, scaled by the Good-or-Excellent mass of one.
        if details.on_excellent || details.on_good {
            if self.use_conditional_action(condition) {
                if action == Action::TricksOfTheTrade {
                    self.cp_state = self.cp_state + 20;
                }
            }
        }
    }

    /// Apply the action's special effects; the second phase of
    /// [`State::add_action`].
    pub fn apply_special_action_effects(
        &mut self,
        synth: &Synth,
        action: Action,
        condition: &SimulationCondition,
    )
        requires
            synth.wf(),
            condition.ignore_condition,
            old(self).effects_ok(),
            old(self).within(FIELD_LIMIT as int + 6_000_000_000),
        ensures
            *final(self) == old(self).spec_apply_special_action_effects(*synth, action),
            final(self).effects_ok(),
            *final(self) == (State {
                durability_state: final(self).durability_state,
                cp_state: final(self).cp_state,
                wasted_actions: final(self).wasted_actions,
                trick_uses: final(self).trick_uses,
                progress_state: final(self).progress_state,
                effects: final(self).effects,
                ..*old(self)
            }),
            old(self).durability_state <= final(self).durability_state
                <= old(self).durability_state + 35,
            old(self).cp_state <= final(self).cp_state <= old(self).cp_state + 20,
            old(self).wasted_actions <= final(self).wasted_actions
                <= old(self).wasted_actions + 10_200,
            old(self).trick_uses <= final(self).trick_uses <= old(self).trick_uses + 1,
            old(self).progress_state >= 0 ==> final(self).progress_state >= 0,
            final(self).progress_state <= old(self).progress_state
                || final(self).progress_state < synth.recipe.difficulty as i64,
    {
        self.special_restore(synth, action);
        self.special_discipline(synth, action, condition);
    }

    /// Tick the countdowns and grow the counters; the third phase of
    /// [`State::add_action`].
    #[verifier::rlimit(100)]
    pub fn update_effects_counters(
        &mut self,
        action: Action,
        condition: &SimulationCondition,
        success_probability: i64,
    )
        requires
            condition.ignore_condition,
            old(self).effects_ok(),
            old(self).within(FIELD_LIMIT as int + 7_000_000_000),
            0 <= success_probability <= 100,
        ensures
            *final(self) == old(self).spec_update_effects_counters(
                action, success_probability as int),
            final(self).effects_ok(),
            *final(self) == (State {
                wasted_actions: final(self).wasted_actions,
                effects: final(self).effects,
                ..*old(self)
            }),
            old(self).wasted_actions <= final(self).wasted_actions
                <= old(self).wasted_actions + 100,
    {
        proof {
            lemma_details_ranges(action);
        }
        let details = action.details();
        // Tick every countdown and drop the expired ones.
        proof {
            crate::effect_tracker::lemma_decrement_wf(self.effects.count_downs);
            crate::effect_tracker::lemma_decrement_within(self.effects.count_downs, 9);
        }
        self.effects.count_downs.decrement_all();
        // Grow the inner-quiet stacks when the counter is active.
        proof {
            crate::effect_tracker::lemma_get_within(
                self.effects.count_ups, Action::InnerQuiet, -1, 9);
        }
        if let Some(stacks) = self.effects.count_ups.get(Action::InnerQuiet) {
            let matches_condition = condition.check_good_or_excellent(self);
            let mut increment: i64 = 0;
            if action == Action::PreparatoryTouch {
                increment = 2;
            } else if action == Action::PreciseTouch && matches_condition {
                let p = condition.p_good_or_excellent();
                proof {
                    lemma_div_pos_is_pos(2 * success_probability * p as int, 10_000);
                    lemma_div_is_ordered(2 * success_probability * p as int, 20_000, 10_000);
                }
                increment = (2 * success_probability * p) / 10000;
                proof {
                    assert(increment == (2 * success_probability as int) / 100);
                }
            } else if details.quality_increase_multiplier > 0 && action != Action::Reflect
                && action != Action::TrainedFinesse {
                increment = success_probability / 100;
                proof {
                    lemma_div_pos_is_pos(success_probability as int, 100);
                    lemma_div_is_ordered(success_probability as int, 100, 100);
                }
            }
            let grown = stacks as i64 + increment;
            // Cap inner quiet at nine stacks.
            let capped = if grown > 9 { 9 } else { grown };
            proof {
                crate::effect_tracker::lemma_insert_wf(
                    self.effects.count_ups, Action::InnerQuiet, capped as i8);
                crate::effect_tracker::lemma_insert_within(
                    self.effects.count_ups, Action::InnerQuiet, capped as i8, -1, 9);
            }
            self.effects.count_ups.insert(Action::InnerQuiet, capped as i8);
        }
        // Register the effect the action itself starts.
        if details.action_type == ActionType::CountUp {
            proof {
                crate::effect_tracker::lemma_insert_wf(self.effects.count_ups, action, 0);
                crate::effect_tracker::lemma_insert_within(
                    self.effects.count_ups, action, 0, -1, 9);
            }
            self.effects.count_ups.insert(action, 0);
        }
        if let ActionType::Countdown { active_turns } = details.action_type {
            if action == Action::MuscleMemory && self.step != 1 {
                self.wasted_actions = self.wasted_actions + 100;
            } else {
                proof {
                    crate::effect_tracker::lemma_insert_wf(
                        self.effects.count_downs, action, active_turns as i8);
                    crate::effect_tracker::lemma_insert_within(
                        self.effects.count_downs, action, active_turns as i8, 1, 9);
                }
                self.effects.count_downs.insert(action, active_turns as i8);
            }
        }
    }

    /// Commit the step's gains and costs, apply the effect phases, and clamp
    /// durability and crafting points; the closing phase of
    /// [`State::add_action`].
    #[verifier::rlimit(100)]
    pub fn update_state(
        &mut self,
        synth: &Synth,
        action: Action,
        progress_gain: i64,
        quality_gain: i64,
        durability_cost: i64,
        cp_cost: i64,
        condition: &SimulationCondition,
        success_probability: i64,
    )
        requires
            synth.wf(),
            condition.ignore_condition,
            old(self).effects_ok(),
            old(self).within(FIELD_LIMIT as int + 20_000),
            old(self).durability_state <= synth.recipe.durability as i64,
            old(self).cp_state <= synth.crafter.craft_points as i64 + old(self).bonus_max_cp,
            old(self).bonus_max_cp == 0,
            old(self).last_step < STEP_LIMIT,
            0 <= progress_gain <= GAIN_LIMIT,
            0 <= quality_gain <= GAIN_LIMIT + synth.recipe.max_quality,
            0 <= durability_cost <= 20,
            0 <= cp_cost <= 250,
            0 <= success_probability <= 100,
        ensures
            *final(self) == old(self).spec_update_state(
                *synth, action, progress_gain, quality_gain, durability_cost, cp_cost,
                success_probability as int),
            final(self).effects_ok(),
            *final(self) == (State {
                durability_state: final(self).durability_state,
                cp_state: final(self).cp_state,
                wasted_actions: final(self).wasted_actions,
                trick_uses: final(self).trick_uses,
                progress_state: final(self).progress_state,
                quality_state: final(self).quality_state,
                last_step: final(self).last_step,
                effects: final(self).effects,
                ..*old(self)
            }),
            final(self).last_step == old(self).last_step + 1,
            final(self).quality_state == old(self).quality_state + quality_gain,
            old(self).progress_state >= 0 ==>
                final(self).progress_state <= old(self).progress_state + progress_gain,
            old(self).progress_state >= 0 ==> final(self).progress_state >= 0,
            final(self).durability_state <= synth.recipe.durability as i64,
            old(self).durability_state - durability_cost <= final(self).durability_state,
            final(self).cp_state
                <= synth.crafter.craft_points as i64 + final(self).bonus_max_cp,
            old(self).cp_state - cp_cost <= final(self).cp_state,
            old(self).wasted_actions <= final(self).wasted_actions
                <= old(self).wasted_actions + 10_300,
            old(self).trick_uses <= final(self).trick_uses <= old(self).trick_uses + 1,
    {
        self.progress_state = self.progress_state + progress_gain;
        self.quality_state = self.quality_state + quality_gain;
        self.durability_state = self.durability_state - durability_cost;
        self.cp_state = self.cp_state - cp_cost;
        self.last_step = self.last_step + 1;
        self.apply_special_action_effects(synth, action, condition);
        self.update_effects_counters(action, condition, success_probability);
        // Clamp durability and crafting points to their maxima.
        self.durability_state = if self.durability_state <= synth.recipe.durability as i64 {
            self.durability_state
        } else {
            synth.recipe.durability as i64
        };
        let cp_ceiling = synth.crafter.craft_points as i64 + self.bonus_max_cp;
        self.cp_state = if self.cp_state <= cp_ceiling { self.cp_state } else { cp_ceiling };
    }

    /// Apply one action to this state and return the next state: the pure,
    /// deterministic transition function of the simulator.
    ///
    /// The returned state is exactly [`State::spec_add_action`] of the
    /// inputs, and it keeps the state invariant: durability never exceeds
    /// the recipe's, crafting points never exceed the crafter's maximum plus
    /// the bonus, inner quiet never exceeds nine stacks, and no effect key
    /// is duplicated.
    #[verifier::rlimit(100)]
    pub fn add_action(
        &self,
        synth: &Synth,
        action: Action,
        sim_condition: &SimulationCondition,
    ) -> (r: State)
        requires
            synth.wf(),
            sim_condition.ignore_condition,
            self.inv(*synth),
            self.bounded(),
            self.step + 1 < STEP_LIMIT,
            self.last_step + 1 < STEP_LIMIT,
        ensures
            r == self.spec_add_action(*synth, action),
            r.inv(*synth),
            r.step == self.step + 1,
            r.last_step == self.last_step + 1,
            r.action == Some(action),
            r.condition == self.condition,
            self.quality_state <= r.quality_state,
            r.quality_state <= self.quality_state + GAIN_LIMIT
                + if self.step == 0 { synth.recipe.max_quality as i64 } else { 0 },
            r.progress_state <= self.progress_state + GAIN_LIMIT,
            self.wasted_actions - 5 <= r.wasted_actions
                <= self.wasted_actions + WASTE_STEP_LIMIT,
            self.cp_state - 1_000 <= r.cp_state,
            self.durability_state - 20 <= r.durability_state,
            self.trick_uses <= r.trick_uses <= self.trick_uses + 1,
    {
        let mut state = *self;
        state.step = state.step + 1;
        let result = state.apply_modifiers(synth, action, sim_condition);
        state.base_quality_gain = result.quality_gain;
        state.base_progress_gain = result.progress_gain;
        let success_probability = result.success_probability;
        let mut progress_gain = result.progress_gain;
        // A step that can fail scales the reliability by its success chance.
        if progress_gain > 0 {
            proof {
                assert(0 <= state.reliability * success_probability <= 100)
                    by (nonlinear_arith)
                    requires 0 <= state.reliability <= 1 && 0 <= success_probability <= 100;
                lemma_div_pos_is_pos(state.reliability * success_probability, 100);
                lemma_div_is_ordered(state.reliability * success_probability, 100, 100);
            }
            state.reliability = (state.reliability * success_probability) / 100;
        }
        proof {
            assert({
                &&& 0 <= success_probability * progress_gain
                    <= 100 * progress_gain
                &&& 0 <= success_probability * result.quality_gain
                    <= 100 * result.quality_gain
            }) by (nonlinear_arith)
                requires 0 <= success_probability <= 100 && 0 <= progress_gain
                    && 0 <= result.quality_gain;
            lemma_div_pos_is_pos(success_probability * progress_gain, 100);
            lemma_div_is_ordered(
                success_probability * progress_gain, 100 * progress_gain, 100);
            lemma_div_multiples_vanish(progress_gain as int, 100);
            lemma_div_pos_is_pos(success_probability * result.quality_gain, 100);
            lemma_div_is_ordered(
                success_probability * result.quality_gain, 100 * result.quality_gain, 100);
            lemma_div_multiples_vanish(result.quality_gain as int, 100);
        }
        progress_gain = (success_probability * progress_gain) / 100;
        // The condition quality multiplier of the deterministic model is one.
        let quality_gain = (success_probability * result.quality_gain) / 100;
        state.update_state(
            synth,
            action,
            progress_gain,
            quality_gain,
            result.durability_cost,
            result.cp_cost,
            sim_condition,
            success_probability,
        );
        state.action = Some(action);
        state
    }

    /// One full deterministic step: apply an action to this state and return
    /// the next state.
    pub open spec fn spec_add_action(self, synth: Synth, action: Action) -> State {
        let stepped = State { step: (self.step + 1) as u32, ..self };
        let (modified, result) = stepped.spec_apply_modifiers(synth, action);
        let recorded = State {
            base_quality_gain: result.quality_gain,
            base_progress_gain: result.progress_gain,
            ..modified
        };
        // A step that can fail scales the reliability by its success chance.
        let reliable = if result.progress_gain > 0 {
            State {
                reliability: ((recorded.reliability * result.success_probability) / 100) as i64,
                ..recorded
            }
        } else { recorded };
        let progress_gain = (result.success_probability * result.progress_gain) / 100;
        // The condition quality multiplier of the deterministic model is one.
        let quality_gain = (result.success_probability * result.quality_gain) / 100;
        let committed = reliable.spec_update_state(
            synth,
            action,
            progress_gain as i64,
            quality_gain as i64,
            result.durability_cost,
            result.cp_cost,
            result.success_probability as int,
        );
        State { action: Some(action), ..committed }
    }
}

/// The base progress and quality increases stay within twenty million under
/// the model's machine limits.
pub proof fn lemma_base_increase_bounds(synth: Synth, eff: u32)
    requires
        synth.wf(),
    ensures
        0 <= synth.spec_base_progress_increase(eff, synth.crafter.craftsmanship)
            <= 20_000_000,
        0 <= synth.spec_base_quality_increase(eff, synth.crafter.control) <= 20_000_000,
{
    let pd = synth.recipe.progress_divider as int;
    let pnum = 10 * synth.crafter.craftsmanship as int + 2 * pd;
    if eff <= synth.recipe.level {
        let m = Synth::spec_modifier(synth.recipe.progress_modifier);
        assert(0 <= pnum * m <= 1_020_000_000) by (nonlinear_arith)
            requires 0 <= pnum <= 1_020_000 && 1 <= m <= 1_000;
        lemma_div_pos_is_pos(pnum * m, 100 * pd);
        lemma_div_is_ordered_by_denominator(pnum * m, 100, 100 * pd);
        lemma_div_is_ordered(pnum * m, 1_020_000_000int, 100);
    } else {
        lemma_div_pos_is_pos(pnum, pd);
        lemma_div_nonincreasing(pnum, pd);
    }
    let qd = synth.recipe.quality_divider as int;
    let qnum = 10 * synth.crafter.control as int + 35 * qd;
    if eff <= synth.recipe.base_level {
        let m = Synth::spec_modifier(synth.recipe.quality_modifier);
        assert(0 <= qnum * m <= 1_350_000_000) by (nonlinear_arith)
            requires 0 <= qnum <= 1_350_000 && 1 <= m <= 1_000;
        lemma_div_pos_is_pos(qnum * m, 100 * qd);
        lemma_div_is_ordered_by_denominator(qnum * m, 100, 100 * qd);
        lemma_div_is_ordered(qnum * m, 1_350_000_000int, 100);
    } else {
        lemma_div_pos_is_pos(qnum, qd);
        lemma_div_nonincreasing(qnum, qd);
    }
}

/// Trained Finesse demands the full nine inner-quiet stacks: with fewer (or
/// none), the step yields no quality at all.
#[verifier::rlimit(100)]
pub proof fn lemma_trained_finesse_needs_full_stacks(s: State, synth: Synth)
    requires
        synth.wf(),
        s.inv(synth),
        s.bounded(),
        s.effects.count_ups.spec_get(Action::InnerQuiet) matches Some(v) ==> v < 9,
    ensures
        s.spec_add_action(synth, Action::TrainedFinesse).base_quality_gain == 0,
        s.spec_add_action(synth, Action::TrainedFinesse).quality_state == s.quality_state,
{
    reveal(Action::spec_details);
    let stepped = State { step: (s.step + 1) as u32, ..s };
    let (prepared, scratch) = stepped.spec_modifiers_bookkeeping(synth, Action::TrainedFinesse);
    assert(scratch.num_iq != 9);
    let (modified, result) = prepared.spec_modifiers_gains(
        synth, Action::TrainedFinesse, scratch);
    assert(result.quality_gain == 0);
    lemma_div_of0(100);
}

/// Byregot's Blessing without an inner-quiet stack yields no quality.
#[verifier::rlimit(100)]
pub proof fn lemma_byregots_needs_inner_quiet(s: State, synth: Synth)
    requires
        synth.wf(),
        s.inv(synth),
        s.bounded(),
        s.effects.count_ups.spec_get(Action::InnerQuiet) matches Some(v) ==> v < 1,
    ensures
        s.spec_add_action(synth, Action::ByregotsBlessing).base_quality_gain == 0,
        s.spec_add_action(synth, Action::ByregotsBlessing).quality_state == s.quality_state,
{
    reveal(Action::spec_details);
    let stepped = State { step: (s.step + 1) as u32, ..s };
    let (prepared, scratch) = stepped.spec_modifiers_bookkeeping(
        synth, Action::ByregotsBlessing);
    assert(scratch.quality_mult == 0);
    let (modified, result) = prepared.spec_modifiers_gains(
        synth, Action::ByregotsBlessing, scratch);
    let eff = spec_level_table_lookup(synth.crafter.level);
    let base_quality = synth.spec_base_quality_increase(eff, synth.crafter.control);
    assert(base_quality * 100 * 0 * scratch.byregot_mult * scratch.iq_mult == 0)
        by (nonlinear_arith);
    lemma_div_of0(100000000);
    assert(result.quality_gain == 0);
    lemma_div_of0(100);
}

/// Master's Mend in a solve-for-completion run restores thirty durability
/// and also books fifty wasted actions.
#[verifier::rlimit(100)]
pub proof fn lemma_masters_mend_completion(s: State, synth: Synth)
    requires
        synth.wf(),
        s.inv(synth),
        s.bounded(),
        synth.solver_vars.solve_for_completion,
        s.effects.count_downs.spec_get(Action::Manipulation) is None,
        s.durability_state + 30 <= synth.recipe.durability,
    ensures
        s.spec_add_action(synth, Action::MastersMend).durability_state
            == s.durability_state + 30,
        s.spec_add_action(synth, Action::MastersMend).wasted_actions
            == s.wasted_actions + 5000,
{
    reveal(Action::spec_details);
    let stepped = State { step: (s.step + 1) as u32, ..s };
    let (prepared, scratch) = stepped.spec_modifiers_bookkeeping(synth, Action::MastersMend);
    let (modified, result) = prepared.spec_modifiers_gains(synth, Action::MastersMend, scratch);
    assert(result.durability_cost == 0);
    assert(modified.wasted_actions == s.wasted_actions);
    lemma_div_of0(100);
    lemma_div_of0(10000);
    assert(result.progress_gain == 0) by {
        let eff = spec_level_table_lookup(synth.crafter.level);
        let base_progress = synth.spec_base_progress_increase(
            eff, synth.crafter.craftsmanship);
        assert(base_progress * 0 * scratch.progress_mult == 0) by (nonlinear_arith);
    }
    assert(result.quality_gain == 0) by {
        let eff = spec_level_table_lookup(synth.crafter.level);
        let base_quality = synth.spec_base_quality_increase(eff, synth.crafter.control);
        assert(base_quality * 0 * scratch.quality_mult * scratch.byregot_mult
            * scratch.iq_mult == 0) by (nonlinear_arith);
    }
}

/// Groundwork with too little durability for its cost still pays the full
/// durability cost but yields only half the progress it would otherwise
/// give.
#[verifier::rlimit(100)]
pub proof fn lemma_groundwork_shortfall(s: State, synth: Synth)
    requires
        synth.wf(),
        s.inv(synth),
        s.bounded(),
        s.step >= 1,
        s.durability_state < 20,
        s.effects.count_downs.spec_get(Action::WasteNot) is None,
        s.effects.count_downs.spec_get(Action::WasteNot2) is None,
        s.effects.count_downs.spec_get(Action::Manipulation) is None,
        s.effects.count_downs.spec_get(Action::MuscleMemory) is None,
        s.effects.count_downs.spec_get(Action::Veneration) is None,
        s.effects.count_downs.spec_get(Action::FinalAppraisal) is None,
        s.progress_state < synth.recipe.difficulty,
    ensures
        ({
            let eff = spec_level_table_lookup(synth.crafter.level);
            let unimpeded = (synth.spec_base_progress_increase(eff, synth.crafter.craftsmanship)
                * 300 * 100) / 10000;
            let r = s.spec_add_action(synth, Action::Groundwork);
            &&& r.base_progress_gain == unimpeded / 2
            &&& r.durability_state == s.durability_state - 20
            &&& r.progress_state == s.progress_state + unimpeded / 2
        }),
{
    reveal(Action::spec_details);
    let stepped = State { step: (s.step + 1) as u32, ..s };
    let (prepared, scratch) = stepped.spec_modifiers_bookkeeping(synth, Action::Groundwork);
    assert(scratch.progress_mult == 100);
    let (modified, result) = prepared.spec_modifiers_gains(synth, Action::Groundwork, scratch);
    let eff = spec_level_table_lookup(synth.crafter.level);
    let base = synth.spec_base_progress_increase(eff, synth.crafter.craftsmanship);
    lemma_base_increase_bounds(synth, eff);
    assert(0 <= base * 300 * 100 <= 600_000_000_000) by (nonlinear_arith)
        requires 0 <= base <= 20_000_000;
    lemma_div_pos_is_pos(base * 300 * 100, 10000);
    lemma_div_is_ordered(base * 300 * 100, 600_000_000_000int, 10000);
    let unimpeded = (base * 300 * 100) / 10000;
    lemma_div_pos_is_pos(unimpeded, 2);
    lemma_div_nonincreasing(unimpeded, 2);
    assert(result.durability_cost == 20);
    assert(result.progress_gain == unimpeded / 2);
    // Success probability one commits the halved gain in full.
    lemma_div_multiples_vanish(unimpeded / 2, 100);
    assert((100 * (unimpeded / 2)) / 100 == unimpeded / 2);
    assert(result.success_probability * result.progress_gain
        == 100 * (unimpeded / 2));
    // With no Final Appraisal buff the committed progress is not clamped,
    // and durability only drops, so its clamp does not bind either.
    let r = s.spec_add_action(synth, Action::Groundwork);
    assert(r.durability_state == s.durability_state - 20);
}

/// Muscle Memory anywhere but the first step degrades to a penalized no-op:
/// progress, quality, crafting points and trick uses are untouched, the
/// wasted-action counter grows by eleven units, and no Muscle Memory buff
/// is left behind.
#[verifier::rlimit(100)]
pub proof fn lemma_muscle_memory_misuse(s: State, synth: Synth)
    requires
        synth.wf(),
        s.inv(synth),
        s.bounded(),
        s.step >= 1,
        s.progress_state < synth.recipe.difficulty,
        s.effects.count_downs.spec_get(Action::Manipulation) is None
            || !synth.solver_vars.solve_for_completion,
    ensures
        ({
            let r = s.spec_add_action(synth, Action::MuscleMemory);
            &&& r.quality_state == s.quality_state
            &&& r.progress_state == s.progress_state
            &&& r.cp_state == s.cp_state
            &&& r.trick_uses == s.trick_uses
            &&& r.wasted_actions == s.wasted_actions + 1100
            &&& r.base_progress_gain == 0
            &&& r.base_quality_gain == 0
            &&& r.effects.count_downs.spec_get(Action::MuscleMemory) is None
        }),
{
    reveal(Action::spec_details);
    let stepped = State { step: (s.step + 1) as u32, ..s };
    let (prepared, scratch) = stepped.spec_modifiers_bookkeeping(synth, Action::MuscleMemory);
    assert(scratch.progress_mult == 0);
    assert(scratch.cp_cost == 0);
    assert(prepared.wasted_actions == s.wasted_actions + 1000);
    let (modified, result) = prepared.spec_modifiers_gains(synth, Action::MuscleMemory, scratch);
    let eff = spec_level_table_lookup(synth.crafter.level);
    let base_progress = synth.spec_base_progress_increase(eff, synth.crafter.craftsmanship);
    assert(base_progress * 300 * 0 == 0) by (nonlinear_arith);
    lemma_div_of0(10000);
    assert(result.progress_gain == 0);
    assert(result.quality_gain == 0) by {
        let base_quality = synth.spec_base_quality_increase(eff, synth.crafter.control);
        assert(base_quality * 0 * scratch.quality_mult * scratch.byregot_mult
            * scratch.iq_mult == 0) by (nonlinear_arith);
        lemma_div_of0(100000000);
    }
    assert(result.cp_cost == 0);
    lemma_div_of0(100);
    // The countdown store never regains the consumed buff.
    reveal(EffectData::spec_get);
    reveal(EffectData::spec_remove);
    reveal(EffectData::spec_insert);
    reveal(EffectData::spec_decrement_all);
}

} // verus!
