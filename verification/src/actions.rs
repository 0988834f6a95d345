//! The closed catalog of crafting actions and their static descriptors.
//!
//! Every action kind carries a fixed descriptor: durability cost, crafting
//! point cost, success probability, quality and progress multipliers, its
//! effect type (immediate, count-up, or countdown), level requirement and the
//! flags restricting it to Good or Excellent conditions.
//!
//! All rates are integers: success probabilities are percentages (100 = always
//! succeeds) and the two gain multipliers are in hundredths (150 = x1.5), so
//! the simulator can use exact integer arithmetic with floor semantics.

use vstd::prelude::*;

verus! {

/// How an action's effect behaves over time: a one-shot effect, a counter
/// that other actions increment, or a buff that ticks down each step.
#[derive(Copy, Clone, Debug, PartialEq, Eq, Structural)]
pub enum ActionType {
    Immediate,
    CountUp,
    Countdown {
        /// number of turns this countdown is active for
        active_turns: i64,
    },
}

impl Default for ActionType {
    fn default() -> (r: Self)
        ensures
            r == ActionType::Immediate,
    {
        ActionType::Immediate
    }
}

/// The action kinds a crafter may use.
#[derive(Copy, Clone, Debug, PartialEq, Eq, Structural)]
pub enum Action {
    Observe,
    BasicSynth,
    BasicSynth2,
    CarefulSynthesis,
    RapidSynthesis,
    BasicTouch,
    StandardTouch,
    HastyTouch,
    ByregotsBlessing,
    MastersMend,
    TricksOfTheTrade,
    InnerQuiet,
    Manipulation,
    WasteNot,
    WasteNot2,
    Veneration,
    Innovation,
    GreatStrides,
    PreciseTouch,
    MuscleMemory,
    RapidSynthesis2,
    PrudentTouch,
    FocusedSynthesis,
    FocusedTouch,
    Reflect,
    PreparatoryTouch,
    Groundwork,
    DelicateSynthesis,
    IntensiveSynthesis,
    TrainedEye,
    CarefulSynthesis2,
    Groundwork2,
    AdvancedTouch,
    PrudentSynthesis,
    TrainedFinesse,
    FinalAppraisal,
    Edit,
    FocusedTouchCombo,
    FocusedSynthesisCombo,
}

/// The actions a combined action stands for, in the order they would be
/// performed one by one.
#[derive(Clone, Debug, PartialEq)]
pub struct Combo {
    pub actions: Vec<Action>,
}

/// Static descriptor of one action kind.
///
/// `success_probability` is a percentage; `quality_increase_multiplier` and
/// `progress_increase_multiplier` are in hundredths.
#[derive(Copy, Clone, Debug, PartialEq, Eq, Structural)]
pub struct ActionDetails {
    pub durability_cost: i64,
    pub cp_cost: i64,
    pub success_probability: i64,
    pub quality_increase_multiplier: i64,
    pub progress_increase_multiplier: i64,
    pub action_type: ActionType,
    pub level: i64,
    pub on_good: bool,
    pub on_excellent: bool,
}

/// Descriptor constructor with the fields every entry of the catalog sets;
/// `on_good` and `on_excellent` default to false.
pub open spec fn entry(
    durability_cost: i64,
    cp_cost: i64,
    success_probability: i64,
    quality_increase_multiplier: i64,
    progress_increase_multiplier: i64,
    action_type: ActionType,
    level: i64,
) -> ActionDetails {
    ActionDetails {
        durability_cost,
        cp_cost,
        success_probability,
        quality_increase_multiplier,
        progress_increase_multiplier,
        action_type,
        level,
        on_good: false,
        on_excellent: false,
    }
}

impl Action {
    /// The static descriptor of this action.
    #[verifier::opaque]
    pub open spec fn spec_details(self) -> ActionDetails {
        match self {
            Action::Observe => entry(0, 7, 100, 0, 0, ActionType::Immediate, 13),
            Action::BasicSynth => entry(10, 0, 100, 0, 100, ActionType::Immediate, 1),
            Action::BasicSynth2 => entry(10, 0, 100, 0, 120, ActionType::Immediate, 31),
            Action::CarefulSynthesis => entry(10, 7, 100, 0, 150, ActionType::Immediate, 62),
            Action::RapidSynthesis => entry(10, 0, 50, 0, 250, ActionType::Immediate, 9),
            Action::BasicTouch => entry(10, 18, 100, 100, 0, ActionType::Immediate, 5),
            Action::StandardTouch => entry(10, 32, 100, 125, 0, ActionType::Immediate, 18),
            Action::HastyTouch => entry(10, 0, 60, 100, 0, ActionType::Immediate, 9),
            Action::ByregotsBlessing => entry(10, 24, 100, 100, 0, ActionType::Immediate, 50),
            Action::MastersMend => entry(0, 88, 100, 0, 0, ActionType::Immediate, 7),
            Action::TricksOfTheTrade => ActionDetails {
                on_good: true,
                on_excellent: true,
                ..entry(0, 0, 100, 0, 0, ActionType::Immediate, 13)
            },
            Action::InnerQuiet => entry(0, 18, 100, 0, 0, ActionType::CountUp, 11),
            Action::Manipulation => entry(
                0, 96, 100, 0, 0, ActionType::Countdown { active_turns: 8 }, 65),
            Action::WasteNot => entry(
                0, 56, 100, 0, 0, ActionType::Countdown { active_turns: 4 }, 15),
            Action::WasteNot2 => entry(
                0, 98, 100, 0, 0, ActionType::Countdown { active_turns: 8 }, 47),
            Action::Veneration => entry(
                0, 18, 100, 0, 0, ActionType::Countdown { active_turns: 4 }, 15),
            Action::Innovation => entry(
                0, 18, 100, 0, 0, ActionType::Countdown { active_turns: 4 }, 26),
            Action::GreatStrides => entry(
                0, 32, 100, 0, 0, ActionType::Countdown { active_turns: 3 }, 21),
            Action::PreciseTouch => ActionDetails {
                on_good: true,
                on_excellent: true,
                ..entry(10, 18, 100, 150, 0, ActionType::Immediate, 53)
            },
            Action::MuscleMemory => entry(
                10, 6, 100, 0, 300, ActionType::Countdown { active_turns: 5 }, 54),
            Action::RapidSynthesis2 => entry(10, 0, 50, 0, 500, ActionType::Immediate, 63),
            Action::PrudentTouch => entry(5, 25, 100, 100, 0, ActionType::Immediate, 66),
            Action::FocusedSynthesis => entry(10, 5, 50, 0, 200, ActionType::Immediate, 67),
            Action::FocusedTouch => entry(10, 18, 50, 150, 0, ActionType::Immediate, 68),
            Action::Reflect => entry(10, 6, 100, 100, 0, ActionType::Immediate, 69),
            Action::PreparatoryTouch => entry(20, 40, 100, 200, 0, ActionType::Immediate, 71),
            Action::Groundwork => entry(20, 18, 100, 0, 300, ActionType::Immediate, 72),
            Action::DelicateSynthesis => entry(10, 32, 100, 100, 100, ActionType::Immediate, 76),
            Action::IntensiveSynthesis => ActionDetails {
                on_good: true,
                on_excellent: true,
                ..entry(10, 6, 100, 0, 400, ActionType::Immediate, 78)
            },
            Action::TrainedEye => entry(10, 250, 100, 0, 0, ActionType::Immediate, 80),
            Action::CarefulSynthesis2 => entry(10, 7, 100, 0, 180, ActionType::Immediate, 82),
            Action::Groundwork2 => entry(20, 18, 100, 0, 360, ActionType::Immediate, 86),
            Action::AdvancedTouch => entry(10, 46, 100, 150, 0, ActionType::Immediate, 84),
            Action::PrudentSynthesis => entry(5, 18, 100, 0, 180, ActionType::Immediate, 88),
            Action::TrainedFinesse => entry(0, 32, 100, 100, 0, ActionType::Immediate, 90),
            Action::FinalAppraisal => entry(
                0, 1, 100, 0, 0, ActionType::Countdown { active_turns: 5 }, 42),
            Action::Edit => entry(0, 0, 100, 0, 0, ActionType::Immediate, 1),
            Action::FocusedTouchCombo => entry(10, 25, 100, 150, 0, ActionType::Immediate, 68),
            Action::FocusedSynthesisCombo => entry(10, 12, 100, 0, 200, ActionType::Immediate, 67),
        }
    }

    pub fn details(&self) -> (r: ActionDetails)
        ensures
            r == self.spec_details(),
    {
        proof {
            reveal(Action::spec_details);
        }
        match self {
            Action::Observe => ActionDetails {
                durability_cost: 0,
                cp_cost: 7,
                success_probability: 100,
                quality_increase_multiplier: 0,
                progress_increase_multiplier: 0,
                action_type: ActionType::Immediate,
                level: 13,
                on_good: false,
                on_excellent: false,
            },
            Action::BasicSynth => ActionDetails {
                durability_cost: 10,
                cp_cost: 0,
                success_probability: 100,
                quality_increase_multiplier: 0,
                progress_increase_multiplier: 100,
                action_type: ActionType::Immediate,
                level: 1,
                on_good: false,
                on_excellent: false,
            },
            Action::BasicSynth2 => ActionDetails {
                durability_cost: 10,
                cp_cost: 0,
                success_probability: 100,
                quality_increase_multiplier: 0,
                progress_increase_multiplier: 120,
                action_type: ActionType::Immediate,
                level: 31,
                on_good: false,
                on_excellent: false,
            },
            Action::CarefulSynthesis => ActionDetails {
                durability_cost: 10,
                cp_cost: 7,
                success_probability: 100,
                quality_increase_multiplier: 0,
                progress_increase_multiplier: 150,
                action_type: ActionType::Immediate,
                level: 62,
                on_good: false,
                on_excellent: false,
            },
            Action::RapidSynthesis => ActionDetails {
                durability_cost: 10,
                cp_cost: 0,
                success_probability: 50,
                quality_increase_multiplier: 0,
                progress_increase_multiplier: 250,
                action_type: ActionType::Immediate,
                level: 9,
                on_good: false,
                on_excellent: false,
            },
            Action::BasicTouch => ActionDetails {
                durability_cost: 10,
                cp_cost: 18,
                success_probability: 100,
                quality_increase_multiplier: 100,
                progress_increase_multiplier: 0,
                action_type: ActionType::Immediate,
                level: 5,
                on_good: false,
                on_excellent: false,
            },
            Action::StandardTouch => ActionDetails {
                durability_cost: 10,
                cp_cost: 32,
                success_probability: 100,
                quality_increase_multiplier: 125,
                progress_increase_multiplier: 0,
                action_type: ActionType::Immediate,
                level: 18,
                on_good: false,
                on_excellent: false,
            },
            Action::HastyTouch => ActionDetails {
                durability_cost: 10,
                cp_cost: 0,
                success_probability: 60,
                quality_increase_multiplier: 100,
                progress_increase_multiplier: 0,
                action_type: ActionType::Immediate,
                level: 9,
                on_good: false,
                on_excellent: false,
            },
            Action::ByregotsBlessing => ActionDetails {
                durability_cost: 10,
                cp_cost: 24,
                success_probability: 100,
                quality_increase_multiplier: 100,
                progress_increase_multiplier: 0,
                action_type: ActionType::Immediate,
                level: 50,
                on_good: false,
                on_excellent: false,
            },
            Action::MastersMend => ActionDetails {
                durability_cost: 0,
                cp_cost: 88,
                success_probability: 100,
                quality_increase_multiplier: 0,
                progress_increase_multiplier: 0,
                action_type: ActionType::Immediate,
                level: 7,
                on_good: false,
                on_excellent: false,
            },
            Action::TricksOfTheTrade => ActionDetails {
                durability_cost: 0,
                cp_cost: 0,
                success_probability: 100,
                quality_increase_multiplier: 0,
                progress_increase_multiplier: 0,
                action_type: ActionType::Immediate,
                level: 13,
                on_good: true,
                on_excellent: true,
            },
            Action::InnerQuiet => ActionDetails {
                durability_cost: 0,
                cp_cost: 18,
                success_probability: 100,
                quality_increase_multiplier: 0,
                progress_increase_multiplier: 0,
                action_type: ActionType::CountUp,
                level: 11,
                on_good: false,
                on_excellent: false,
            },
            Action::Manipulation => ActionDetails {
                durability_cost: 0,
                cp_cost: 96,
                success_probability: 100,
                quality_increase_multiplier: 0,
                progress_increase_multiplier: 0,
                action_type: ActionType::Countdown { active_turns: 8 },
                level: 65,
                on_good: false,
                on_excellent: false,
            },
            Action::WasteNot => ActionDetails {
                durability_cost: 0,
                cp_cost: 56,
                success_probability: 100,
                quality_increase_multiplier: 0,
                progress_increase_multiplier: 0,
                action_type: ActionType::Countdown { active_turns: 4 },
                level: 15,
                on_good: false,
                on_excellent: false,
            },
            Action::WasteNot2 => ActionDetails {
                durability_cost: 0,
                cp_cost: 98,
                success_probability: 100,
                quality_increase_multiplier: 0,
                progress_increase_multiplier: 0,
                action_type: ActionType::Countdown { active_turns: 8 },
                level: 47,
                on_good: false,
                on_excellent: false,
            },
            Action::Veneration => ActionDetails {
                durability_cost: 0,
                cp_cost: 18,
                success_probability: 100,
                quality_increase_multiplier: 0,
                progress_increase_multiplier: 0,
                action_type: ActionType::Countdown { active_turns: 4 },
                level: 15,
                on_good: false,
                on_excellent: false,
            },
            Action::Innovation => ActionDetails {
                durability_cost: 0,
                cp_cost: 18,
                success_probability: 100,
                quality_increase_multiplier: 0,
                progress_increase_multiplier: 0,
                action_type: ActionType::Countdown { active_turns: 4 },
                level: 26,
                on_good: false,
                on_excellent: false,
            },
            Action::GreatStrides => ActionDetails {
                durability_cost: 0,
                cp_cost: 32,
                success_probability: 100,
                quality_increase_multiplier: 0,
                progress_increase_multiplier: 0,
                action_type: ActionType::Countdown { active_turns: 3 },
                level: 21,
                on_good: false,
                on_excellent: false,
            },
            Action::PreciseTouch => ActionDetails {
                durability_cost: 10,
                cp_cost: 18,
                success_probability: 100,
                quality_increase_multiplier: 150,
                progress_increase_multiplier: 0,
                action_type: ActionType::Immediate,
                level: 53,
                on_good: true,
                on_excellent: true,
            },
            Action::MuscleMemory => ActionDetails {
                durability_cost: 10,
                cp_cost: 6,
                success_probability: 100,
                quality_increase_multiplier: 0,
                progress_increase_multiplier: 300,
                action_type: ActionType::Countdown { active_turns: 5 },
                level: 54,
                on_good: false,
                on_excellent: false,
            },
            Action::RapidSynthesis2 => ActionDetails {
                durability_cost: 10,
                cp_cost: 0,
                success_probability: 50,
                quality_increase_multiplier: 0,
                progress_increase_multiplier: 500,
                action_type: ActionType::Immediate,
                level: 63,
                on_good: false,
                on_excellent: false,
            },
            Action::PrudentTouch => ActionDetails {
                durability_cost: 5,
                cp_cost: 25,
                success_probability: 100,
                quality_increase_multiplier: 100,
                progress_increase_multiplier: 0,
                action_type: ActionType::Immediate,
                level: 66,
                on_good: false,
                on_excellent: false,
            },
            Action::FocusedSynthesis => ActionDetails {
                durability_cost: 10,
                cp_cost: 5,
                success_probability: 50,
                quality_increase_multiplier: 0,
                progress_increase_multiplier: 200,
                action_type: ActionType::Immediate,
                level: 67,
                on_good: false,
                on_excellent: false,
            },
            Action::FocusedTouch => ActionDetails {
                durability_cost: 10,
                cp_cost: 18,
                success_probability: 50,
                quality_increase_multiplier: 150,
                progress_increase_multiplier: 0,
                action_type: ActionType::Immediate,
                level: 68,
                on_good: false,
                on_excellent: false,
            },
            Action::Reflect => ActionDetails {
                durability_cost: 10,
                cp_cost: 6,
                success_probability: 100,
                quality_increase_multiplier: 100,
                progress_increase_multiplier: 0,
                action_type: ActionType::Immediate,
                level: 69,
                on_good: false,
                on_excellent: false,
            },
            Action::PreparatoryTouch => ActionDetails {
                durability_cost: 20,
                cp_cost: 40,
                success_probability: 100,
                quality_increase_multiplier: 200,
                progress_increase_multiplier: 0,
                action_type: ActionType::Immediate,
                level: 71,
                on_good: false,
                on_excellent: false,
            },
            Action::Groundwork => ActionDetails {
                durability_cost: 20,
                cp_cost: 18,
                success_probability: 100,
                quality_increase_multiplier: 0,
                progress_increase_multiplier: 300,
                action_type: ActionType::Immediate,
                level: 72,
                on_good: false,
                on_excellent: false,
            },
            Action::DelicateSynthesis => ActionDetails {
                durability_cost: 10,
                cp_cost: 32,
                success_probability: 100,
                quality_increase_multiplier: 100,
                progress_increase_multiplier: 100,
                action_type: ActionType::Immediate,
                level: 76,
                on_good: false,
                on_excellent: false,
            },
            Action::IntensiveSynthesis => ActionDetails {
                durability_cost: 10,
                cp_cost: 6,
                success_probability: 100,
                quality_increase_multiplier: 0,
                progress_increase_multiplier: 400,
                action_type: ActionType::Immediate,
                level: 78,
                on_good: true,
                on_excellent: true,
            },
            Action::TrainedEye => ActionDetails {
                durability_cost: 10,
                cp_cost: 250,
                success_probability: 100,
                quality_increase_multiplier: 0,
                progress_increase_multiplier: 0,
                action_type: ActionType::Immediate,
                level: 80,
                on_good: false,
                on_excellent: false,
            },
            Action::CarefulSynthesis2 => ActionDetails {
                durability_cost: 10,
                cp_cost: 7,
                success_probability: 100,
                quality_increase_multiplier: 0,
                progress_increase_multiplier: 180,
                action_type: ActionType::Immediate,
                level: 82,
                on_good: false,
                on_excellent: false,
            },
            Action::Groundwork2 => ActionDetails {
                durability_cost: 20,
                cp_cost: 18,
                success_probability: 100,
                quality_increase_multiplier: 0,
                progress_increase_multiplier: 360,
                action_type: ActionType::Immediate,
                level: 86,
                on_good: false,
                on_excellent: false,
            },
            Action::AdvancedTouch => ActionDetails {
                durability_cost: 10,
                cp_cost: 46,
                success_probability: 100,
                quality_increase_multiplier: 150,
                progress_increase_multiplier: 0,
                action_type: ActionType::Immediate,
                level: 84,
                on_good: false,
                on_excellent: false,
            },
            Action::PrudentSynthesis => ActionDetails {
                durability_cost: 5,
                cp_cost: 18,
                success_probability: 100,
                quality_increase_multiplier: 0,
                progress_increase_multiplier: 180,
                action_type: ActionType::Immediate,
                level: 88,
                on_good: false,
                on_excellent: false,
            },
            Action::TrainedFinesse => ActionDetails {
                durability_cost: 0,
                cp_cost: 32,
                success_probability: 100,
                quality_increase_multiplier: 100,
                progress_increase_multiplier: 0,
                action_type: ActionType::Immediate,
                level: 90,
                on_good: false,
                on_excellent: false,
            },
            Action::FinalAppraisal => ActionDetails {
                durability_cost: 0,
                cp_cost: 1,
                success_probability: 100,
                quality_increase_multiplier: 0,
                progress_increase_multiplier: 0,
                action_type: ActionType::Countdown { active_turns: 5 },
                level: 42,
                on_good: false,
                on_excellent: false,
            },
            Action::Edit => ActionDetails {
                durability_cost: 0,
                cp_cost: 0,
                success_probability: 100,
                quality_increase_multiplier: 0,
                progress_increase_multiplier: 0,
                action_type: ActionType::Immediate,
                level: 1,
                on_good: false,
                on_excellent: false,
            },
            Action::FocusedTouchCombo => ActionDetails {
                durability_cost: 10,
                cp_cost: 25,
                success_probability: 100,
                quality_increase_multiplier: 150,
                progress_increase_multiplier: 0,
                action_type: ActionType::Immediate,
                level: 68,
                on_good: false,
                on_excellent: false,
            },
            Action::FocusedSynthesisCombo => ActionDetails {
                durability_cost: 10,
                cp_cost: 12,
                success_probability: 100,
                quality_increase_multiplier: 0,
                progress_increase_multiplier: 200,
                action_type: ActionType::Immediate,
                level: 67,
                on_good: false,
                on_excellent: false,
            },
        }
    }

    /// The component actions a combined action stands for, if any.
    pub open spec fn spec_combo(self) -> Option<Seq<Action>> {
        match self {
            Action::FocusedTouchCombo => Some(
                seq![Action::Observe, Action::FocusedTouch],
            ),
            Action::FocusedSynthesisCombo => Some(
                seq![Action::Observe, Action::FocusedSynthesis],
            ),
            _ => None,
        }
    }

    pub fn combo(&self) -> (r: Option<Combo>)
        ensures
            r is Some <==> self.spec_combo() is Some,
            r matches Some(c) ==> Some(c.actions@) == self.spec_combo(),
    {
        match self {
            Action::FocusedTouchCombo => {
                let mut actions: Vec<Action> = Vec::new();
                actions.push(Action::Observe);
                actions.push(Action::FocusedTouch);
                assert(actions@ =~= seq![Action::Observe, Action::FocusedTouch]);
                Some(Combo { actions })
            },
            Action::FocusedSynthesisCombo => {
                let mut actions: Vec<Action> = Vec::new();
                actions.push(Action::Observe);
                actions.push(Action::FocusedSynthesis);
                assert(actions@ =~= seq![Action::Observe, Action::FocusedSynthesis]);
                Some(Combo { actions })
            },
            _ => None,
        }
    }
}

} // verus!
