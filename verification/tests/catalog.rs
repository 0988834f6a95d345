use xiv_crafting_sim::actions::{Action, ActionType};
use xiv_crafting_sim::effect_tracker::EffectData;
use xiv_crafting_sim::genome::CraftActionGenomeBuilder;
use xiv_crafting_sim::level_table::level_table_lookup;
use xiv_crafting_sim::mutator::apply_mutation_op;
use xiv_crafting_sim::simulator::{
    get_actions_list, get_final_actions_list, progress_report, success_report, SimStep,
    StatusState,
};
use xiv_crafting_sim::xiv_model::{Crafter, Recipe, SolverVars, State, Synth, Violations};

fn smol_synth() -> Synth {
    Synth {
        crafter: Crafter {
            craftsmanship: 100,
            control: 100,
            craft_points: 180,
            level: 9,
            specialist: false,
            actions: vec![Action::BasicSynth, Action::BasicTouch, Action::MastersMend],
        },
        recipe: Recipe {
            base_level: 10,
            level: 10,
            difficulty: 45,
            durability: 60,
            safety_margin: 0,
            start_quality: 0,
            max_quality: 250,
            suggested_craftsmanship: 59,
            suggested_control: 29,
            progress_divider: 50,
            progress_modifier: Some(100),
            quality_divider: 30,
            quality_modifier: Some(100),
            stars: None,
        },
        max_trick_uses: 0,
        reliability_percent: 100,
        max_length: 0,
        solver_vars: SolverVars {
            solve_for_completion: false,
            remainder_cp_fitness_value: 10,
            remainder_dur_fitness_value: 100,
            max_stagnation_counter: 25,
            population: 10000,
            generations: 1000,
        },
    }
}

fn endgame_synth() -> Synth {
    Synth {
        crafter: Crafter {
            craftsmanship: 5000,
            control: 5000,
            craft_points: 800,
            level: 90,
            specialist: false,
            actions: vec![
                Action::MuscleMemory,
                Action::Reflect,
                Action::TrainedEye,
                Action::BasicSynth2,
                Action::CarefulSynthesis2,
                Action::Groundwork2,
                Action::IntensiveSynthesis,
                Action::PrudentSynthesis,
                Action::DelicateSynthesis,
                Action::FocusedSynthesisCombo,
                Action::FocusedTouchCombo,
                Action::BasicTouch,
                Action::StandardTouch,
                Action::AdvancedTouch,
                Action::ByregotsBlessing,
                Action::PreciseTouch,
                Action::PrudentTouch,
                Action::PreparatoryTouch,
                Action::TrainedFinesse,
                Action::TricksOfTheTrade,
                Action::MastersMend,
                Action::WasteNot,
                Action::WasteNot2,
                Action::Manipulation,
                Action::Veneration,
                Action::GreatStrides,
                Action::Innovation,
                Action::Observe,
            ],
        },
        recipe: Recipe {
            base_level: 90,
            level: 560,
            difficulty: 2625,
            durability: 80,
            safety_margin: 0,
            start_quality: 0,
            max_quality: 4320,
            suggested_craftsmanship: 2805,
            suggested_control: 2635,
            progress_divider: 130,
            progress_modifier: Some(90),
            quality_divider: 115,
            quality_modifier: Some(80),
            stars: None,
        },
        max_trick_uses: 0,
        reliability_percent: 100,
        max_length: 0,
        solver_vars: SolverVars {
            solve_for_completion: false,
            remainder_cp_fitness_value: 10,
            remainder_dur_fitness_value: 100,
            max_stagnation_counter: 25,
            population: 10000,
            generations: 1000,
        },
    }
}

#[test]
fn valid_crafter_actions() {
    let valid_rotation: Vec<usize> = vec![1, 1, 2, 2, 0, 1, 2, 3, 1];
    let synth = smol_synth();
    let expected_actions = vec![
        Action::BasicSynth,
        Action::BasicSynth,
        Action::BasicTouch,
        Action::BasicTouch,
    ];
    let actions = get_actions_list(&valid_rotation, &synth);
    assert_eq!(actions, expected_actions);

    let (state, action) = get_final_actions_list(&valid_rotation, &synth);
    assert_eq!(action, expected_actions);
    assert_ne!(state.step, 0);
}

#[test]
fn empty_action_list() {
    let numbers: Vec<usize> = vec![0, 0, 25, 26, 7, 3, 10, 1];
    let synth = endgame_synth();
    assert_eq!(get_actions_list(&numbers, &synth), vec![]);
    let fitness = synth.fitness_of(&numbers);
    assert!(fitness < 0);
}

#[test]
fn action_catalog_values() {
    let basic = Action::BasicSynth.details();
    assert_eq!(basic.durability_cost, 10);
    assert_eq!(basic.cp_cost, 0);
    assert_eq!(basic.success_probability, 100);
    assert_eq!(basic.progress_increase_multiplier, 100);
    assert_eq!(basic.quality_increase_multiplier, 0);
    assert_eq!(basic.action_type, ActionType::Immediate);

    let standard = Action::StandardTouch.details();
    assert_eq!(standard.cp_cost, 32);
    assert_eq!(standard.quality_increase_multiplier, 125);

    let muscle = Action::MuscleMemory.details();
    assert_eq!(muscle.progress_increase_multiplier, 300);
    assert_eq!(muscle.action_type, ActionType::Countdown { active_turns: 5 });

    let tricks = Action::TricksOfTheTrade.details();
    assert!(tricks.on_good && tricks.on_excellent);

    let quiet = Action::InnerQuiet.details();
    assert_eq!(quiet.action_type, ActionType::CountUp);

    let hasty = Action::HastyTouch.details();
    assert_eq!(hasty.success_probability, 60);
}

#[test]
fn combined_actions_decompose() {
    let combo = Action::FocusedTouchCombo.combo().unwrap();
    assert_eq!(combo.actions, vec![Action::Observe, Action::FocusedTouch]);
    let combo = Action::FocusedSynthesisCombo.combo().unwrap();
    assert_eq!(combo.actions, vec![Action::Observe, Action::FocusedSynthesis]);
    assert!(Action::BasicSynth.combo().is_none());
}

#[test]
fn level_table_values() {
    assert_eq!(level_table_lookup(50), 50);
    assert_eq!(level_table_lookup(51), 120);
    assert_eq!(level_table_lookup(54), 133);
    assert_eq!(level_table_lookup(80), 420);
    assert_eq!(level_table_lookup(90), 560);
    assert_eq!(level_table_lookup(7), 7);
}

#[test]
fn effect_tracker_basics() {
    let mut effects = EffectData::new();
    assert!(effects.get(Action::Veneration).is_none());
    assert!(effects.insert(Action::Veneration, 4));
    assert!(effects.insert(Action::Innovation, 4));
    assert_eq!(effects.get(Action::Veneration), Some(4));
    // An upsert replaces the stored counter instead of duplicating the key.
    assert!(effects.insert(Action::Veneration, 2));
    assert_eq!(effects.get(Action::Veneration), Some(2));
    effects.decrement_all();
    assert_eq!(effects.get(Action::Veneration), Some(1));
    effects.decrement_all();
    assert!(effects.get(Action::Veneration).is_none());
    assert_eq!(effects.get(Action::Innovation), Some(2));
    effects.remove(Action::Innovation);
    assert!(effects.get(Action::Innovation).is_none());
}

#[test]
fn effect_tracker_capacity() {
    let mut effects = EffectData::new();
    assert!(effects.insert(Action::Manipulation, 8));
    assert!(effects.insert(Action::WasteNot, 4));
    assert!(effects.insert(Action::Veneration, 4));
    assert!(effects.insert(Action::Innovation, 4));
    assert!(effects.insert(Action::GreatStrides, 3));
    // The sixth distinct effect finds no free slot.
    assert!(!effects.insert(Action::MuscleMemory, 5));
    // An existing key can still be updated.
    assert!(effects.insert(Action::WasteNot, 1));
}

#[test]
fn violations_all_okay() {
    let violations = Violations {
        progress_ok: true,
        cp_ok: true,
        durability_ok: true,
        trick_ok: true,
        reliability_ok: true,
    };
    assert!(violations.is_okay());
    let failed = Violations {
        progress_ok: false,
        ..violations
    };
    assert!(!failed.is_okay());
}

#[test]
fn fitness_of_trivial_completion() {
    let mut synth = smol_synth();
    synth.reliability_percent = 1;
    // Two Basic Synthesis steps complete the recipe without quality.
    let genome: Vec<usize> = vec![1, 1, 1];
    let fitness = synth.fitness_of(&genome);
    assert_eq!(fitness, 0);
}

#[test]
fn fitness_bounds() {
    let synth = smol_synth();
    assert_eq!(synth.highest_possible_fitness(), 45 + 5 * 250);
    assert_eq!(synth.lowest_possible_fitness(), i64::MIN);
}

#[test]
fn average_truncates_toward_zero() {
    let synth = smol_synth();
    assert_eq!(synth.average(&[1, 2, 3, 4]), 2);
    assert_eq!(synth.average(&[-3, -4]), -3);
    assert_eq!(synth.average(&[7]), 7);
}

#[test]
fn condition_probabilities() {
    let synth = smol_synth();
    assert_eq!(synth.prob_good_for_synth(), 25);
    assert_eq!(synth.prob_excellent_for_synth(), 2);
    let endgame = endgame_synth();
    assert_eq!(endgame.prob_good_for_synth(), 11);
    assert_eq!(endgame.prob_excellent_for_synth(), 1);
}

#[test]
fn genome_builder_length_range() {
    let synth = smol_synth();
    // Base progress 22, base quality 68: two progress steps plus three
    // quality steps estimated.
    let builder = CraftActionGenomeBuilder::new(&synth, 0, 4);
    assert_eq!(builder.min_length, 2);
    assert_eq!(builder.max_length, 25);
    assert_eq!(builder.min_value, 0);
    assert_eq!(builder.max_value, 4);
}

#[test]
fn mutation_operations() {
    let mut genome: Vec<usize> = vec![1, 2, 3];
    // Replacement overwrites in place.
    apply_mutation_op(&mut genome, 2, 5, 3, 1, 9);
    assert_eq!(genome, vec![1, 9, 3]);
    // Removal respects the minimum length.
    apply_mutation_op(&mut genome, 2, 5, 0, 0, 0);
    assert_eq!(genome, vec![9, 3]);
    apply_mutation_op(&mut genome, 2, 5, 0, 0, 0);
    assert_eq!(genome, vec![9, 3]);
    // Insertion respects the maximum length.
    apply_mutation_op(&mut genome, 2, 3, 5, 1, 7);
    assert_eq!(genome, vec![9, 7, 3]);
    apply_mutation_op(&mut genome, 2, 3, 5, 0, 8);
    assert_eq!(genome, vec![9, 7, 3]);
}

#[test]
fn progress_report_snapshot() {
    let synth = smol_synth();
    let genome: Vec<usize> = vec![1, 1, 1, 0, 2];
    let report = progress_report(&genome, &synth, 3, 20);
    match report {
        SimStep::Progress {
            generations_completed,
            max_generations,
            best_sequence,
            state,
        } => {
            assert_eq!(generations_completed, 3);
            assert_eq!(max_generations, 20);
            assert_eq!(
                best_sequence,
                vec![Action::BasicSynth, Action::BasicSynth, Action::BasicSynth],
            );
            assert_eq!(state.progress, 66);
            assert!(state.feasible || !state.violations.reliability_ok);
        }
        _ => panic!("expected a progress report"),
    }
}

#[test]
fn success_report_carries_log() {
    let synth = smol_synth();
    let genome: Vec<usize> = vec![1, 1, 1, 0];
    let report = success_report(&genome, &synth, String::from("done"), Some(7));
    match report {
        SimStep::Success {
            best_sequence,
            execution_log,
            elapsed_time,
        } => {
            assert_eq!(best_sequence.len(), 3);
            assert_eq!(execution_log, "done");
            assert_eq!(elapsed_time, Some(7));
        }
        _ => panic!("expected a success report"),
    }
}

#[test]
fn status_state_mirrors_state() {
    let synth = smol_synth();
    let state = State::from_synth(&synth);
    let status = StatusState::from_state(&state, &synth);
    assert_eq!(status.durability, 60);
    assert_eq!(status.cp, 180);
    assert_eq!(status.progress, 0);
    assert_eq!(status.quality, 0);
    assert_eq!(status.hq_percent, 0);
    assert!(!status.feasible);
}
