use xiv_crafting_sim::actions::Action;
use xiv_crafting_sim::simulator::calculate_final_state;
use xiv_crafting_sim::xiv_model::{
    Crafter, Recipe, SimulationCondition, SolverVars, State, Synth,
};

fn cookbook_synth() -> Synth {
    Synth {
        crafter: Crafter {
            craftsmanship: 285,
            control: 249,
            craft_points: 309,
            level: 54,
            specialist: false,
            actions: vec![
                Action::MuscleMemory,
                Action::BasicSynth2,
                Action::BasicTouch,
                Action::StandardTouch,
                Action::ByregotsBlessing,
                Action::PreciseTouch,
                Action::TricksOfTheTrade,
                Action::MastersMend,
                Action::WasteNot,
                Action::WasteNot2,
                Action::Veneration,
                Action::GreatStrides,
                Action::Innovation,
                Action::Observe,
            ],
        },
        recipe: Recipe {
            base_level: 40,
            level: 40,
            difficulty: 138,
            durability: 60,
            safety_margin: 0,
            start_quality: 0,
            max_quality: 3500,
            suggested_craftsmanship: 136,
            suggested_control: 68,
            progress_divider: 50,
            progress_modifier: Some(100),
            quality_divider: 30,
            quality_modifier: Some(100),
            stars: None,
        },
        max_trick_uses: 0,
        reliability_percent: 100,
        max_length: 0,
        solver_vars: SolverVars {
            solve_for_completion: false,
            remainder_cp_fitness_value: 10,
            remainder_dur_fitness_value: 100,
            max_stagnation_counter: 25,
            population: 10000,
            generations: 50,
        },
    }
}

#[test]
fn basic_action_sim() {
    let synth = cookbook_synth();
    let simulation_condition = SimulationCondition::new_sim_condition();
    let mut state = State::from_synth(&synth);
    state = state.add_action(&synth, Action::MuscleMemory, &simulation_condition);
    let quality_touch = state.add_action(&synth, Action::StandardTouch, &simulation_condition);
    println!("q touch state {:?}", quality_touch);
    assert_eq!(quality_touch.quality_state, 147);
    let progress_touch = state.add_action(&synth, Action::BasicSynth, &simulation_condition);
    assert!(progress_touch.progress_state > 0);
}

#[test]
fn match_site() {
    let synth = cookbook_synth();
    let cond = SimulationCondition::new_sim_condition();
    let mut state = State::from_synth(&synth);
    for action in [
        Action::BasicSynth2,
        Action::Innovation,
        Action::BasicTouch,
        Action::StandardTouch,
        Action::BasicTouch,
        Action::StandardTouch,
        Action::MastersMend,
        Action::Innovation,
        Action::BasicTouch,
        Action::StandardTouch,
        Action::GreatStrides,
        Action::ByregotsBlessing,
        Action::BasicSynth2,
    ] {
        state = state.add_action(&synth, action, &cond);
        println!("{:?}", state);
    }
    println!("FINAL: {:?}", state);
    assert_eq!(state.progress_state, 140);
    assert_eq!(state.quality_state, 2535);
}

#[test]
fn trivial_synth_one_action() {
    let synth = Synth {
        crafter: Crafter {
            craftsmanship: 20,
            control: 20,
            craft_points: 10,
            level: 10,
            specialist: false,
            actions: vec![Action::BasicSynth, Action::StandardTouch],
        },
        recipe: Recipe {
            base_level: 1,
            level: 1,
            difficulty: 100,
            durability: 60,
            safety_margin: 0,
            start_quality: 0,
            max_quality: 100,
            suggested_craftsmanship: 1,
            suggested_control: 1,
            progress_divider: 1,
            progress_modifier: None,
            quality_divider: 1,
            quality_modifier: None,
            stars: None,
        },
        max_trick_uses: 10,
        reliability_percent: 1,
        max_length: 50,
        solver_vars: SolverVars::default(),
    };
    let genome: Vec<usize> = vec![1];
    let state = calculate_final_state(&genome, &synth);
    assert!(state.progress_state > 0);
    assert_eq!(state.durability_state, 50);
    assert_eq!(state.cp_state, 10);
    assert_eq!(state.step, 1);
}

#[test]
fn replay_is_deterministic() {
    let synth = cookbook_synth();
    let genome: Vec<usize> = vec![2, 13, 3, 4, 3, 4, 8, 13, 3, 4, 12, 5, 2];
    let first = calculate_final_state(&genome, &synth);
    let second = calculate_final_state(&genome, &synth);
    assert_eq!(first, second);
}

#[test]
fn terminal_short_circuit() {
    let synth = cookbook_synth();
    // Progress reaches the difficulty on the third action; entries past it
    // must not matter.
    let base: Vec<usize> = vec![3, 2, 2];
    let padded: Vec<usize> = vec![3, 2, 2, 1, 1, 0];
    let scrambled: Vec<usize> = vec![3, 2, 2, 9, 9, 9, 9];
    let base_state = calculate_final_state(&base, &synth);
    assert!(base_state.progress_state >= synth.recipe.difficulty as i64);
    assert_eq!(base_state, calculate_final_state(&padded, &synth));
    assert_eq!(base_state, calculate_final_state(&scrambled, &synth));
}

#[test]
fn muscle_memory_after_first_step_is_wasted() {
    let synth = cookbook_synth();
    let cond = SimulationCondition::new_sim_condition();
    let start = State::from_synth(&synth);
    let opened = start.add_action(&synth, Action::BasicTouch, &cond);
    let misused = opened.add_action(&synth, Action::MuscleMemory, &cond);
    assert_eq!(misused.progress_state, opened.progress_state);
    assert_eq!(misused.quality_state, opened.quality_state);
    assert_eq!(misused.cp_state, opened.cp_state);
    assert_eq!(misused.trick_uses, opened.trick_uses);
    assert_eq!(misused.wasted_actions, opened.wasted_actions + 1100);
    assert!(misused.effects.count_downs.get(Action::MuscleMemory).is_none());
}

#[test]
fn trained_finesse_without_full_stacks_gains_nothing() {
    let synth = cookbook_synth();
    let cond = SimulationCondition::new_sim_condition();
    let start = State::from_synth(&synth);
    let finessed = start.add_action(&synth, Action::TrainedFinesse, &cond);
    assert_eq!(finessed.base_quality_gain, 0);
    assert_eq!(finessed.quality_state, start.quality_state);
    assert_eq!(finessed.wasted_actions, start.wasted_actions + 100);
}

#[test]
fn byregots_blessing_without_inner_quiet_gains_nothing() {
    let synth = cookbook_synth();
    let cond = SimulationCondition::new_sim_condition();
    let start = State::from_synth(&synth);
    let blessed = start.add_action(&synth, Action::ByregotsBlessing, &cond);
    assert_eq!(blessed.base_quality_gain, 0);
    assert_eq!(blessed.quality_state, start.quality_state);
    assert!(blessed.effects.count_ups.get(Action::InnerQuiet).is_none());
}

#[test]
fn groundwork_with_durability_shortfall_halves_progress() {
    let synth = cookbook_synth();
    let cond = SimulationCondition::new_sim_condition();
    let mut state = State::from_synth(&synth);
    for _ in 0..5 {
        state = state.add_action(&synth, Action::BasicTouch, &cond);
    }
    assert_eq!(state.durability_state, 10);
    let ground = state.add_action(&synth, Action::Groundwork, &cond);
    // The full gain would be 177; the shortfall halves it to 88, while the
    // full durability cost of 20 is still paid.
    assert_eq!(ground.base_progress_gain, 88);
    assert_eq!(ground.progress_state, state.progress_state + 88);
    assert_eq!(ground.durability_state, -10);
}

#[test]
fn masters_mend_in_completion_mode_restores_and_penalizes() {
    let mut synth = cookbook_synth();
    synth.solver_vars.solve_for_completion = true;
    let cond = SimulationCondition::new_sim_condition();
    let mut state = State::from_synth(&synth);
    for _ in 0..3 {
        state = state.add_action(&synth, Action::BasicTouch, &cond);
    }
    assert_eq!(state.durability_state, 30);
    let mended = state.add_action(&synth, Action::MastersMend, &cond);
    assert_eq!(mended.durability_state, 60);
    assert_eq!(mended.wasted_actions, state.wasted_actions + 5000);
}

#[test]
fn state_invariants_hold_along_a_replay() {
    let synth = cookbook_synth();
    let cond = SimulationCondition::new_sim_condition();
    let mut state = State::from_synth(&synth);
    for action in [
        Action::MuscleMemory,
        Action::Veneration,
        Action::WasteNot,
        Action::BasicTouch,
        Action::StandardTouch,
        Action::MastersMend,
        Action::PreparatoryTouch,
        Action::PreciseTouch,
        Action::TricksOfTheTrade,
        Action::ByregotsBlessing,
    ] {
        state = state.add_action(&synth, action, &cond);
        assert!(state.durability_state <= synth.recipe.durability as i64);
        assert!(state.cp_state <= synth.crafter.craft_points as i64 + state.bonus_max_cp);
        if let Some(stacks) = state.effects.count_ups.get(Action::InnerQuiet) {
            assert!(stacks <= 9);
        }
    }
}

#[test]
fn tricks_at_full_cp_stays_clamped() {
    let synth = cookbook_synth();
    let cond = SimulationCondition::new_sim_condition();
    let start = State::from_synth(&synth);
    assert_eq!(start.cp_state, 309);
    let tricked = start.add_action(&synth, Action::TricksOfTheTrade, &cond);
    // The twenty restored crafting points cannot push the pool past its
    // maximum.
    assert_eq!(tricked.cp_state, 309);
    assert_eq!(tricked.trick_uses, 1);
}

#[test]
fn longest_supported_genome_replays() {
    let synth = cookbook_synth();
    let genome: Vec<usize> = vec![14; 5_000];
    // Observe costs seven crafting points and nothing else; the replay
    // stops on the action that would exhaust them and yields the state
    // before it.
    let state = calculate_final_state(&genome, &synth);
    assert_eq!(state.cp_state, 1);
    assert_eq!(state.step, 44);
    assert!(state.durability_state <= synth.recipe.durability as i64);
}
