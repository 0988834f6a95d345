use genevo::ga::genetic_algorithm;
use genevo::operator::prelude::{
    ElitistReinserter, MaximizeSelector, RandomValueMutator, SinglePointCrossBreeder,
};
use genevo::population::ValueEncodedGenomeBuilder;
use genevo::prelude::{
    build_population, simulate, FitnessFunction, GenerationLimit, Population, SimResult,
    Simulation, SimulationBuilder,
};
use xiv_crafting_sim::actions::Action;
use xiv_crafting_sim::simulator::progress_report;
use xiv_crafting_sim::simulator::SimStep;
use xiv_crafting_sim::xiv_model::{Crafter, Recipe, SolverVars, Synth, GENOME_LIMIT};

/// The library's fitness, penalties and replay exposed to the genetic
/// algorithm; genomes longer than the library's limit are cut first, and an
/// empty value set is averaged to zero, so every library precondition holds.
#[derive(Clone, Debug)]
struct SynthFitness {
    synth: Synth,
}

impl FitnessFunction<Vec<usize>, i64> for SynthFitness {
    fn fitness_of(&self, a: &Vec<usize>) -> i64 {
        let genome: Vec<usize> = a.iter().copied().take(GENOME_LIMIT).collect();
        self.synth.fitness_of(&genome)
    }

    fn average(&self, a: &[i64]) -> i64 {
        if a.is_empty() || a.len() > 1_000_000_000 {
            0
        } else {
            self.synth.average(a)
        }
    }

    fn highest_possible_fitness(&self) -> i64 {
        self.synth.highest_possible_fitness()
    }

    fn lowest_possible_fitness(&self) -> i64 {
        self.synth.lowest_possible_fitness()
    }
}

/// Run one generation of the genetic search and report it, as the driver's
/// step operation does.
fn one_generation(synth: Synth, population_size: usize) -> SimStep {
    let number_of_available_actions = synth.crafter.actions.len();
    let number_of_generations = synth.solver_vars.generations as u64;
    let initial_population: Population<Vec<usize>> = build_population()
        .with_genome_builder(ValueEncodedGenomeBuilder::new(
            50,
            0,
            number_of_available_actions + 1,
        ))
        .of_size(population_size)
        .uniform_at_random();
    let fitness = SynthFitness {
        synth: synth.clone(),
    };
    let mut sim = simulate(
        genetic_algorithm()
            .with_evaluation(fitness.clone())
            .with_selection(MaximizeSelector::new(0.85, 18))
            .with_crossover(SinglePointCrossBreeder::new())
            .with_mutation(RandomValueMutator::new(
                0.2,
                0,
                number_of_available_actions + 1,
            ))
            .with_reinsertion(ElitistReinserter::new(fitness, false, 0.85))
            .with_initial_population(initial_population)
            .build(),
    )
    .until(GenerationLimit::new(number_of_generations))
    .build();
    match sim.step() {
        Ok(SimResult::Intermediate(a)) => {
            let genome: Vec<usize> = a
                .result
                .best_solution
                .solution
                .genome
                .iter()
                .copied()
                .take(GENOME_LIMIT)
                .collect();
            progress_report(&genome, &synth, 1, synth.solver_vars.generations as u32)
        }
        Ok(SimResult::Final(a, _processing_time, _duration, _reason)) => {
            let genome: Vec<usize> = a
                .result
                .best_solution
                .solution
                .genome
                .iter()
                .copied()
                .take(GENOME_LIMIT)
                .collect();
            xiv_crafting_sim::simulator::success_report(&genome, &synth, String::new(), None)
        }
        Err(e) => SimStep::Error(e.to_string()),
    }
}

fn cul_synth() -> Synth {
    Synth {
        crafter: Crafter {
            craftsmanship: 117,
            control: 158,
            craft_points: 180,
            level: 51,
            specialist: false,
            actions: vec![
                Action::BasicSynth2,
                Action::BasicTouch,
                Action::StandardTouch,
                Action::ByregotsBlessing,
                Action::TricksOfTheTrade,
                Action::MastersMend,
                Action::WasteNot,
                Action::WasteNot2,
                Action::Veneration,
                Action::GreatStrides,
                Action::Innovation,
                Action::Observe,
            ],
        },
        recipe: Recipe {
            base_level: 40,
            level: 40,
            difficulty: 138,
            durability: 60,
            safety_margin: 0,
            start_quality: 0,
            max_quality: 3500,
            suggested_craftsmanship: 136,
            suggested_control: 68,
            progress_divider: 50,
            progress_modifier: Some(100),
            quality_divider: 30,
            quality_modifier: Some(100),
            stars: None,
        },
        max_trick_uses: 0,
        reliability_percent: 100,
        max_length: 0,
        solver_vars: SolverVars {
            solve_for_completion: false,
            remainder_cp_fitness_value: 10,
            remainder_dur_fitness_value: 100,
            max_stagnation_counter: 25,
            population: 10000,
            generations: 1000,
        },
    }
}

#[test]
fn lvl50_cul_synth() {
    let synth = cul_synth();
    let next = one_generation(synth, 2_000);
    match next {
        SimStep::Success { .. } => {
            assert!(false);
        }
        SimStep::Progress { best_sequence, .. } => {
            assert_ne!(best_sequence, vec![]);
        }
        SimStep::Error(_) => {
            assert!(false);
        }
    }
}

#[test]
fn test_basic_synth() {
    let recipe = Recipe {
        base_level: 1,
        level: 1,
        difficulty: 100,
        durability: 60,
        safety_margin: 0,
        start_quality: 0,
        max_quality: 100,
        suggested_craftsmanship: 1,
        suggested_control: 1,
        progress_divider: 1,
        progress_modifier: None,
        quality_divider: 1,
        quality_modifier: None,
        stars: None,
    };
    let crafter = Crafter {
        craftsmanship: 20,
        control: 20,
        craft_points: 10,
        level: 10,
        specialist: false,
        actions: vec![Action::BasicSynth, Action::StandardTouch],
    };
    let synth = Synth {
        crafter,
        recipe,
        max_trick_uses: 10,
        reliability_percent: 1,
        max_length: 50,
        solver_vars: SolverVars {
            max_stagnation_counter: 0,
            population: 5000,
            generations: 750,
            ..Default::default()
        },
    };
    let sim_result = one_generation(synth, 2_000);
    match sim_result {
        SimStep::Success { .. } => {
            assert!(false)
        }
        SimStep::Progress { best_sequence, .. } => {
            assert_ne!(best_sequence.len(), 0);
        }
        SimStep::Error(_) => {
            assert!(false)
        }
    }
}
