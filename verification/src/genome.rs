//! Length estimation for initial genomes.
//!
//! The builder estimates how many steps a craft will take from the recipe's
//! difficulty and quality targets and the crafter's base gains, and fixes the
//! length range that initial genomes and the length-aware mutator use. The
//! random drawing of lengths and entries takes place outside the library;
//! the bounds computed here are the logic worth stating.

use vstd::prelude::*;
use crate::level_table::spec_level_table_lookup;
use crate::xiv_model::Synth;

verus! {

/// The estimated number of steps a craft needs: the progress steps at the
/// base progress gain plus the quality steps at the base quality gain.
pub open spec fn spec_step_range(synth: Synth) -> int {
    let eff = spec_level_table_lookup(synth.crafter.level);
    let base_progress = synth.spec_base_progress_increase(eff, synth.crafter.craftsmanship);
    let base_quality = synth.spec_base_quality_increase(eff, synth.crafter.control);
    synth.recipe.difficulty as int / base_progress
        + synth.recipe.max_quality as int / base_quality
}

/// Bounds for genomes of one synthesis: lengths between `min_length` and
/// `max_length`, entries between `min_value` and `max_value`.
#[derive(Copy, Clone, Debug, PartialEq, Eq, Structural)]
pub struct CraftActionGenomeBuilder {
    pub min_length: usize,
    pub max_length: usize,
    pub min_value: usize,
    pub max_value: usize,
}

impl CraftActionGenomeBuilder {
    /// Estimate the length range from the synth: five fewer than the
    /// estimated step count (but at least two) up to twenty more.
    pub fn new(synth: &Synth, min_value: usize, max_value: usize)
        -> (r: CraftActionGenomeBuilder)
        requires
            synth.wf(),
            synth.spec_base_progress_increase(
                spec_level_table_lookup(synth.crafter.level),
                synth.crafter.craftsmanship) >= 1,
            synth.spec_base_quality_increase(
                spec_level_table_lookup(synth.crafter.level),
                synth.crafter.control) >= 1,
            spec_step_range(*synth) + 20 <= usize::MAX,
        ensures
            r.min_value == min_value,
            r.max_value == max_value,
            r.max_length == spec_step_range(*synth) + 20,
            r.min_length == if spec_step_range(*synth) - 5 >= 2 {
                spec_step_range(*synth) - 5
            } else {
                2int
            },
    {
        let (base_progress, base_quality) = synth.calculate_progress_and_quality_increase();
        let prog_steps: u64 = synth.recipe.difficulty as u64 / (base_progress as u64);
        let qual_steps: u64 = synth.recipe.max_quality as u64 / (base_quality as u64);
        let step_range: u64 = prog_steps + qual_steps;
        proof {
            vstd::arithmetic::div_mod::lemma_div_pos_is_pos(
                synth.recipe.difficulty as int, base_progress as int);
            vstd::arithmetic::div_mod::lemma_div_pos_is_pos(
                synth.recipe.max_quality as int, base_quality as int);
            vstd::arithmetic::div_mod::lemma_div_nonincreasing(
                synth.recipe.difficulty as int, base_progress as int);
            vstd::arithmetic::div_mod::lemma_div_nonincreasing(
                synth.recipe.max_quality as int, base_quality as int);
        }
        let min_length: u64 = if step_range >= 7 { step_range - 5 } else { 2 };
        let max_length: u64 = step_range + 20;
        CraftActionGenomeBuilder {
            min_length: min_length as usize,
            max_length: max_length as usize,
            min_value,
            max_value,
        }
    }
}

} // verus!
