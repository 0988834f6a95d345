//! The length-and-value mutation step for variable-length genomes.
//!
//! A mutation pass performs a number of single operations on a genome; each
//! operation removes, replaces or inserts one entry, respecting the length
//! range of the genome builder. The operation codes and positions are drawn
//! outside the library; applying one operation is exact, verified logic.

use vstd::prelude::*;

verus! {

/// A container a length mutator can edit: indexed insertion, removal and
/// replacement, and a length.
pub trait IndexedSizedContainer<T> {
    /// The items the container holds, in order.
    spec fn spec_items(&self) -> Seq<T>;

    fn insert(&mut self, index: usize, value: T)
        requires
            index <= old(self).spec_items().len(),
            old(self).spec_items().len() < usize::MAX,
        ensures
            final(self).spec_items() == old(self).spec_items().insert(index as int, value),
    ;

    fn remove(&mut self, index: usize)
        requires
            index < old(self).spec_items().len(),
        ensures
            final(self).spec_items() == old(self).spec_items().remove(index as int),
    ;

    fn replace(&mut self, index: usize, value: T)
        requires
            index < old(self).spec_items().len(),
        ensures
            final(self).spec_items() == old(self).spec_items().update(index as int, value),
    ;

    fn len(&self) -> (r: usize)
        ensures
            r == self.spec_items().len(),
    ;
}

impl IndexedSizedContainer<usize> for Vec<usize> {
    open spec fn spec_items(&self) -> Seq<usize> {
        self@
    }

    fn insert(&mut self, index: usize, value: usize) {
        Vec::insert(self, index, value);
    }

    fn remove(&mut self, index: usize) {
        Vec::remove(self, index);
    }

    fn replace(&mut self, index: usize, value: usize) {
        self.set(index, value);
    }

    fn len(&self) -> usize {
        Vec::len(self)
    }
}

/// The genome one mutation operation produces. Operation zero removes the
/// entry at `index` when the genome is longer than `min_length`; operations
/// one through four replace it with `value`; operation five inserts `value`
/// at `index` when the genome is shorter than `max_length`.
pub open spec fn spec_apply_mutation_op(
    genome: Seq<usize>,
    min_length: usize,
    max_length: usize,
    op: u8,
    index: int,
    value: usize,
) -> Seq<usize> {
    if op == 0 {
        if genome.len() > min_length {
            genome.remove(index)
        } else {
            genome
        }
    } else if op < 5 {
        genome.update(index, value)
    } else {
        if genome.len() < max_length {
            genome.insert(index, value)
        } else {
            genome
        }
    }
}

/// Apply one mutation operation to a genome, weighted as the mutator draws
/// them: remove (code 0), replace (codes 1 through 4) or insert (code 5).
pub fn apply_mutation_op(
    genome: &mut Vec<usize>,
    min_length: usize,
    max_length: usize,
    op: u8,
    index: usize,
    value: usize,
)
    requires
        op <= 5,
        index < old(genome)@.len(),
        old(genome)@.len() < usize::MAX,
    ensures
        final(genome)@ == spec_apply_mutation_op(
            old(genome)@, min_length, max_length, op, index as int, value),
{
    if op == 0 {
        if genome.len() > min_length {
            genome.remove(index);
        }
    } else if op < 5 {
        genome.set(index, value);
    } else {
        if genome.len() < max_length {
            genome.insert(index, value);
        }
    }
}

} // verus!
