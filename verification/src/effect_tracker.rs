//! Fixed-capacity associative store tracking the counters of active effects.
//!
//! An `EffectData` maps an action to a small signed counter, holds at most
//! five entries, and never holds the same action twice. Two instances live in
//! every simulator state: one for countdown buffs and one for count-up
//! counters.

use vstd::prelude::*;
use crate::actions::Action;

verus! {

/// Key/value store of active effects: a slot array of five optional entries.
#[derive(Copy, Clone, Debug, PartialEq, Eq, Default)]
pub struct EffectData {
    pub s0: Option<(Action, i8)>,
    pub s1: Option<(Action, i8)>,
    pub s2: Option<(Action, i8)>,
    pub s3: Option<(Action, i8)>,
    pub s4: Option<(Action, i8)>,
}

/// True when the two slots do not hold the same key.
pub open spec fn distinct_slots(a: Option<(Action, i8)>, b: Option<(Action, i8)>) -> bool {
    a matches Some(x) ==> (b matches Some(y) ==> x.0 != y.0)
}

impl EffectData {
    /// No action appears in more than one slot.
    pub open spec fn wf(self) -> bool {
        &&& distinct_slots(self.s0, self.s1)
        &&& distinct_slots(self.s0, self.s2)
        &&& distinct_slots(self.s0, self.s3)
        &&& distinct_slots(self.s0, self.s4)
        &&& distinct_slots(self.s1, self.s2)
        &&& distinct_slots(self.s1, self.s3)
        &&& distinct_slots(self.s1, self.s4)
        &&& distinct_slots(self.s2, self.s3)
        &&& distinct_slots(self.s2, self.s4)
        &&& distinct_slots(self.s3, self.s4)
    }

    /// Number of slots holding the given action, to state that a key appears
    /// at most once.
    pub open spec fn key_count(self, action: Action) -> int {
        (if self.s0 matches Some(p) && p.0 == action { 1int } else { 0int })
        + (if self.s1 matches Some(p) && p.0 == action { 1int } else { 0int })
        + (if self.s2 matches Some(p) && p.0 == action { 1int } else { 0int })
        + (if self.s3 matches Some(p) && p.0 == action { 1int } else { 0int })
        + (if self.s4 matches Some(p) && p.0 == action { 1int } else { 0int })
    }

    /// The counter stored for an action, scanning the slots in order.
    #[verifier::opaque]
    pub open spec fn spec_get(self, action: Action) -> Option<i8> {
        if self.s0 matches Some(p) && p.0 == action { Some((self.s0->0).1) }
        else if self.s1 matches Some(p) && p.0 == action { Some((self.s1->0).1) }
        else if self.s2 matches Some(p) && p.0 == action { Some((self.s2->0).1) }
        else if self.s3 matches Some(p) && p.0 == action { Some((self.s3->0).1) }
        else if self.s4 matches Some(p) && p.0 == action { Some((self.s4->0).1) }
        else { None }
    }

    /// True when no slot is free.
    pub open spec fn spec_full(self) -> bool {
        self.s0 is Some && self.s1 is Some && self.s2 is Some && self.s3 is Some
            && self.s4 is Some
    }

    /// The store after an upsert: an existing entry is overwritten, otherwise
    /// the first free slot is filled; a full store without the key is
    /// unchanged.
    #[verifier::opaque]
    pub open spec fn spec_insert(self, action: Action, value: i8) -> EffectData {
        if self.s0 matches Some(p) && p.0 == action {
            EffectData { s0: Some((action, value)), ..self }
        } else if self.s1 matches Some(p) && p.0 == action {
            EffectData { s1: Some((action, value)), ..self }
        } else if self.s2 matches Some(p) && p.0 == action {
            EffectData { s2: Some((action, value)), ..self }
        } else if self.s3 matches Some(p) && p.0 == action {
            EffectData { s3: Some((action, value)), ..self }
        } else if self.s4 matches Some(p) && p.0 == action {
            EffectData { s4: Some((action, value)), ..self }
        } else if self.s0 is None {
            EffectData { s0: Some((action, value)), ..self }
        } else if self.s1 is None {
            EffectData { s1: Some((action, value)), ..self }
        } else if self.s2 is None {
            EffectData { s2: Some((action, value)), ..self }
        } else if self.s3 is None {
            EffectData { s3: Some((action, value)), ..self }
        } else if self.s4 is None {
            EffectData { s4: Some((action, value)), ..self }
        } else {
            self
        }
    }

    /// The store after clearing every slot holding the given action.
    #[verifier::opaque]
    pub open spec fn spec_remove(self, action: Action) -> EffectData {
        EffectData {
            s0: if self.s0 matches Some(p) && p.0 == action { None } else { self.s0 },
            s1: if self.s1 matches Some(p) && p.0 == action { None } else { self.s1 },
            s2: if self.s2 matches Some(p) && p.0 == action { None } else { self.s2 },
            s3: if self.s3 matches Some(p) && p.0 == action { None } else { self.s3 },
            s4: if self.s4 matches Some(p) && p.0 == action { None } else { self.s4 },
        }
    }

    /// One countdown tick of a single slot: decrement the counter and drop
    /// the entry once it reaches zero.
    pub open spec fn spec_tick_slot(slot: Option<(Action, i8)>) -> Option<(Action, i8)> {
        match slot {
            Some(p) => if p.1 - 1 <= 0 { None } else { Some((p.0, (p.1 - 1) as i8)) },
            None => None,
        }
    }

    /// The store after a countdown tick of every entry.
    #[verifier::opaque]
    pub open spec fn spec_decrement_all(self) -> EffectData {
        EffectData {
            s0: Self::spec_tick_slot(self.s0),
            s1: Self::spec_tick_slot(self.s1),
            s2: Self::spec_tick_slot(self.s2),
            s3: Self::spec_tick_slot(self.s3),
            s4: Self::spec_tick_slot(self.s4),
        }
    }

    /// Every stored counter is within the given bounds.
    pub open spec fn values_within(self, lo: int, hi: int) -> bool {
        &&& (self.s0 matches Some(p) ==> lo <= p.1 <= hi)
        &&& (self.s1 matches Some(p) ==> lo <= p.1 <= hi)
        &&& (self.s2 matches Some(p) ==> lo <= p.1 <= hi)
        &&& (self.s3 matches Some(p) ==> lo <= p.1 <= hi)
        &&& (self.s4 matches Some(p) ==> lo <= p.1 <= hi)
    }

    /// An empty store.
    pub fn new() -> (r: EffectData)
        ensures
            r == (EffectData { s0: None, s1: None, s2: None, s3: None, s4: None }),
    {
        EffectData { s0: None, s1: None, s2: None, s3: None, s4: None }
    }

    /// The counter stored for an action, or `None` when the effect is not
    /// active.
    pub fn get(&self, action: Action) -> (r: Option<i8>)
        ensures
            r == self.spec_get(action),
    {
        proof {
            reveal(EffectData::spec_get);
        }
        if let Some((a, v)) = self.s0 {
            if a == action {
                return Some(v);
            }
        }
        if let Some((a, v)) = self.s1 {
            if a == action {
                return Some(v);
            }
        }
        if let Some((a, v)) = self.s2 {
            if a == action {
                return Some(v);
            }
        }
        if let Some((a, v)) = self.s3 {
            if a == action {
                return Some(v);
            }
        }
        if let Some((a, v)) = self.s4 {
            if a == action {
                return Some(v);
            }
        }
        None
    }

    /// Store a counter for an action. Overwrites the entry when the action is
    /// already present, else takes the first free slot; returns false when
    /// the store is full and the action absent.
    pub fn insert(&mut self, action: Action, value: i8) -> (r: bool)
        ensures
            *final(self) == old(self).spec_insert(action, value),
            r == (old(self).spec_get(action) is Some || !old(self).spec_full()),
    {
        proof {
            reveal(EffectData::spec_get);
            reveal(EffectData::spec_insert);
        }
        if let Some((a, _)) = self.s0 {
            if a == action {
                self.s0 = Some((action, value));
                return true;
            }
        }
        if let Some((a, _)) = self.s1 {
            if a == action {
                self.s1 = Some((action, value));
                return true;
            }
        }
        if let Some((a, _)) = self.s2 {
            if a == action {
                self.s2 = Some((action, value));
                return true;
            }
        }
        if let Some((a, _)) = self.s3 {
            if a == action {
                self.s3 = Some((action, value));
                return true;
            }
        }
        if let Some((a, _)) = self.s4 {
            if a == action {
                self.s4 = Some((action, value));
                return true;
            }
        }
        if self.s0.is_none() {
            self.s0 = Some((action, value));
            return true;
        }
        if self.s1.is_none() {
            self.s1 = Some((action, value));
            return true;
        }
        if self.s2.is_none() {
            self.s2 = Some((action, value));
            return true;
        }
        if self.s3.is_none() {
            self.s3 = Some((action, value));
            return true;
        }
        if self.s4.is_none() {
            self.s4 = Some((action, value));
            return true;
        }
        false
    }

    /// Clear every slot holding the given action.
    pub fn remove(&mut self, action: Action)
        ensures
            *final(self) == old(self).spec_remove(action),
    {
        proof {
            reveal(EffectData::spec_remove);
        }
        if let Some((a, _)) = self.s0 {
            if a == action {
                self.s0 = None;
            }
        }
        if let Some((a, _)) = self.s1 {
            if a == action {
                self.s1 = None;
            }
        }
        if let Some((a, _)) = self.s2 {
            if a == action {
                self.s2 = None;
            }
        }
        if let Some((a, _)) = self.s3 {
            if a == action {
                self.s3 = None;
            }
        }
        if let Some((a, _)) = self.s4 {
            if a == action {
                self.s4 = None;
            }
        }
    }

    /// Tick every countdown: decrement each counter by one and drop entries
    /// that reach zero.
    pub fn decrement_all(&mut self)
        requires
            old(self).values_within(i8::MIN as int + 1, i8::MAX as int),
        ensures
            *final(self) == old(self).spec_decrement_all(),
    {
        proof {
            reveal(EffectData::spec_decrement_all);
        }
        if let Some((a, v)) = self.s0 {
            self.s0 = if v - 1 <= 0 { None } else { Some((a, v - 1)) };
        }
        if let Some((a, v)) = self.s1 {
            self.s1 = if v - 1 <= 0 { None } else { Some((a, v - 1)) };
        }
        if let Some((a, v)) = self.s2 {
            self.s2 = if v - 1 <= 0 { None } else { Some((a, v - 1)) };
        }
        if let Some((a, v)) = self.s3 {
            self.s3 = if v - 1 <= 0 { None } else { Some((a, v - 1)) };
        }
        if let Some((a, v)) = self.s4 {
            self.s4 = if v - 1 <= 0 { None } else { Some((a, v - 1)) };
        }
    }
}

/// An upsert keeps the slots well formed.
pub proof fn lemma_insert_wf(e: EffectData, action: Action, value: i8)
    requires
        e.wf(),
    ensures
        e.spec_insert(action, value).wf(),
        e.spec_insert(action, value).key_count(action) <= 1,
        forall|b: Action| b != action ==>
            e.spec_insert(action, value).spec_get(b) == e.spec_get(b),
        e.spec_get(action) is Some || !e.spec_full() ==>
            e.spec_insert(action, value).spec_get(action) == Some(value),
{
    reveal(EffectData::spec_get);
    reveal(EffectData::spec_insert);
}

/// Removal keeps the slots well formed and clears the key.
pub proof fn lemma_remove_wf(e: EffectData, action: Action)
    requires
        e.wf(),
    ensures
        e.spec_remove(action).wf(),
        e.spec_remove(action).spec_get(action) is None,
        forall|b: Action| b != action ==> e.spec_remove(action).spec_get(b) == e.spec_get(b),
{
    reveal(EffectData::spec_get);
    reveal(EffectData::spec_remove);
}

/// A countdown tick keeps the slots well formed.
pub proof fn lemma_decrement_wf(e: EffectData)
    requires
        e.wf(),
    ensures
        e.spec_decrement_all().wf(),
{
    reveal(EffectData::spec_decrement_all);
}

/// A lookup returns a counter within the store's value bounds.
pub proof fn lemma_get_within(e: EffectData, action: Action, lo: int, hi: int)
    requires
        e.values_within(lo, hi),
    ensures
        e.spec_get(action) matches Some(v) ==> lo <= v <= hi,
{
    reveal(EffectData::spec_get);
}

/// An upsert of an in-range counter keeps every counter in range.
pub proof fn lemma_insert_within(e: EffectData, action: Action, value: i8, lo: int, hi: int)
    requires
        e.values_within(lo, hi),
        lo <= value <= hi,
    ensures
        e.spec_insert(action, value).values_within(lo, hi),
{
    reveal(EffectData::spec_insert);
}

/// Removal keeps every counter in range.
pub proof fn lemma_remove_within(e: EffectData, action: Action, lo: int, hi: int)
    requires
        e.values_within(lo, hi),
    ensures
        e.spec_remove(action).values_within(lo, hi),
{
    reveal(EffectData::spec_remove);
}

/// A countdown tick leaves only counters between one and the old bound.
pub proof fn lemma_decrement_within(e: EffectData, hi: int)
    requires
        e.values_within(i8::MIN as int + 1, hi),
        1 <= hi,
    ensures
        e.spec_decrement_all().values_within(1, hi),
{
    reveal(EffectData::spec_decrement_all);
}

} // verus!
