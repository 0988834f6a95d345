//! Lookup table translating a crafter's character level into the effective
//! level used by the recipe-difficulty comparisons.

use vstd::prelude::*;

verus! {

/// Effective crafter level for a character level: levels 51 through 90 map to
/// the expanded internal scale; any other level maps to itself.
#[verifier::opaque]
pub open spec fn spec_level_table_lookup(level: u32) -> u32 {
    if level == 51 { 120 }
    else if level == 52 { 125 }
    else if level == 53 { 130 }
    else if level == 54 { 133 }
    else if level == 55 { 136 }
    else if level == 56 { 139 }
    else if level == 57 { 142 }
    else if level == 58 { 145 }
    else if level == 59 { 148 }
    else if level == 60 { 150 }
    else if level == 61 { 260 }
    else if level == 62 { 265 }
    else if level == 63 { 270 }
    else if level == 64 { 273 }
    else if level == 65 { 276 }
    else if level == 66 { 279 }
    else if level == 67 { 282 }
    else if level == 68 { 285 }
    else if level == 69 { 288 }
    else if level == 70 { 290 }
    else if level == 71 { 390 }
    else if level == 72 { 395 }
    else if level == 73 { 400 }
    else if level == 74 { 403 }
    else if level == 75 { 406 }
    else if level == 76 { 409 }
    else if level == 77 { 412 }
    else if level == 78 { 415 }
    else if level == 79 { 418 }
    else if level == 80 { 420 }
    else if level == 81 { 517 }
    else if level == 82 { 520 }
    else if level == 83 { 525 }
    else if level == 84 { 530 }
    else if level == 85 { 535 }
    else if level == 86 { 540 }
    else if level == 87 { 545 }
    else if level == 88 { 550 }
    else if level == 89 { 555 }
    else if level == 90 { 560 }
    else { level }
}

pub fn level_table_lookup(level: u32) -> (eff: u32)
    ensures
        eff == spec_level_table_lookup(level),
{
    proof {
        reveal(spec_level_table_lookup);
    }
    match level {
        51 => 120,
        52 => 125,
        53 => 130,
        54 => 133,
        55 => 136,
        56 => 139,
        57 => 142,
        58 => 145,
        59 => 148,
        60 => 150,
        61 => 260,
        62 => 265,
        63 => 270,
        64 => 273,
        65 => 276,
        66 => 279,
        67 => 282,
        68 => 285,
        69 => 288,
        70 => 290,
        71 => 390,
        72 => 395,
        73 => 400,
        74 => 403,
        75 => 406,
        76 => 409,
        77 => 412,
        78 => 415,
        79 => 418,
        80 => 420,
        81 => 517,
        82 => 520,
        83 => 525,
        84 => 530,
        85 => 535,
        86 => 540,
        87 => 545,
        88 => 550,
        89 => 555,
        90 => 560,
        _ => level,
    }
}

} // verus!
