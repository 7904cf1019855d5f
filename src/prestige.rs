//! The prestige ledger: points that survive every reset.
use vstd::prelude::*;
use crate::fixed_point::UNIT;

verus! {

/// Bonus granted by each prestige point, in millionths (five percent).
pub const BONUS_PER_POINT: i64 = 50_000;

/// Gold, in millionths, that one prestige point is measured against: a
/// million whole units.
pub const GOLD_PER_POINT: i64 = 1_000_000 * UNIT;

/// `r` is the integer square root of `x`.
pub open spec fn is_floor_sqrt(r: int, x: int) -> bool {
    r >= 0 && r * r <= x < (r + 1) * (r + 1)
}

/// The integer square root of a non-negative number.
pub open spec fn floor_sqrt(x: int) -> int {
    choose|r: int| is_floor_sqrt(r, x)
}

/// Points earned by a reset with `gold` in the ledger:
/// `floor(sqrt(gold / 1_000_000))` in whole units, nothing for no gold.
pub open spec fn points_for_gold(gold: int) -> int {
    if gold <= 0 {
        0
    } else {
        floor_sqrt(gold / GOLD_PER_POINT as int)
    }
}

/// The integer square root is unique.
pub proof fn lemma_floor_sqrt_unique(r: int, x: int)
    requires
        is_floor_sqrt(r, x),
    ensures
        floor_sqrt(x) == r,
{
    let s = floor_sqrt(x);
    assert(is_floor_sqrt(s, x));
    if s < r {
        assert((s + 1) * (s + 1) <= r * r) by (nonlinear_arith)
            requires
                0 <= s + 1 <= r,
        ;
    } else if r < s {
        assert((r + 1) * (r + 1) <= s * s) by (nonlinear_arith)
            requires
                0 <= r + 1 <= s,
        ;
    }
}

/// Persistent prestige data
#[derive(Clone, Copy, Debug, PartialEq, Eq, Structural)]
pub struct Prestige {
    /// Points earned from resets
    pub points: u32,
}

impl Prestige {
    /// Calculate bonus multiplier from prestige points: `1 + points * 0.05`,
    /// in millionths
    pub fn bonus_multiplier(&self) -> (r: i64)
        ensures
            r == UNIT + self.points * BONUS_PER_POINT,
    {
        UNIT + self.points as i64 * BONUS_PER_POINT
    }
}

impl Default for Prestige {
    fn default() -> (r: Prestige)
        ensures
            r.points == 0,
    {
        Prestige { points: 0 }
    }
}

/// Points that a reset with `gold` (in millionths) in the ledger earns.
pub fn points_for(gold: i64) -> (r: u32)
    ensures
        r == points_for_gold(gold as int),
{
    if gold <= 0 {
        return 0;
    }
    let x: u64 = (gold / GOLD_PER_POINT) as u64;
    assert(x <= 10_000_000);
    let mut root: u64 = 0;
    loop
        invariant
            x <= 10_000_000,
            root * root <= x,
            root <= 4_000,
        ensures
            is_floor_sqrt(root as int, x as int),
        decreases 4_000 - root,
    {
        assert((root + 1) * (root + 1) <= 4_001 * 4_001) by (nonlinear_arith)
            requires
                root <= 4_000,
        ;
        let next: u64 = root + 1;
        if next * next > x {
            break;
        }
        assert(next <= 3_200) by (nonlinear_arith)
            requires
                next * next <= 10_000_000,
        ;
        root = next;
    }
    proof {
        lemma_floor_sqrt_unique(root as int, x as int);
    }
    root as u32
}

} // verus!
