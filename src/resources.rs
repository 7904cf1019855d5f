//! The resource ledger: a fixed set of named stocks.
use vstd::prelude::*;
use crate::fixed_point::{
    clamp_i64, curve, grow, lemma_curve_bounds, mul_div, sat_add, sat_sub, scale_amount, UNIT,
};

verus! {

/// Collection of all game resources, each counted in millionths of a unit.
#[derive(Clone, Copy, Debug, PartialEq, Eq, Structural)]
pub struct Resources {
    /// Amount of wood
    pub wood: i64,
    /// Amount of stone
    pub stone: i64,
    /// Amount of food
    pub food: i64,
    /// Amount of iron
    pub iron: i64,
    /// Amount of gold
    pub gold: i64,
    /// Amount of energy
    pub energy: i64,
    /// Amount of science
    pub science: i64,
    /// Amount of mana
    pub mana: i64,
}

/// A ledger with the eight given stocks.
pub open spec fn bundle(
    wood: int,
    stone: int,
    food: int,
    iron: int,
    gold: int,
    energy: int,
    science: int,
    mana: int,
) -> Resources {
    Resources {
        wood: wood as i64,
        stone: stone as i64,
        food: food as i64,
        iron: iron as i64,
        gold: gold as i64,
        energy: energy as i64,
        science: science as i64,
        mana: mana as i64,
    }
}

/// The stock at a position, in the order wood, stone, food, iron, gold,
/// energy, science, mana.
pub open spec fn stock(r: Resources, i: int) -> int {
    if i == 0 {
        r.wood as int
    } else if i == 1 {
        r.stone as int
    } else if i == 2 {
        r.food as int
    } else if i == 3 {
        r.iron as int
    } else if i == 4 {
        r.gold as int
    } else if i == 5 {
        r.energy as int
    } else if i == 6 {
        r.science as int
    } else {
        r.mana as int
    }
}

/// A grown ledger, stock by stock, is the curve of the matching base stock.
pub proof fn lemma_grown_stock(base: Resources, rate: int, n: nat, i: int)
    requires
        0 <= i < 8,
    ensures
        base.is_non_negative() && rate >= UNIT ==> stock(base.grown(rate, n), i) == curve(
            stock(base, i),
            rate,
            n,
        ),
{
    if base.is_non_negative() && rate >= UNIT {
        lemma_curve_bounds(stock(base, i), rate, n);
    }
}

impl Resources {
    /// The empty ledger.
    pub open spec fn zero() -> Resources {
        bundle(0, 0, 0, 0, 0, 0, 0, 0)
    }

    /// Field-wise saturating sum.
    pub open spec fn plus(self, o: Resources) -> Resources {
        bundle(
            clamp_i64(self.wood + o.wood),
            clamp_i64(self.stone + o.stone),
            clamp_i64(self.food + o.food),
            clamp_i64(self.iron + o.iron),
            clamp_i64(self.gold + o.gold),
            clamp_i64(self.energy + o.energy),
            clamp_i64(self.science + o.science),
            clamp_i64(self.mana + o.mana),
        )
    }

    /// Field-wise saturating difference.
    pub open spec fn minus(self, o: Resources) -> Resources {
        bundle(
            clamp_i64(self.wood - o.wood),
            clamp_i64(self.stone - o.stone),
            clamp_i64(self.food - o.food),
            clamp_i64(self.iron - o.iron),
            clamp_i64(self.gold - o.gold),
            clamp_i64(self.energy - o.energy),
            clamp_i64(self.science - o.science),
            clamp_i64(self.mana - o.mana),
        )
    }

    /// Every stock covers the matching stock of `cost`.
    pub open spec fn covers(self, cost: Resources) -> bool {
        &&& self.wood >= cost.wood
        &&& self.stone >= cost.stone
        &&& self.food >= cost.food
        &&& self.iron >= cost.iron
        &&& self.gold >= cost.gold
        &&& self.energy >= cost.energy
        &&& self.science >= cost.science
        &&& self.mana >= cost.mana
    }

    /// The ledger after an all-or-nothing charge of `cost`.
    pub open spec fn after_charge(self, cost: Resources) -> Resources {
        if self.covers(cost) {
            self.minus(cost)
        } else {
            self
        }
    }

    /// Every negative stock replaced by zero.
    pub open spec fn clamped(self) -> Resources {
        bundle(
            if self.wood < 0 { 0 } else { self.wood as int },
            if self.stone < 0 { 0 } else { self.stone as int },
            if self.food < 0 { 0 } else { self.food as int },
            if self.iron < 0 { 0 } else { self.iron as int },
            if self.gold < 0 { 0 } else { self.gold as int },
            if self.energy < 0 { 0 } else { self.energy as int },
            if self.science < 0 { 0 } else { self.science as int },
            if self.mana < 0 { 0 } else { self.mana as int },
        )
    }

    /// No stock is negative.
    pub open spec fn is_non_negative(self) -> bool {
        self.covers(Resources::zero())
    }

    /// Every stock multiplied by `num / den`, rounded toward zero.
    pub open spec fn ratio(self, num: int, den: int) -> Resources {
        bundle(
            mul_div(self.wood as int, num, den),
            mul_div(self.stone as int, num, den),
            mul_div(self.food as int, num, den),
            mul_div(self.iron as int, num, den),
            mul_div(self.gold as int, num, den),
            mul_div(self.energy as int, num, den),
            mul_div(self.science as int, num, den),
            mul_div(self.mana as int, num, den),
        )
    }

    /// Every stock multiplied by `factor`, itself counted in millionths.
    pub open spec fn scaled(self, factor: int) -> Resources {
        self.ratio(factor, UNIT as int)
    }

    /// Every stock grown geometrically `n` times by `rate` (in millionths).
    pub open spec fn grown(self, rate: int, n: nat) -> Resources {
        bundle(
            curve(self.wood as int, rate, n),
            curve(self.stone as int, rate, n),
            curve(self.food as int, rate, n),
            curve(self.iron as int, rate, n),
            curve(self.gold as int, rate, n),
            curve(self.energy as int, rate, n),
            curve(self.science as int, rate, n),
            curve(self.mana as int, rate, n),
        )
    }

    /// Add other resources to self
    pub fn add(&mut self, other: &Resources)
        ensures
            *final(self) == old(self).plus(*other),
    {
        self.wood = sat_add(self.wood, other.wood);
        self.stone = sat_add(self.stone, other.stone);
        self.food = sat_add(self.food, other.food);
        self.iron = sat_add(self.iron, other.iron);
        self.gold = sat_add(self.gold, other.gold);
        self.energy = sat_add(self.energy, other.energy);
        self.science = sat_add(self.science, other.science);
        self.mana = sat_add(self.mana, other.mana);
    }

    /// Ensure all resources are non-negative
    pub fn clamp_non_negative(&mut self)
        ensures
            *final(self) == old(self).clamped(),
            final(self).is_non_negative(),
    {
        if self.wood < 0 {
            self.wood = 0;
        }
        if self.stone < 0 {
            self.stone = 0;
        }
        if self.food < 0 {
            self.food = 0;
        }
        if self.iron < 0 {
            self.iron = 0;
        }
        if self.gold < 0 {
            self.gold = 0;
        }
        if self.energy < 0 {
            self.energy = 0;
        }
        if self.science < 0 {
            self.science = 0;
        }
        if self.mana < 0 {
            self.mana = 0;
        }
    }

    /// Subtract other resources if affordable.
    ///
    /// All stocks are checked before any is touched: either every stock is
    /// charged, or the ledger is left exactly as it was.
    pub fn subtract(&mut self, cost: &Resources) -> (r: bool)
        ensures
            r == old(self).covers(*cost),
            *final(self) == old(self).after_charge(*cost),
    {
        if self.can_afford(cost) {
            self.wood = sat_sub(self.wood, cost.wood);
            self.stone = sat_sub(self.stone, cost.stone);
            self.food = sat_sub(self.food, cost.food);
            self.iron = sat_sub(self.iron, cost.iron);
            self.gold = sat_sub(self.gold, cost.gold);
            self.energy = sat_sub(self.energy, cost.energy);
            self.science = sat_sub(self.science, cost.science);
            self.mana = sat_sub(self.mana, cost.mana);
            true
        } else {
            false
        }
    }

    /// Check if self has at least cost of each resource
    pub fn can_afford(&self, cost: &Resources) -> (r: bool)
        ensures
            r == self.covers(*cost),
    {
        self.wood >= cost.wood && self.stone >= cost.stone && self.food >= cost.food && self.iron
            >= cost.iron && self.gold >= cost.gold && self.energy >= cost.energy && self.science
            >= cost.science && self.mana >= cost.mana
    }

    /// Scale resources by `factor`, counted in millionths (`UNIT` keeps them as they are).
    pub fn scale(&self, factor: i64) -> (r: Resources)
        ensures
            r == self.scaled(factor as int),
    {
        self.ratio_of(factor, UNIT)
    }

    /// Every stock grown geometrically `count` times by `rate` (in millionths).
    pub fn grow_by(&self, rate: i64, count: u32) -> (r: Resources)
        requires
            self.is_non_negative(),
            rate >= UNIT,
        ensures
            r == self.grown(rate as int, count as nat),
            r.is_non_negative(),
    {
        Resources {
            wood: grow(self.wood, rate, count),
            stone: grow(self.stone, rate, count),
            food: grow(self.food, rate, count),
            iron: grow(self.iron, rate, count),
            gold: grow(self.gold, rate, count),
            energy: grow(self.energy, rate, count),
            science: grow(self.science, rate, count),
            mana: grow(self.mana, rate, count),
        }
    }

    /// Every stock multiplied by `num / den`, rounded toward zero.
    pub fn ratio_of(&self, num: i64, den: i64) -> (r: Resources)
        requires
            den > 0,
        ensures
            r == self.ratio(num as int, den as int),
    {
        Resources {
            wood: scale_amount(self.wood, num, den),
            stone: scale_amount(self.stone, num, den),
            food: scale_amount(self.food, num, den),
            iron: scale_amount(self.iron, num, den),
            gold: scale_amount(self.gold, num, den),
            energy: scale_amount(self.energy, num, den),
            science: scale_amount(self.science, num, den),
            mana: scale_amount(self.mana, num, den),
        }
    }
}

/// A ledger that cannot cover a cost is left exactly as it was by an
/// all-or-nothing charge; one that can has every stock charged at once, by
/// exactly the cost wherever the difference fits in the range.
pub proof fn lemma_afford_or_nothing(ledger: Resources, cost: Resources)
    ensures
        !ledger.covers(cost) ==> ledger.after_charge(cost) == ledger,
        ledger.covers(cost) ==> forall|i: int|
            0 <= i < 8 ==> #[trigger] stock(ledger.after_charge(cost), i) == clamp_i64(
                stock(ledger, i) - stock(cost, i),
            ),
        ledger.covers(cost) && (forall|i: int|
            0 <= i < 8 ==> #[trigger] stock(ledger, i) - stock(cost, i) <= i64::MAX) ==> forall|
            i: int,
        |
            0 <= i < 8 ==> #[trigger] stock(ledger.after_charge(cost), i) == stock(ledger, i)
                - stock(cost, i),
{
    if ledger.covers(cost) {
        assert forall|i: int| 0 <= i < 8 implies stock(ledger, i) - stock(cost, i) >= 0 by {}
    }
}

impl Default for Resources {
    fn default() -> (r: Resources)
        ensures
            r == Resources::zero(),
    {
        res_ext(0, 0, 0, 0, 0, 0, 0, 0)
    }
}

/// Helper to create resource bundle
pub fn res(wood: i64, stone: i64, food: i64, iron: i64, gold: i64) -> (r: Resources)
    ensures
        r == bundle(wood as int, stone as int, food as int, iron as int, gold as int, 0, 0, 0),
{
    Resources { wood, stone, food, iron, gold, energy: 0, science: 0, mana: 0 }
}

/// Create a resource bundle with all fields specified
pub fn res_ext(
    wood: i64,
    stone: i64,
    food: i64,
    iron: i64,
    gold: i64,
    energy: i64,
    science: i64,
    mana: i64,
) -> (r: Resources)
    ensures
        r == bundle(
            wood as int,
            stone as int,
            food as int,
            iron as int,
            gold as int,
            energy as int,
            science as int,
            mana as int,
        ),
{
    Resources { wood, stone, food, iron, gold, energy, science, mana }
}

} // verus!
