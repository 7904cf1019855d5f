//! The building catalog: static cost and yield tables, and owned levels.
use vstd::prelude::*;
use crate::fixed_point::{grows_by, lemma_curve_grows, UNIT};
use crate::resources::{bundle, lemma_grown_stock, res, res_ext, stock, Resources};

verus! {

/// Types of buildings available in the game
#[derive(Clone, Copy, Debug, PartialEq, Eq, Structural, Hash)]
pub enum BuildingType {
    /// Produces food
    Farm,
    /// Produces wood passively
    LumberMill,
    /// Produces stone passively
    Quarry,
    /// Produces iron passively
    Mine,
    /// Converts food into gold
    Bakery,
    /// Generates energy
    Generator,
    /// Produces science
    Lab,
    /// Generates mana slowly
    Shrine,
}

/// Static data for a building
pub struct BuildingInfo {
    /// Cost of the first level
    pub base_cost: Resources,
    /// Growth of the cost per level, in millionths
    pub growth: i64,
    /// What one level yields per tick
    pub yield_per_tick: Resources,
}

/// A whole number of units, in millionths.
pub open spec fn units(n: int) -> int {
    n * UNIT as int
}

/// The static table of every building type.
pub open spec fn building_info(ty: BuildingType) -> BuildingInfo {
    match ty {
        BuildingType::Farm => BuildingInfo {
            base_cost: bundle(units(10), units(10), 0, 0, 0, 0, 0, 0),
            growth: 1_150_000,
            yield_per_tick: bundle(0, 0, units(1), 0, 0, 0, 0, 0),
        },
        BuildingType::LumberMill => BuildingInfo {
            base_cost: bundle(units(15), units(5), 0, 0, 0, 0, 0, 0),
            growth: 1_150_000,
            yield_per_tick: bundle(units(1), 0, 0, 0, 0, 0, 0, 0),
        },
        BuildingType::Quarry => BuildingInfo {
            base_cost: bundle(units(5), units(15), 0, 0, 0, 0, 0, 0),
            growth: 1_150_000,
            yield_per_tick: bundle(0, units(1), 0, 0, 0, 0, 0, 0),
        },
        BuildingType::Mine => BuildingInfo {
            base_cost: bundle(units(20), units(20), 0, 0, 0, 0, 0, 0),
            growth: 1_200_000,
            yield_per_tick: bundle(0, 0, 0, units(1), 0, 0, 0, 0),
        },
        BuildingType::Bakery => BuildingInfo {
            base_cost: bundle(units(50), units(25), units(100), units(10), 0, 0, 0, 0),
            growth: 1_200_000,
            yield_per_tick: bundle(0, 0, -units(1), 0, 200_000, 0, 0, 0),
        },
        BuildingType::Generator => BuildingInfo {
            base_cost: bundle(units(30), units(20), 0, units(5), units(10), 0, 0, 0),
            growth: 1_250_000,
            yield_per_tick: bundle(0, 0, 0, 0, 0, units(1), 0, 0),
        },
        BuildingType::Lab => BuildingInfo {
            base_cost: bundle(units(50), units(50), 0, units(10), units(20), 0, 0, 0),
            growth: 1_250_000,
            yield_per_tick: bundle(0, 0, 0, 0, 0, -500_000, 500_000, 0),
        },
        BuildingType::Shrine => BuildingInfo {
            base_cost: bundle(units(100), units(100), 0, units(50), 0, 0, 0, 0),
            growth: 1_300_000,
            yield_per_tick: bundle(0, 0, 0, 0, 0, 0, 0, 200_000),
        },
    }
}

/// Cost of the level after `level` of a building type: the base cost grown
/// `level` times by the type's growth factor.
pub open spec fn building_cost(ty: BuildingType, level: nat) -> Resources {
    building_info(ty).base_cost.grown(building_info(ty).growth as int, level)
}

/// What `level` levels of a building type yield per tick.
pub open spec fn building_yield(ty: BuildingType, level: u32) -> Resources {
    building_info(ty).yield_per_tick.scaled(level * UNIT)
}

/// Each level of a building costs its growth factor times the level before,
/// stock by stock, rounded down by less than one millionth of a unit: every
/// stock that the cost charges rises strictly, and the others stay zero.
/// This holds while the next cost stays below the top of the range.
pub proof fn lemma_building_cost_growth(ty: BuildingType, n: nat)
    requires
        forall|i: int| 0 <= i < 8 ==> #[trigger] stock(building_cost(ty, n + 1), i) < i64::MAX,
    ensures
        forall|i: int|
            0 <= i < 8 ==> grows_by(
                #[trigger] stock(building_cost(ty, n), i),
                stock(building_cost(ty, n + 1), i),
                building_info(ty).growth as int,
            ),
{
    let base = building_info(ty).base_cost;
    let rate = building_info(ty).growth as int;
    assert forall|i: int|
        0 <= i < 8 implies grows_by(
        #[trigger] stock(building_cost(ty, n), i),
        stock(building_cost(ty, n + 1), i),
        rate,
    ) by {
        lemma_grown_stock(base, rate, n, i);
        lemma_grown_stock(base, rate, n + 1, i);
        assert(stock(building_cost(ty, n + 1), i) < i64::MAX);
        assert(stock(base, i) == 0 || stock(base, i) >= 5 * UNIT);
        assert(stock(base, i) == 0 || stock(base, i) * (rate - UNIT) >= UNIT) by (nonlinear_arith)
            requires
                stock(base, i) == 0 || stock(base, i) >= 5 * UNIT,
                rate >= 1_150_000,
        ;
        lemma_curve_grows(stock(base, i), rate, n);
    }
}

fn info(ty: BuildingType) -> (r: BuildingInfo)
    ensures
        r == building_info(ty),
        r.base_cost.is_non_negative(),
        r.growth > UNIT,
{
    match ty {
        BuildingType::Farm => BuildingInfo {
            base_cost: res(10 * UNIT, 10 * UNIT, 0, 0, 0),
            growth: 1_150_000,
            yield_per_tick: res(0, 0, UNIT, 0, 0),
        },
        BuildingType::LumberMill => BuildingInfo {
            base_cost: res(15 * UNIT, 5 * UNIT, 0, 0, 0),
            growth: 1_150_000,
            yield_per_tick: res(UNIT, 0, 0, 0, 0),
        },
        BuildingType::Quarry => BuildingInfo {
            base_cost: res(5 * UNIT, 15 * UNIT, 0, 0, 0),
            growth: 1_150_000,
            yield_per_tick: res(0, UNIT, 0, 0, 0),
        },
        BuildingType::Mine => BuildingInfo {
            base_cost: res(20 * UNIT, 20 * UNIT, 0, 0, 0),
            growth: 1_200_000,
            yield_per_tick: res(0, 0, 0, UNIT, 0),
        },
        BuildingType::Bakery => BuildingInfo {
            base_cost: res(50 * UNIT, 25 * UNIT, 100 * UNIT, 10 * UNIT, 0),
            growth: 1_200_000,
            yield_per_tick: res(0, 0, -UNIT, 0, 200_000),
        },
        BuildingType::Generator => BuildingInfo {
            base_cost: res(30 * UNIT, 20 * UNIT, 0, 5 * UNIT, 10 * UNIT),
            growth: 1_250_000,
            yield_per_tick: res_ext(0, 0, 0, 0, 0, UNIT, 0, 0),
        },
        BuildingType::Lab => BuildingInfo {
            base_cost: res(50 * UNIT, 50 * UNIT, 0, 10 * UNIT, 20 * UNIT),
            growth: 1_250_000,
            yield_per_tick: res_ext(0, 0, 0, 0, 0, -500_000, 500_000, 0),
        },
        BuildingType::Shrine => BuildingInfo {
            base_cost: res(100 * UNIT, 100 * UNIT, 0, 50 * UNIT, 0),
            growth: 1_300_000,
            yield_per_tick: res_ext(0, 0, 0, 0, 0, 0, 0, 200_000),
        },
    }
}

fn cost_for(ty: BuildingType, level: u32) -> (r: Resources)
    ensures
        r == building_cost(ty, level as nat),
        r.is_non_negative(),
{
    let info = info(ty);
    info.base_cost.grow_by(info.growth, level)
}

/// Player owned buildings: one level per type, zero for a type never built.
#[derive(Clone, Copy, Debug, PartialEq, Eq, Structural)]
pub struct Buildings {
    farm: u32,
    lumber_mill: u32,
    quarry: u32,
    mine: u32,
    bakery: u32,
    generator: u32,
    lab: u32,
    shrine: u32,
}

impl Buildings {
    /// Owned level of a building type.
    pub closed spec fn level_of(self, ty: BuildingType) -> u32 {
        match ty {
            BuildingType::Farm => self.farm,
            BuildingType::LumberMill => self.lumber_mill,
            BuildingType::Quarry => self.quarry,
            BuildingType::Mine => self.mine,
            BuildingType::Bakery => self.bakery,
            BuildingType::Generator => self.generator,
            BuildingType::Lab => self.lab,
            BuildingType::Shrine => self.shrine,
        }
    }

    /// The same buildings with the level of `ty` replaced by `level`.
    pub closed spec fn with_level(self, ty: BuildingType, level: u32) -> Buildings {
        match ty {
            BuildingType::Farm => Buildings { farm: level, ..self },
            BuildingType::LumberMill => Buildings { lumber_mill: level, ..self },
            BuildingType::Quarry => Buildings { quarry: level, ..self },
            BuildingType::Mine => Buildings { mine: level, ..self },
            BuildingType::Bakery => Buildings { bakery: level, ..self },
            BuildingType::Generator => Buildings { generator: level, ..self },
            BuildingType::Lab => Buildings { lab: level, ..self },
            BuildingType::Shrine => Buildings { shrine: level, ..self },
        }
    }

    /// No building owned.
    pub closed spec fn empty() -> Buildings {
        Buildings {
            farm: 0,
            lumber_mill: 0,
            quarry: 0,
            mine: 0,
            bakery: 0,
            generator: 0,
            lab: 0,
            shrine: 0,
        }
    }

    /// Sum of the per-tick yield of every owned type, in catalog order.
    pub open spec fn yield_total(self) -> Resources {
        Resources::zero().plus(building_yield(BuildingType::Farm, self.level_of(BuildingType::Farm))).plus(
            building_yield(BuildingType::LumberMill, self.level_of(BuildingType::LumberMill)),
        ).plus(building_yield(BuildingType::Quarry, self.level_of(BuildingType::Quarry))).plus(
            building_yield(BuildingType::Mine, self.level_of(BuildingType::Mine)),
        ).plus(building_yield(BuildingType::Bakery, self.level_of(BuildingType::Bakery))).plus(
            building_yield(BuildingType::Generator, self.level_of(BuildingType::Generator)),
        ).plus(building_yield(BuildingType::Lab, self.level_of(BuildingType::Lab))).plus(
            building_yield(BuildingType::Shrine, self.level_of(BuildingType::Shrine)),
        )
    }

    /// Changing one level leaves the others as they are.
    pub broadcast proof fn lemma_with_level(self, ty: BuildingType, level: u32, other: BuildingType)
        ensures
            #[trigger] self.with_level(ty, level).level_of(other) == if other == ty {
                level
            } else {
                self.level_of(other)
            },
    {
    }

    /// The empty catalog owns nothing.
    pub broadcast proof fn lemma_empty(ty: BuildingType)
        ensures
            #[trigger] Buildings::empty().level_of(ty) == 0,
    {
    }

    /// Two catalogs with the same level for every type are the same.
    pub proof fn lemma_ext(a: Buildings, b: Buildings)
        requires
            forall|t: BuildingType| #[trigger] a.level_of(t) == b.level_of(t),
        ensures
            a == b,
    {
        assert(a.level_of(BuildingType::Farm) == b.level_of(BuildingType::Farm));
        assert(a.level_of(BuildingType::LumberMill) == b.level_of(BuildingType::LumberMill));
        assert(a.level_of(BuildingType::Quarry) == b.level_of(BuildingType::Quarry));
        assert(a.level_of(BuildingType::Mine) == b.level_of(BuildingType::Mine));
        assert(a.level_of(BuildingType::Bakery) == b.level_of(BuildingType::Bakery));
        assert(a.level_of(BuildingType::Generator) == b.level_of(BuildingType::Generator));
        assert(a.level_of(BuildingType::Lab) == b.level_of(BuildingType::Lab));
        assert(a.level_of(BuildingType::Shrine) == b.level_of(BuildingType::Shrine));
    }

    /// Current level of building
    pub fn level(&self, ty: BuildingType) -> (r: u32)
        ensures
            r == self.level_of(ty),
    {
        match ty {
            BuildingType::Farm => self.farm,
            BuildingType::LumberMill => self.lumber_mill,
            BuildingType::Quarry => self.quarry,
            BuildingType::Mine => self.mine,
            BuildingType::Bakery => self.bakery,
            BuildingType::Generator => self.generator,
            BuildingType::Lab => self.lab,
            BuildingType::Shrine => self.shrine,
        }
    }

    /// Replace the level of one building type.
    pub(crate) fn set_level(&mut self, ty: BuildingType, level: u32)
        ensures
            *final(self) == old(self).with_level(ty, level),
    {
        match ty {
            BuildingType::Farm => self.farm = level,
            BuildingType::LumberMill => self.lumber_mill = level,
            BuildingType::Quarry => self.quarry = level,
            BuildingType::Mine => self.mine = level,
            BuildingType::Bakery => self.bakery = level,
            BuildingType::Generator => self.generator = level,
            BuildingType::Lab => self.lab = level,
            BuildingType::Shrine => self.shrine = level,
        }
    }

    /// Cost to build next level
    pub fn cost(&self, ty: BuildingType) -> (r: Resources)
        ensures
            r == building_cost(ty, self.level_of(ty) as nat),
    {
        cost_for(ty, self.level(ty))
    }

    /// Increase level
    pub fn increment(&mut self, ty: BuildingType)
        requires
            old(self).level_of(ty) < u32::MAX,
        ensures
            *final(self) == old(self).with_level(ty, (old(self).level_of(ty) + 1) as u32),
    {
        let level = self.level(ty);
        self.set_level(ty, level + 1);
    }

    /// Decrease level by amount, never below zero
    pub fn decrement(&mut self, ty: BuildingType, amount: u32)
        ensures
            *final(self) == old(self).with_level(
                ty,
                if old(self).level_of(ty) >= amount {
                    (old(self).level_of(ty) - amount) as u32
                } else {
                    0
                },
            ),
    {
        let level = self.level(ty);
        self.set_level(ty, level.saturating_sub(amount));
    }

    /// Total yield per tick of all buildings
    pub fn total_yield(&self) -> (r: Resources)
        ensures
            r == self.yield_total(),
    {
        let mut r = Resources::default();
        r.add(&info(BuildingType::Farm).yield_per_tick.scale(self.farm as i64 * UNIT));
        r.add(&info(BuildingType::LumberMill).yield_per_tick.scale(self.lumber_mill as i64 * UNIT));
        r.add(&info(BuildingType::Quarry).yield_per_tick.scale(self.quarry as i64 * UNIT));
        r.add(&info(BuildingType::Mine).yield_per_tick.scale(self.mine as i64 * UNIT));
        r.add(&info(BuildingType::Bakery).yield_per_tick.scale(self.bakery as i64 * UNIT));
        r.add(&info(BuildingType::Generator).yield_per_tick.scale(self.generator as i64 * UNIT));
        r.add(&info(BuildingType::Lab).yield_per_tick.scale(self.lab as i64 * UNIT));
        r.add(&info(BuildingType::Shrine).yield_per_tick.scale(self.shrine as i64 * UNIT));
        r
    }

    /// Attempt to build if resources are sufficient.
    ///
    /// On success the cost of the next level is charged and the level rises
    /// by one; on failure neither the ledger nor the levels change.
    pub fn build(&mut self, ty: BuildingType, res: &mut Resources) -> (r: bool)
        requires
            old(self).level_of(ty) < u32::MAX,
        ensures
            r == old(res).covers(building_cost(ty, old(self).level_of(ty) as nat)),
            *final(res) == old(res).after_charge(building_cost(ty, old(self).level_of(ty) as nat)),
            *final(self) == if r {
                old(self).with_level(ty, (old(self).level_of(ty) + 1) as u32)
            } else {
                *old(self)
            },
    {
        let cost = self.cost(ty);
        if res.subtract(&cost) {
            self.increment(ty);
            true
        } else {
            false
        }
    }

    /// Cost of the level after `level` of a building type
    pub fn cost_for_level(ty: BuildingType, level: u32) -> (r: Resources)
        ensures
            r == building_cost(ty, level as nat),
    {
        cost_for(ty, level)
    }
}

impl Default for Buildings {
    fn default() -> (r: Buildings)
        ensures
            r == Buildings::empty(),
    {
        Buildings {
            farm: 0,
            lumber_mill: 0,
            quarry: 0,
            mine: 0,
            bakery: 0,
            generator: 0,
            lab: 0,
            shrine: 0,
        }
    }
}

} // verus!
