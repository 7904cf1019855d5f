//! The upgrade catalog: purchasable levels that multiply production.
use vstd::prelude::*;
use crate::fixed_point::{curve, grow, grows_by, lemma_curve_grows, UNIT};
use crate::buildings::units;
use crate::resources::{bundle, lemma_grown_stock, res, stock, Resources};

verus! {

/// Upgrades obtainable in game
#[derive(Clone, Copy, Debug, PartialEq, Eq, Structural, Hash)]
pub enum UpgradeType {
    /// Increases all yields
    Efficiency,
    /// Increases resource storage cap
    Storage,
    /// Boost mana production
    AlchemyBoost,
}

/// Static data for an upgrade
pub struct UpgradeInfo {
    /// Cost of the first level
    pub base_cost: Resources,
    /// Growth of the cost per level, in millionths
    pub growth: i64,
    /// Multiplier contributed by each level, in millionths
    pub multiplier: i64,
}

/// The static table of every upgrade type.
pub open spec fn upgrade_info(ty: UpgradeType) -> UpgradeInfo {
    match ty {
        UpgradeType::Efficiency => UpgradeInfo {
            base_cost: bundle(units(50), units(50), 0, 0, 0, 0, 0, 0),
            growth: 1_500_000,
            multiplier: 1_100_000,
        },
        UpgradeType::Storage => UpgradeInfo {
            base_cost: bundle(units(100), units(100), 0, 0, 0, 0, 0, 0),
            growth: 1_700_000,
            multiplier: 1_200_000,
        },
        UpgradeType::AlchemyBoost => UpgradeInfo {
            base_cost: bundle(0, 0, 0, 0, units(200), 0, 0, 0),
            growth: 2_000_000,
            multiplier: 1_500_000,
        },
    }
}

/// Cost of the level after `level` of an upgrade.
pub open spec fn upgrade_cost(ty: UpgradeType, level: nat) -> Resources {
    upgrade_info(ty).base_cost.grown(upgrade_info(ty).growth as int, level)
}

/// Multiplier of an upgrade at `level`: its per-level multiplier raised to
/// `level`, in millionths.
pub open spec fn upgrade_multiplier(ty: UpgradeType, level: nat) -> int {
    curve(UNIT as int, upgrade_info(ty).multiplier as int, level)
}

/// Each level of an upgrade costs its growth factor times the level before,
/// stock by stock, rounded down by less than one millionth of a unit: every
/// stock that the cost charges rises strictly, and the others stay zero.
/// This holds while the next cost stays below the top of the range.
pub proof fn lemma_upgrade_cost_growth(ty: UpgradeType, n: nat)
    requires
        forall|i: int| 0 <= i < 8 ==> #[trigger] stock(upgrade_cost(ty, n + 1), i) < i64::MAX,
    ensures
        forall|i: int|
            0 <= i < 8 ==> grows_by(
                #[trigger] stock(upgrade_cost(ty, n), i),
                stock(upgrade_cost(ty, n + 1), i),
                upgrade_info(ty).growth as int,
            ),
{
    let base = upgrade_info(ty).base_cost;
    let rate = upgrade_info(ty).growth as int;
    assert forall|i: int|
        0 <= i < 8 implies grows_by(
        #[trigger] stock(upgrade_cost(ty, n), i),
        stock(upgrade_cost(ty, n + 1), i),
        rate,
    ) by {
        lemma_grown_stock(base, rate, n, i);
        lemma_grown_stock(base, rate, n + 1, i);
        assert(stock(upgrade_cost(ty, n + 1), i) < i64::MAX);
        assert(stock(base, i) == 0 || stock(base, i) >= 50 * UNIT);
        assert(stock(base, i) == 0 || stock(base, i) * (rate - UNIT) >= UNIT) by (nonlinear_arith)
            requires
                stock(base, i) == 0 || stock(base, i) >= 50 * UNIT,
                rate >= 1_500_000,
        ;
        lemma_curve_grows(stock(base, i), rate, n);
    }
}

fn info(ty: UpgradeType) -> (r: UpgradeInfo)
    ensures
        r == upgrade_info(ty),
        r.base_cost.is_non_negative(),
        r.growth > UNIT,
        r.multiplier > UNIT,
{
    match ty {
        UpgradeType::Efficiency => UpgradeInfo {
            base_cost: res(50 * UNIT, 50 * UNIT, 0, 0, 0),
            growth: 1_500_000,
            multiplier: 1_100_000,
        },
        UpgradeType::Storage => UpgradeInfo {
            base_cost: res(100 * UNIT, 100 * UNIT, 0, 0, 0),
            growth: 1_700_000,
            multiplier: 1_200_000,
        },
        UpgradeType::AlchemyBoost => UpgradeInfo {
            base_cost: res(0, 0, 0, 0, 200 * UNIT),
            growth: 2_000_000,
            multiplier: 1_500_000,
        },
    }
}

/// Owned upgrades: one level per type, zero for a type never bought.
#[derive(Clone, Copy, Debug, PartialEq, Eq, Structural)]
pub struct Upgrades {
    efficiency: u32,
    storage: u32,
    alchemy_boost: u32,
}

impl Upgrades {
    /// Owned level of an upgrade.
    pub closed spec fn level_of(self, ty: UpgradeType) -> u32 {
        match ty {
            UpgradeType::Efficiency => self.efficiency,
            UpgradeType::Storage => self.storage,
            UpgradeType::AlchemyBoost => self.alchemy_boost,
        }
    }

    /// The same upgrades with the level of `ty` replaced by `level`.
    pub closed spec fn with_level(self, ty: UpgradeType, level: u32) -> Upgrades {
        match ty {
            UpgradeType::Efficiency => Upgrades { efficiency: level, ..self },
            UpgradeType::Storage => Upgrades { storage: level, ..self },
            UpgradeType::AlchemyBoost => Upgrades { alchemy_boost: level, ..self },
        }
    }

    /// No upgrade owned.
    pub closed spec fn empty() -> Upgrades {
        Upgrades { efficiency: 0, storage: 0, alchemy_boost: 0 }
    }

    /// Changing one level leaves the others as they are.
    pub broadcast proof fn lemma_with_level(self, ty: UpgradeType, level: u32, other: UpgradeType)
        ensures
            #[trigger] self.with_level(ty, level).level_of(other) == if other == ty {
                level
            } else {
                self.level_of(other)
            },
    {
    }

    /// Nothing is owned at first.
    pub broadcast proof fn lemma_empty(ty: UpgradeType)
        ensures
            #[trigger] Upgrades::empty().level_of(ty) == 0,
    {
    }

    /// Two sets of upgrades with the same level for every type are the same.
    pub proof fn lemma_ext(a: Upgrades, b: Upgrades)
        requires
            forall|t: UpgradeType| #[trigger] a.level_of(t) == b.level_of(t),
        ensures
            a == b,
    {
        assert(a.level_of(UpgradeType::Efficiency) == b.level_of(UpgradeType::Efficiency));
        assert(a.level_of(UpgradeType::Storage) == b.level_of(UpgradeType::Storage));
        assert(a.level_of(UpgradeType::AlchemyBoost) == b.level_of(UpgradeType::AlchemyBoost));
    }

    /// Level of upgrade
    pub fn level(&self, ty: UpgradeType) -> (r: u32)
        ensures
            r == self.level_of(ty),
    {
        match ty {
            UpgradeType::Efficiency => self.efficiency,
            UpgradeType::Storage => self.storage,
            UpgradeType::AlchemyBoost => self.alchemy_boost,
        }
    }

    /// Replace the level of one upgrade.
    pub(crate) fn set_level(&mut self, ty: UpgradeType, level: u32)
        ensures
            *final(self) == old(self).with_level(ty, level),
    {
        match ty {
            UpgradeType::Efficiency => self.efficiency = level,
            UpgradeType::Storage => self.storage = level,
            UpgradeType::AlchemyBoost => self.alchemy_boost = level,
        }
    }

    /// Current multiplier for upgrade, in millionths
    pub fn multiplier(&self, ty: UpgradeType) -> (r: i64)
        ensures
            r == upgrade_multiplier(ty, self.level_of(ty) as nat),
            r >= UNIT,
    {
        grow(UNIT, info(ty).multiplier, self.level(ty))
    }

    /// Cost to purchase next level
    pub fn cost(&self, ty: UpgradeType) -> (r: Resources)
        ensures
            r == upgrade_cost(ty, self.level_of(ty) as nat),
    {
        let i = info(ty);
        i.base_cost.grow_by(i.growth, self.level(ty))
    }

    /// Attempt to purchase.
    ///
    /// On success the cost of the next level is charged and the level rises
    /// by one; on failure neither the ledger nor the levels change.
    pub fn purchase(&mut self, ty: UpgradeType, res: &mut Resources) -> (r: bool)
        requires
            old(self).level_of(ty) < u32::MAX,
        ensures
            r == old(res).covers(upgrade_cost(ty, old(self).level_of(ty) as nat)),
            *final(res) == old(res).after_charge(upgrade_cost(ty, old(self).level_of(ty) as nat)),
            *final(self) == if r {
                old(self).with_level(ty, (old(self).level_of(ty) + 1) as u32)
            } else {
                *old(self)
            },
    {
        let cost = self.cost(ty);
        if res.subtract(&cost) {
            let level = self.level(ty);
            self.set_level(ty, level + 1);
            true
        } else {
            false
        }
    }
}

impl Default for Upgrades {
    fn default() -> (r: Upgrades)
        ensures
            r == Upgrades::empty(),
    {
        Upgrades { efficiency: 0, storage: 0, alchemy_boost: 0 }
    }
}

} // verus!
