//! The progression engine: per-tick yield, catch-up over elapsed time, the
//! player's actions, and prestige.
use vstd::prelude::*;
use rand::rngs::StdRng;
use crate::achievements::Achievements;
use crate::buildings::{building_cost, BuildingType, Buildings};
use crate::events::{
    after_roll, apply_roll, roll_event, roll_possible, EventRoll, FARM_LOSS_CHANCE, TREASURE_END,
};
use crate::fixed_point::{mul_div, scale_amount, UNIT};
use crate::prestige::{points_for, points_for_gold, Prestige, BONUS_PER_POINT};
use crate::research::{Research, Tech};
use crate::resources::{bundle, res, Resources};
use crate::names::{
    building_from_name, building_named, stock_by_name, stock_named, tech_from_name, tech_named,
};
use crate::text::{opt_text, texts, texts_sorted};
use crate::upgrades::{upgrade_multiplier, UpgradeType, Upgrades};

verus! {

/// Current save format version
pub const SAVE_VERSION: u32 = 2;

/// Shortest tick, in milliseconds.
pub const MIN_TICK_MS: u64 = 200;

/// Longest tick, in milliseconds.
pub const MAX_TICK_MS: u64 = 10_000;

/// Tick length of a new game, in milliseconds.
pub const DEFAULT_TICK_MS: u64 = 1_000;

/// Longest span that one advance catches up on, in milliseconds (eight hours).
pub const CATCH_UP_CAP_MS: u64 = 8 * 3600 * 1000;

/// The ledger, buildings and milestones: what ticks change.
pub type Stocks = (Resources, Buildings, Achievements);

/// The upgrades, research and prestige: what ticks read but never change.
pub type Modifiers = (Upgrades, Research, Prestige);

/// The ledger of a new game: enough wood and stone for a first farm.
pub open spec fn starting_resources() -> Resources {
    bundle(20 * UNIT, 20 * UNIT, 0, 0, 0, 0, 0, 0)
}

/// The technology a building type needs before it can be built.
pub open spec fn gate_of(ty: BuildingType) -> Option<Tech> {
    match ty {
        BuildingType::Mine => Some(Tech::Mining),
        BuildingType::Bakery => Some(Tech::Baking),
        BuildingType::Generator => Some(Tech::Electricity),
        BuildingType::Lab => Some(Tech::Education),
        BuildingType::Shrine => Some(Tech::Alchemy),
        _ => None,
    }
}

/// The technology a building type needs before it can be built.
pub fn required_tech(ty: BuildingType) -> (r: Option<Tech>)
    ensures
        r == gate_of(ty),
{
    match ty {
        BuildingType::Mine => Some(Tech::Mining),
        BuildingType::Bakery => Some(Tech::Baking),
        BuildingType::Generator => Some(Tech::Electricity),
        BuildingType::Lab => Some(Tech::Education),
        BuildingType::Shrine => Some(Tech::Alchemy),
        _ => None,
    }
}

/// Per-tick yield of the buildings, raised by the efficiency upgrade and the
/// prestige bonus; positive mana is raised once more by the alchemy boost.
pub open spec fn yield_of(b: Buildings, u: Upgrades, p: Prestige) -> Resources {
    let boosted = b.yield_total().scaled(
        upgrade_multiplier(UpgradeType::Efficiency, u.level_of(UpgradeType::Efficiency) as nat),
    ).scaled(UNIT + p.points * BONUS_PER_POINT);
    if boosted.mana > 0 {
        Resources {
            mana: mul_div(
                boosted.mana as int,
                upgrade_multiplier(
                    UpgradeType::AlchemyBoost,
                    u.level_of(UpgradeType::AlchemyBoost) as nat,
                ),
                UNIT as int,
            ) as i64,
            ..boosted
        }
    } else {
        boosted
    }
}

/// Messages of an optional event.
pub open spec fn opt_seq(m: Option<Seq<char>>) -> Seq<Seq<char>> {
    match m {
        Some(t) => seq![t],
        None => Seq::empty(),
    }
}

/// One tick: the yield is added and the ledger clamped, the roll is
/// applied, then the milestones are checked. Gives the new stocks and the
/// messages emitted, in order.
#[verifier::opaque]
pub open spec fn tick_step(s: Stocks, m: Modifiers, roll: EventRoll) -> (Stocks, Seq<Seq<char>>) {
    let fed = s.0.plus(yield_of(s.1, m.0, m.2)).clamped();
    let event = after_roll(s.1, fed, roll);
    let found = s.2.after_check(event.0, m.1);
    ((event.1, event.0, found.0), opt_seq(event.2) + found.1)
}

/// The stocks and messages after one tick per roll, in order.
pub open spec fn run_ticks(s: Stocks, m: Modifiers, rolls: Seq<EventRoll>) -> (
    Stocks,
    Seq<Seq<char>>,
)
    decreases rolls.len(),
{
    if rolls.len() == 0 {
        (s, Seq::empty())
    } else {
        let before = run_ticks(s, m, rolls.drop_last());
        let after = tick_step(before.0, m, rolls.last());
        (after.0, before.1 + after.1)
    }
}

/// Whole ticks of `rate` milliseconds from `prev` to `now`, the span capped
/// at `CATCH_UP_CAP_MS`; none when `now` is not after `prev`.
pub open spec fn ticks_between(prev: u64, now: u64, rate: u64) -> nat {
    if now <= prev {
        0
    } else if now - prev > CATCH_UP_CAP_MS {
        (CATCH_UP_CAP_MS / rate) as nat
    } else {
        ((now - prev) / (rate as int)) as nat
    }
}

/// Ticks that an advance to `now` simulates: none on the first advance.
pub open spec fn ticks_due(last: Option<u64>, now: u64, rate: u64) -> nat {
    match last {
        None => 0,
        Some(prev) => ticks_between(prev, now, rate),
    }
}

/// Timestamp after an advance to `now`: the first advance anchors the clock
/// at `now`; later ones move it on by exactly the whole ticks simulated, so
/// that the part of a tick left over counts towards the next advance. Only
/// a span beyond the catch-up cap, whose excess is never simulated, moves
/// the clock up to `now`.
pub open spec fn next_anchor(last: Option<u64>, now: u64, rate: u64) -> Option<u64> {
    match last {
        None => Some(now),
        Some(prev) => {
            if now > prev && now - prev > CATCH_UP_CAP_MS {
                Some(now)
            } else {
                Some((prev + ticks_between(prev, now, rate) * rate) as u64)
            }
        },
    }
}

/// Game state containing all persistent data
pub struct GameState {
    /// Version of save
    pub version: u32,
    /// Player resources
    pub resources: Resources,
    /// Owned buildings
    pub buildings: Buildings,
    /// Purchased upgrades
    pub upgrades: Upgrades,
    /// Researched techs
    pub research: Research,
    /// Achievements unlocked
    pub achievements: Achievements,
    /// Prestige information
    pub prestige: Prestige,
    /// Pending event log messages
    pub event_log: Vec<String>,
    /// Chance of a random event each tick, in millionths
    pub event_chance: u32,
    /// Tick length in milliseconds; `set_tick_rate` keeps it within its window
    pub tick_rate: u64,
    /// Last update timestamp in milliseconds
    pub last_update: Option<u64>,
}

impl GameState {
    /// The state carries the current save version and a tick length within
    /// its allowed window.
    pub open spec fn wf(self) -> bool {
        &&& self.version == SAVE_VERSION
        &&& self.rate_ok()
    }

    /// The tick length lies within its allowed window.
    pub open spec fn rate_ok(self) -> bool {
        MIN_TICK_MS <= self.tick_rate <= MAX_TICK_MS
    }

    /// The ledger, buildings and milestones.
    pub open spec fn stocks(self) -> Stocks {
        (self.resources, self.buildings, self.achievements)
    }

    /// The upgrades, research and prestige.
    pub open spec fn modifiers(self) -> Modifiers {
        (self.upgrades, self.research, self.prestige)
    }

    /// The building type that a build by this name would raise: a known
    /// type whose technology is researched and whose level can still grow.
    pub open spec fn buildable(self, name: Seq<char>) -> Option<BuildingType> {
        match building_named(name) {
            None => None,
            Some(ty) => {
                if (gate_of(ty) matches Some(t) && !self.research.has(t))
                    || self.buildings.level_of(ty) == u32::MAX {
                    None
                } else {
                    Some(ty)
                }
            },
        }
    }

    /// Per-tick yield of this state.
    pub open spec fn tick_yield_spec(self) -> Resources {
        yield_of(self.buildings, self.upgrades, self.prestige)
    }

    /// Create a new game state
    pub fn new() -> (r: GameState)
        ensures
            r.wf(),
            r.version == SAVE_VERSION,
            r.resources == starting_resources(),
            r.buildings == Buildings::empty(),
            r.upgrades == Upgrades::empty(),
            r.research == Research::empty(),
            r.achievements == Achievements::empty(),
            r.prestige.points == 0,
            r.event_log@.len() == 0,
            r.event_chance == FARM_LOSS_CHANCE,
            r.tick_rate == DEFAULT_TICK_MS,
            r.last_update is None,
    {
        GameState {
            version: SAVE_VERSION,
            // Provide some starting supplies so the player can build a first farm
            resources: res(20 * UNIT, 20 * UNIT, 0, 0, 0),
            buildings: Buildings::default(),
            upgrades: Upgrades::default(),
            research: Research::default(),
            achievements: Achievements::default(),
            prestige: Prestige::default(),
            event_log: Vec::new(),
            event_chance: FARM_LOSS_CHANCE,
            tick_rate: DEFAULT_TICK_MS,
            last_update: None,
        }
    }

    /// Set the tick length, clamped to `MIN_TICK_MS..=MAX_TICK_MS`. It takes
    /// effect on the next advance.
    pub fn set_tick_rate(&mut self, ms: u64)
        ensures
            final(self).tick_rate == if ms < MIN_TICK_MS {
                MIN_TICK_MS
            } else if ms > MAX_TICK_MS {
                MAX_TICK_MS
            } else {
                ms
            },
            *final(self) == (GameState { tick_rate: final(self).tick_rate, ..*old(self) }),
            final(self).rate_ok(),
    {
        self.tick_rate = if ms < MIN_TICK_MS {
            MIN_TICK_MS
        } else if ms > MAX_TICK_MS {
            MAX_TICK_MS
        } else {
            ms
        };
    }

    /// Compute building yield with upgrades
    fn tick_yield(&self) -> (r: Resources)
        ensures
            r == self.tick_yield_spec(),
    {
        let mut r = self.buildings.total_yield();
        let m = self.upgrades.multiplier(UpgradeType::Efficiency);
        r = r.scale(m);
        r = r.scale(self.prestige.bonus_multiplier());
        if r.mana > 0 {
            r.mana = scale_amount(r.mana, self.upgrades.multiplier(UpgradeType::AlchemyBoost), UNIT);
        }
        r
    }

    /// Net change of each resource per second
    pub fn resource_rate(&self) -> (r: Resources)
        requires
            self.rate_ok(),
        ensures
            r == self.tick_yield_spec().ratio(1000, self.tick_rate as int),
    {
        self.tick_yield().ratio_of(1000, self.tick_rate as i64)
    }

    /// Runs one tick with a given event roll: the yield is added and the
    /// ledger clamped, the roll is applied, the milestones are checked, and
    /// every message is queued.
    pub fn apply_tick(&mut self, roll: EventRoll)
        requires
            roll matches EventRoll::Treasure(amount) ==> amount < TREASURE_END,
        ensures
            final(self).stocks() == tick_step(old(self).stocks(), old(self).modifiers(), roll).0,
            texts(final(self).event_log@) == texts(old(self).event_log@) + tick_step(
                old(self).stocks(),
                old(self).modifiers(),
                roll,
            ).1,
            final(self).upgrades == old(self).upgrades,
            final(self).research == old(self).research,
            final(self).prestige == old(self).prestige,
            final(self).version == old(self).version,
            final(self).event_chance == old(self).event_chance,
            final(self).tick_rate == old(self).tick_rate,
            final(self).last_update == old(self).last_update,
    {
        reveal(tick_step);
        let y = self.tick_yield();
        self.resources.add(&y);
        self.resources.clamp_non_negative();
        let msg = apply_roll(&mut self.buildings, &mut self.resources, roll);
        let ghost log_before = self.event_log@;
        match msg {
            Some(m) => self.event_log.push(m),
            None => {},
        }
        let ghost log_mid = self.event_log@;
        assert(texts(log_mid) =~= texts(log_before) + opt_seq(opt_text(msg)));
        let mut found = self.achievements.check(&self.buildings, &self.research);
        let ghost found_view = found@;
        self.event_log.append(&mut found);
        assert(texts(self.event_log@) =~= texts(log_mid) + texts(found_view));
    }
}

/// One more roll is one more tick after the others.
pub proof fn lemma_run_push(s: Stocks, m: Modifiers, rolls: Seq<EventRoll>, roll: EventRoll)
    ensures
        run_ticks(s, m, rolls.push(roll)) == (
            tick_step(run_ticks(s, m, rolls).0, m, roll).0,
            run_ticks(s, m, rolls).1 + tick_step(run_ticks(s, m, rolls).0, m, roll).1,
        ),
{
    assert(rolls.push(roll).drop_last() =~= rolls);
}

impl Default for GameState {
    fn default() -> (r: GameState)
        ensures
            r.wf(),
            r.version == SAVE_VERSION,
            r.resources == starting_resources(),
            r.buildings == Buildings::empty(),
            r.upgrades == Upgrades::empty(),
            r.research == Research::empty(),
            r.achievements == Achievements::empty(),
            r.prestige.points == 0,
            r.event_log@.len() == 0,
            r.event_chance == FARM_LOSS_CHANCE,
            r.tick_rate == DEFAULT_TICK_MS,
            r.last_update is None,
    {
        Self::new()
    }
}

/// Ticking through one run of rolls and then another ends where ticking
/// through both runs at once ends, with the same messages in the same order.
pub proof fn lemma_run_concat(s: Stocks, m: Modifiers, first: Seq<EventRoll>, second: Seq<EventRoll>)
    ensures
        run_ticks(run_ticks(s, m, first).0, m, second).0 == run_ticks(s, m, first + second).0,
        run_ticks(s, m, first).1 + run_ticks(run_ticks(s, m, first).0, m, second).1 == run_ticks(
            s,
            m,
            first + second,
        ).1,
    decreases second.len(),
{
    let mid = run_ticks(s, m, first).0;
    if second.len() == 0 {
        assert(first + second =~= first);
        assert(run_ticks(s, m, first).1 + Seq::<Seq<char>>::empty() =~= run_ticks(s, m, first).1);
    } else {
        let rest = second.drop_last();
        lemma_run_concat(s, m, first, rest);
        assert((first + second).drop_last() =~= first + rest);
        assert((first + second).last() == second.last());
        let step = tick_step(run_ticks(mid, m, rest).0, m, second.last());
        assert(run_ticks(s, m, first).1 + (run_ticks(mid, m, rest).1 + step.1) =~= (run_ticks(
            s,
            m,
            first,
        ).1 + run_ticks(mid, m, rest).1) + step.1);
    }
}

/// Splitting an advance anywhere: advancing from `prev` to `mid` and then
/// from where that leaves the clock to `now` simulates as many ticks, and
/// leaves the clock at the same place, as advancing from `prev` to `now` at
/// once, when the whole span is within the catch-up cap.
pub proof fn lemma_split_advance(prev: u64, mid: u64, now: u64, rate: u64)
    requires
        MIN_TICK_MS <= rate,
        prev <= mid <= now,
        now - prev <= CATCH_UP_CAP_MS,
    ensures
        next_anchor(Some(prev), mid, rate) matches Some(anchor) && prev <= anchor <= mid
            && ticks_between(prev, mid, rate) + ticks_between(anchor, now, rate) == ticks_between(
            prev,
            now,
            rate,
        ) && next_anchor(Some(anchor), now, rate) == next_anchor(Some(prev), now, rate),
{
    let r = rate as int;
    let a = mid - prev;
    let q1 = a / r;
    vstd::arithmetic::div_mod::lemma_fundamental_div_mod(a, r);
    vstd::arithmetic::div_mod::lemma_mod_bound(a, r);
    assert(0 <= q1 * r <= a) by (nonlinear_arith)
        requires
            a == r * q1 + a % r,
            a % r >= 0,
            a >= 0,
            r > 0,
            q1 == a / r,
    ;
    assert(ticks_between(prev, mid, rate) == q1);
    let anchor = prev + q1 * r;
    assert(next_anchor(Some(prev), mid, rate) == Some(anchor as u64));
    let b = now - anchor;
    vstd::arithmetic::div_mod::lemma_fundamental_div_mod(b, r);
    vstd::arithmetic::div_mod::lemma_mod_bound(b, r);
    assert(now - prev == (q1 + b / r) * r + b % r) by (nonlinear_arith)
        requires
            b == r * (b / r) + b % r,
            b == now - prev - q1 * r,
    ;
    vstd::arithmetic::div_mod::lemma_fundamental_div_mod_converse_div(
        now - prev,
        r,
        q1 + b / r,
        b % r,
    );
    assert(ticks_between(anchor as u64, now, rate) == b / r);
    assert(ticks_between(prev, now, rate) == q1 + b / r);
    assert(anchor + (b / r) * r == prev + (q1 + b / r) * r) by (nonlinear_arith)
        requires
            anchor == prev + q1 * r,
    ;
}

/// Advancing in two steps leaves the ledger, buildings, milestones,
/// messages and clock exactly where one advance over the whole span leaves
/// them, when both draw the same rolls in the same order and the whole span
/// is within the catch-up cap. Applied step by step, it covers any run of
/// advances.
pub proof fn lemma_tick_additivity(
    g: GameState,
    mid: u64,
    now: u64,
    first: Seq<EventRoll>,
    second: Seq<EventRoll>,
)
    requires
        g.rate_ok(),
        g.last_update matches Some(prev) && prev <= mid <= now && now - prev <= CATCH_UP_CAP_MS,
        first.len() == ticks_due(g.last_update, mid, g.tick_rate),
        second.len() == ticks_due(next_anchor(g.last_update, mid, g.tick_rate), now, g.tick_rate),
    ensures
        first.len() + second.len() == ticks_due(g.last_update, now, g.tick_rate),
        next_anchor(next_anchor(g.last_update, mid, g.tick_rate), now, g.tick_rate) == next_anchor(
            g.last_update,
            now,
            g.tick_rate,
        ),
        run_ticks(run_ticks(g.stocks(), g.modifiers(), first).0, g.modifiers(), second).0
            == run_ticks(g.stocks(), g.modifiers(), first + second).0,
        run_ticks(g.stocks(), g.modifiers(), first).1 + run_ticks(
            run_ticks(g.stocks(), g.modifiers(), first).0,
            g.modifiers(),
            second,
        ).1 == run_ticks(g.stocks(), g.modifiers(), first + second).1,
{
    let prev = g.last_update->Some_0;
    lemma_split_advance(prev, mid, now, g.tick_rate);
    lemma_run_concat(g.stocks(), g.modifiers(), first, second);
}

impl GameState {
    /// Build a building by name.
    ///
    /// Fails, changing nothing, for an unknown name, a building whose
    /// technology is not researched, or a ledger that cannot pay the next
    /// level; otherwise the cost is charged and the level rises by one.
    pub fn build(&mut self, name: String) -> (r: bool)
        ensures
            match old(self).buildable(name@) {
                None => !r && *final(self) == *old(self),
                Some(ty) => {
                    let cost = building_cost(ty, old(self).buildings.level_of(ty) as nat);
                    &&& r == old(self).resources.covers(cost)
                    &&& *final(self) == (GameState {
                        resources: old(self).resources.after_charge(cost),
                        buildings: if r {
                            old(self).buildings.with_level(
                                ty,
                                (old(self).buildings.level_of(ty) + 1) as u32,
                            )
                        } else {
                            old(self).buildings
                        },
                        ..*old(self)
                    })
                },
            },
    {
        let ty = match building_from_name(name.as_str()) {
            Some(ty) => ty,
            None => return false,
        };
        // Check research requirements
        match required_tech(ty) {
            Some(tech) => {
                if !self.research.is_unlocked(tech) {
                    return false;
                }
            },
            None => {},
        }
        if self.buildings.level(ty) == u32::MAX {
            return false;
        }
        self.buildings.build(ty, &mut self.resources)
    }

    /// Get the current cost to build the next level of a building by name;
    /// nothing for an unknown name
    pub fn build_cost(&self, name: String) -> (r: Resources)
        ensures
            r == match building_named(name@) {
                None => Resources::zero(),
                Some(ty) => building_cost(ty, self.buildings.level_of(ty) as nat),
            },
    {
        match building_from_name(name.as_str()) {
            Some(ty) => self.buildings.cost(ty),
            None => Resources::default(),
        }
    }

    /// Number of buildings of the given type; zero for an unknown name
    pub fn building_count(&self, name: String) -> (r: u32)
        ensures
            r == match building_named(name@) {
                None => 0,
                Some(ty) => self.buildings.level_of(ty),
            },
    {
        match building_from_name(name.as_str()) {
            Some(ty) => self.buildings.level(ty),
            None => 0,
        }
    }

    /// Get resource by name, in millionths; zero for an unknown name
    pub fn get_resource(&self, name: String) -> (r: i64)
        ensures
            r == stock_named(self.resources, name@),
    {
        stock_by_name(&self.resources, name.as_str())
    }

    /// Net resource change per second by name, in millionths; zero for an
    /// unknown name
    pub fn get_resource_rate(&self, name: String) -> (r: i64)
        requires
            self.rate_ok(),
        ensures
            r == stock_named(self.tick_yield_spec().ratio(1000, self.tick_rate as int), name@),
    {
        let rates = self.resource_rate();
        stock_by_name(&rates, name.as_str())
    }

    /// Research a technology by name, paying for it in science.
    ///
    /// Fails, changing nothing, for an unknown name or a science stock that
    /// cannot pay; a technology already researched succeeds at no cost.
    pub fn research(&mut self, name: String) -> (r: bool)
        ensures
            match tech_named(name@) {
                None => !r && *final(self) == *old(self),
                Some(tech) => {
                    let out = old(self).research.after_try_unlock(tech, old(self).resources);
                    &&& r == out.0
                    &&& *final(self) == (GameState {
                        research: out.1,
                        resources: out.2,
                        ..*old(self)
                    })
                },
            },
    {
        match tech_from_name(name.as_str()) {
            Some(tech) => self.research.try_unlock(tech, &mut self.resources),
            None => false,
        }
    }

    /// Perform a prestige reset gaining permanent bonuses.
    ///
    /// Earns `floor(sqrt(gold / 1_000_000))` points (in whole units of
    /// gold), then replaces the ledger, buildings, upgrades, research and
    /// milestones with those of a new game. Points, tick length, clock and
    /// message queue stay.
    pub fn prestige(&mut self)
        ensures
            final(self).prestige.points == if old(self).prestige.points + points_for_gold(
                old(self).resources.gold as int,
            ) > u32::MAX {
                u32::MAX as int
            } else {
                old(self).prestige.points + points_for_gold(old(self).resources.gold as int)
            },
            final(self).prestige.points >= old(self).prestige.points,
            *final(self) == (GameState {
                resources: starting_resources(),
                buildings: Buildings::empty(),
                upgrades: Upgrades::empty(),
                research: Research::empty(),
                achievements: Achievements::empty(),
                prestige: final(self).prestige,
                ..*old(self)
            }),
    {
        let gained = points_for(self.resources.gold);
        if gained > 0 {
            self.prestige.points = self.prestige.points.saturating_add(gained);
        }
        self.resources = res(20 * UNIT, 20 * UNIT, 0, 0, 0);
        self.buildings = Buildings::default();
        self.upgrades = Upgrades::default();
        self.research = Research::default();
        self.achievements = Achievements::default();
    }

    /// Prestige points earned so far
    pub fn prestige_points(&self) -> (r: u32)
        ensures
            r == self.prestige.points,
    {
        self.prestige.points
    }

    /// Pop the next log message generated by events or achievements
    pub fn pop_log(&mut self) -> (r: Option<String>)
        ensures
            old(self).event_log@.len() == 0 ==> r is None && *final(self) == *old(self),
            old(self).event_log@.len() > 0 ==> {
                &&& r == Some(old(self).event_log@[0])
                &&& final(self).event_log@ == old(self).event_log@.drop_first()
                &&& *final(self) == (GameState { event_log: final(self).event_log, ..*old(self) })
            },
    {
        if self.event_log.len() == 0 {
            None
        } else {
            Some(self.event_log.remove(0))
        }
    }

    /// List achievements in sorted order
    pub fn achievements_list(&self) -> (r: Vec<String>)
        ensures
            texts(r@) == self.achievements.listing(),
            texts_sorted(texts(r@)),
    {
        self.achievements.list()
    }
}

/// Whole ticks due from `prev` to `now`, as `ticks_between` states.
fn count_ticks(prev: u64, now: u64, rate: u64) -> (r: u64)
    requires
        rate >= MIN_TICK_MS,
    ensures
        r == ticks_between(prev, now, rate),
        r * rate <= CATCH_UP_CAP_MS,
        now > prev ==> r * rate <= now - prev,
        now <= prev ==> r == 0,
{
    if now <= prev {
        return 0;
    }
    let elapsed = if now - prev > CATCH_UP_CAP_MS {
        CATCH_UP_CAP_MS
    } else {
        now - prev
    };
    let r = elapsed / rate;
    assert(r * rate <= elapsed) by (nonlinear_arith)
        requires
            r == elapsed / rate,
            rate > 0,
    ;
    r
}

impl GameState {
    /// Advance the game to `now` (milliseconds), drawing event rolls from `rng`.
    ///
    /// The first call only anchors the clock. Later calls simulate one tick
    /// per whole tick length elapsed since the anchor (the span capped at
    /// `CATCH_UP_CAP_MS`), in order, each with its own roll, then move the
    /// anchor on by exactly those ticks, keeping the part of a tick left
    /// over; only a span beyond the cap moves the anchor up to `now`.
    pub fn tick(&mut self, now: u64, rng: &mut StdRng)
        requires
            old(self).rate_ok(),
        ensures
            final(self).rate_ok(),
            final(self).last_update == next_anchor(old(self).last_update, now, old(self).tick_rate),
            exists|rolls: Seq<EventRoll>|
                {
                    &&& rolls.len() == ticks_due(old(self).last_update, now, old(self).tick_rate)
                    &&& forall|i: int|
                        0 <= i < rolls.len() ==> roll_possible(
                            #[trigger] rolls[i],
                            old(self).event_chance,
                        )
                    &&& final(self).stocks() == run_ticks(old(self).stocks(), old(self).modifiers(), rolls).0
                    &&& texts(final(self).event_log@) == texts(old(self).event_log@) + run_ticks(
                        old(self).stocks(),
                        old(self).modifiers(),
                        rolls,
                    ).1
                },
            final(self).upgrades == old(self).upgrades,
            final(self).research == old(self).research,
            final(self).prestige == old(self).prestige,
            final(self).version == old(self).version,
            final(self).event_chance == old(self).event_chance,
            final(self).tick_rate == old(self).tick_rate,
    {
        let ghost start = *self;
        match self.last_update {
            None => {
                self.last_update = Some(now);
                assert(texts(self.event_log@) =~= texts(start.event_log@) + run_ticks(
                    start.stocks(),
                    start.modifiers(),
                    Seq::empty(),
                ).1);
            },
            Some(prev) => {
                let ticks = count_ticks(prev, now, self.tick_rate);
                let ghost mut rolls: Seq<EventRoll> = Seq::empty();
                let ghost m = start.modifiers();
                let mut i: u64 = 0;
                while i < ticks
                    invariant
                        i <= ticks,
                        rolls.len() == i,
                        forall|k: int|
                            0 <= k < rolls.len() ==> roll_possible(
                                #[trigger] rolls[k],
                                start.event_chance,
                            ),
                        self.stocks() == run_ticks(start.stocks(), m, rolls).0,
                        texts(self.event_log@) == texts(start.event_log@) + run_ticks(
                            start.stocks(),
                            m,
                            rolls,
                        ).1,
                        m == start.modifiers(),
                        self.modifiers() == m,
                        self.version == start.version,
                        self.event_chance == start.event_chance,
                        self.tick_rate == start.tick_rate,
                        self.last_update == start.last_update,
                    decreases ticks - i,
                {
                    let roll = roll_event(rng, self.event_chance);
                    self.apply_tick(roll);
                    proof {
                        let next = rolls.push(roll);
                        lemma_run_push(start.stocks(), m, rolls, roll);
                        assert(texts(self.event_log@) =~= texts(start.event_log@) + run_ticks(
                            start.stocks(),
                            m,
                            next,
                        ).1);
                        rolls = next;
                    }
                    i = i + 1;
                }
                assert(ticks == 0 ==> ticks * self.tick_rate == 0) by (nonlinear_arith);
                let capped = now > prev && now - prev > CATCH_UP_CAP_MS;
                self.last_update = Some(if capped { now } else { prev + ticks * self.tick_rate });
            },
        }
    }
}

} // verus!
