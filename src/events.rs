//! The event injector: a per-tick hazard or reward roll.
//!
//! Randomness comes from a generator handed in by the caller. Drawing a roll
//! and applying it are kept apart: what a roll does to the game is a plain
//! function of the roll, so it is stated exactly, while the draw itself only
//! promises which rolls are possible.
use vstd::prelude::*;
use rand::rngs::StdRng;
use crate::buildings::{BuildingType, Buildings};
use crate::fixed_point::{clamp_i64, sat_add, UNIT};
use crate::resources::Resources;
use crate::text::{decimal, opt_text, push_decimal};

verus! {

/// Chance of farm loss event each tick, in millionths (five percent)
pub const FARM_LOSS_CHANCE: u32 = 50_000;

/// A chance that always comes true, in millionths.
pub const CERTAIN: u32 = 1_000_000;

/// Smallest treasure, in whole units of gold.
pub const TREASURE_MIN: u64 = 5;

/// One past the largest treasure, in whole units of gold.
pub const TREASURE_END: u64 = 20;

#[verifier::external_type_specification]
#[verifier::external_body]
pub struct ExStdRng(StdRng);

/// Relies on rand's `Rng::gen_ratio`: true with probability
/// `numerator / denominator`, always true when the two are equal and always
/// false when the numerator is zero; it panics when the denominator is zero
/// or below the numerator.
#[verifier::external_body]
fn draw_ratio(rng: &mut StdRng, numerator: u32, denominator: u32) -> (r: bool)
    requires
        0 < denominator,
        numerator <= denominator,
    ensures
        numerator == 0 ==> !r,
        numerator == denominator ==> r,
{
    rand::Rng::gen_ratio(rng, numerator, denominator)
}

/// Relies on rand's `Rng::gen_range`: a uniform draw from `low..high`; it
/// panics on an empty range.
#[verifier::external_body]
fn draw_below(rng: &mut StdRng, low: u64, high: u64) -> (r: u64)
    requires
        low < high,
    ensures
        low <= r < high,
{
    rand::Rng::gen_range(rng, low..high)
}

/// What one roll of the event injector came to.
#[derive(Clone, Copy, Debug, PartialEq, Eq, Structural)]
pub enum EventRoll {
    /// Nothing happens.
    Calm,
    /// A storm strikes the farms.
    Storm,
    /// A treasure of the given number of whole gold units is found.
    Treasure(u64),
}

/// The rolls that a draw with `chance` (in millionths) can give: no event at
/// all when the chance is zero, and a treasure only within its range.
pub open spec fn roll_possible(roll: EventRoll, chance: u32) -> bool {
    match roll {
        EventRoll::Calm => true,
        EventRoll::Storm => chance > 0,
        EventRoll::Treasure(amount) => chance > 0 && TREASURE_MIN <= amount < TREASURE_END,
    }
}

/// Farms that a storm destroys: a tenth of them, rounded up.
pub open spec fn storm_loss(farms: int) -> int {
    (farms + 9) / 10
}

/// The message announcing a storm.
pub open spec fn storm_message(loss: nat) -> Seq<char> {
    "A storm destroyed "@ + decimal(loss) + " farms!"@
}

/// The message announcing a treasure.
pub open spec fn treasure_message(amount: nat) -> Seq<char> {
    "Found a hidden treasure worth "@ + decimal(amount) + " gold!"@
}

/// Buildings and message after a storm: a tenth of the farms, rounded up,
/// are destroyed; nothing happens without farms.
pub open spec fn after_storm(b: Buildings) -> (Buildings, Option<Seq<char>>) {
    let farms = b.level_of(BuildingType::Farm);
    if farms == 0 {
        (b, None)
    } else {
        let loss = storm_loss(farms as int);
        (b.with_level(BuildingType::Farm, (farms - loss) as u32), Some(storm_message(loss as nat)))
    }
}

/// The ledger after a treasure of `amount` whole gold units.
pub open spec fn after_treasure(res: Resources, amount: nat) -> Resources {
    Resources { gold: clamp_i64(res.gold + amount * UNIT) as i64, ..res }
}

/// Buildings, ledger and message after a roll.
pub open spec fn after_roll(b: Buildings, res: Resources, roll: EventRoll) -> (
    Buildings,
    Resources,
    Option<Seq<char>>,
) {
    match roll {
        EventRoll::Calm => (b, res, None),
        EventRoll::Storm => (after_storm(b).0, res, after_storm(b).1),
        EventRoll::Treasure(amount) => (
            b,
            after_treasure(res, amount as nat),
            Some(treasure_message(amount as nat)),
        ),
    }
}

/// The odds handed to the draws of a roll, as numerator and the two
/// denominators: the chance capped at certain, out of `CERTAIN` for a storm
/// and out of `2 * CERTAIN` (half the chance) for a treasure.
pub open spec fn odds_of(chance: u32) -> (u32, u32, u32) {
    (if chance > CERTAIN {
        CERTAIN
    } else {
        chance
    }, CERTAIN, (2 * CERTAIN) as u32)
}

/// The roll that the draws make: the coin picks the storm side or the
/// treasure side, and the draw of that side decides whether its event
/// happens.
pub open spec fn roll_outcome(coin: bool, storm: bool, treasure: bool, amount: u64) -> EventRoll {
    if coin {
        if storm {
            EventRoll::Storm
        } else {
            EventRoll::Calm
        }
    } else if treasure {
        EventRoll::Treasure(amount)
    } else {
        EventRoll::Calm
    }
}

/// The odds handed to the draws of a roll with `chance` (in millionths).
pub fn event_odds(chance: u32) -> (r: (u32, u32, u32))
    ensures
        r == odds_of(chance),
        r.0 <= r.1 < r.2,
{
    (if chance > CERTAIN {
        CERTAIN
    } else {
        chance
    }, CERTAIN, 2 * CERTAIN)
}

/// Turns the draws of a roll into the roll.
pub fn roll_of(coin: bool, storm: bool, treasure: bool, amount: u64) -> (r: EventRoll)
    ensures
        r == roll_outcome(coin, storm, treasure, amount),
{
    if coin {
        if storm {
            EventRoll::Storm
        } else {
            EventRoll::Calm
        }
    } else if treasure {
        EventRoll::Treasure(amount)
    } else {
        EventRoll::Calm
    }
}

/// Draws one roll: a fair coin picks a storm or a treasure; a storm strikes
/// with probability `chance` (in millionths, capped at certain), a treasure
/// is found with half of it and is worth a uniform amount in its range.
/// Only the draws that the roll needs are made.
pub fn roll_event(rng: &mut StdRng, chance: u32) -> (r: EventRoll)
    ensures
        roll_possible(r, chance),
        exists|coin: bool, storm: bool, treasure: bool, amount: u64|
            {
                &&& r == roll_outcome(coin, storm, treasure, amount)
                &&& TREASURE_MIN <= amount < TREASURE_END
                &&& chance == 0 ==> !storm && !treasure
                &&& coin && chance >= CERTAIN ==> storm
            },
{
    let odds = event_odds(chance);
    let coin = draw_ratio(rng, 1, 2);
    let storm = if coin {
        draw_ratio(rng, odds.0, odds.1)
    } else {
        false
    };
    let treasure = if coin {
        false
    } else {
        draw_ratio(rng, odds.0, odds.2)
    };
    let amount = if treasure {
        draw_below(rng, TREASURE_MIN, TREASURE_END)
    } else {
        TREASURE_MIN
    };
    roll_of(coin, storm, treasure, amount)
}

/// Destroys a tenth of the farms, rounded up, and says so; does nothing
/// without farms.
pub fn apply_storm(buildings: &mut Buildings) -> (r: Option<String>)
    ensures
        (*final(buildings), opt_text(r)) == after_storm(*old(buildings)),
{
    let farms = buildings.level(BuildingType::Farm);
    if farms == 0 {
        return None;
    }
    let loss: u32 = ((farms as u64 + 9) / 10) as u32;
    buildings.decrement(BuildingType::Farm, loss);
    let mut msg = String::from_str("A storm destroyed ");
    push_decimal(&mut msg, loss as u64);
    msg.append(" farms!");
    Some(msg)
}

/// Adds a treasure of `amount` whole gold units and says so.
pub fn apply_treasure(res: &mut Resources, amount: u64) -> (r: String)
    requires
        amount < TREASURE_END,
    ensures
        *final(res) == after_treasure(*old(res), amount as nat),
        r@ == treasure_message(amount as nat),
{
    res.gold = sat_add(res.gold, amount as i64 * UNIT);
    let mut msg = String::from_str("Found a hidden treasure worth ");
    push_decimal(&mut msg, amount);
    msg.append(" gold!");
    msg
}

/// Applies a roll to the buildings and the ledger.
pub fn apply_roll(buildings: &mut Buildings, res: &mut Resources, roll: EventRoll) -> (r: Option<
    String,
>)
    requires
        roll matches EventRoll::Treasure(amount) ==> amount < TREASURE_END,
    ensures
        (*final(buildings), *final(res), opt_text(r)) == after_roll(*old(buildings), *old(res), roll),
{
    match roll {
        EventRoll::Calm => None,
        EventRoll::Storm => apply_storm(buildings),
        EventRoll::Treasure(amount) => Some(apply_treasure(res, amount)),
    }
}

/// Checks for random events and applies effects. Returns a message when an
/// event occurs.
pub fn check_random_events(
    buildings: &mut Buildings,
    resources: &mut Resources,
    rng: &mut StdRng,
    chance: u32,
) -> (r: Option<String>)
    ensures
        exists|roll: EventRoll|
            roll_possible(roll, chance) && (*final(buildings), *final(resources), opt_text(r))
                == after_roll(*old(buildings), *old(resources), roll),
{
    let roll = roll_event(rng, chance);
    apply_roll(buildings, resources, roll)
}

/// A tenth of the farms, rounded up, are destroyed when triggered, with
/// probability `chance` (in millionths; certain from `CERTAIN` up).
pub fn farm_loss_event(buildings: &mut Buildings, rng: &mut StdRng, chance: u32) -> (r: Option<
    String,
>)
    ensures
        (*final(buildings), opt_text(r)) == after_storm(*old(buildings)) || (*final(buildings)
            == *old(buildings) && r is None),
        chance >= CERTAIN ==> (*final(buildings), opt_text(r)) == after_storm(*old(buildings)),
        chance == 0 ==> *final(buildings) == *old(buildings) && r is None,
{
    let odds = event_odds(chance);
    if draw_ratio(rng, odds.0, odds.1) {
        apply_storm(buildings)
    } else {
        None
    }
}

/// Random treasure awarding gold, found with half of `chance` (in millionths).
pub fn treasure_event(res: &mut Resources, rng: &mut StdRng, chance: u32) -> (r: Option<String>)
    ensures
        (*final(res) == *old(res) && r is None) || exists|amount: nat|
            TREASURE_MIN <= amount < TREASURE_END && *final(res) == after_treasure(*old(res), amount)
                && opt_text(r) == Some(treasure_message(amount)),
        chance == 0 ==> *final(res) == *old(res) && r is None,
{
    let odds = event_odds(chance);
    if draw_ratio(rng, odds.0, odds.2) {
        let amount = draw_below(rng, TREASURE_MIN, TREASURE_END);
        Some(apply_treasure(res, amount))
    } else {
        None
    }
}

} // verus!
