//! The save format.
//!
//! A save is a fixed-layout little-endian record of every persisted field,
//! carried as base64 text. The record opens with its format version;
//! records of any other version, of the wrong length, or with a malformed
//! field are refused as a whole.
use vstd::prelude::*;
use vstd::bytes::{
    lemma_auto_spec_u32_to_from_le_bytes, lemma_auto_spec_u64_to_from_le_bytes,
    spec_u32_from_le_bytes, spec_u32_to_le_bytes, spec_u64_from_le_bytes, spec_u64_to_le_bytes,
    u32_from_le_bytes, u32_to_le_bytes, u64_from_le_bytes, u64_to_le_bytes,
};
use vstd::slice::slice_subrange;
use crate::achievements::{Achievements, Milestone};
use crate::buildings::{BuildingType, Buildings};
use crate::prestige::Prestige;
use crate::research::{Research, Tech};
use crate::resources::{bundle, Resources};
use crate::events::FARM_LOSS_CHANCE;
use crate::systems::{GameState, MAX_TICK_MS, MIN_TICK_MS, SAVE_VERSION};
use crate::upgrades::{UpgradeType, Upgrades};

verus! {

/// The base64 text of some bytes, as the `base64` crate's standard engine
/// writes it.
pub uninterp spec fn base64_text(bytes: Seq<u8>) -> Seq<char>;

/// Relies on `base64::Engine::encode` of the standard engine (padded,
/// standard alphabet): the text depends on the bytes alone.
#[verifier::external_body]
fn encode_base64(bytes: &[u8]) -> (r: String)
    ensures
        r@ == base64_text(bytes@),
{
    base64::Engine::encode(&base64::engine::general_purpose::STANDARD, bytes)
}

#[verifier::external_type_specification]
#[verifier::external_body]
pub struct ExDecodeError(base64::DecodeError);

/// Relies on `base64::Engine::decode` of the standard engine: handed the
/// text that its `encode` wrote for some bytes, it gives those bytes back;
/// and since the engine accepts canonical padded text only, any bytes it
/// gives back are those whose text it was handed.
#[verifier::external_body]
fn decode_base64(text: &str) -> (r: Result<Vec<u8>, base64::DecodeError>)
    ensures
        forall|b: Seq<u8>| text@ == base64_text(b) ==> r is Ok && r->Ok_0@ == b,
        r is Ok ==> text@ == base64_text(r->Ok_0@),
{
    base64::Engine::decode(&base64::engine::general_purpose::STANDARD, text)
}

/// Length of a save record, in bytes.
pub const SAVE_LEN: usize = 140;

/// Every field that a save keeps.
#[derive(Clone, Copy, Debug, PartialEq, Eq)]
pub struct SaveData {
    /// Version of the save format
    pub version: u32,
    /// Player resources
    pub resources: Resources,
    /// Owned buildings
    pub buildings: Buildings,
    /// Purchased upgrades
    pub upgrades: Upgrades,
    /// Researched techs
    pub research: Research,
    /// Achievements unlocked
    pub achievements: Achievements,
    /// Prestige information
    pub prestige: Prestige,
    /// Tick length in milliseconds
    pub tick_rate: u64,
    /// Last update timestamp in milliseconds
    pub last_update: Option<u64>,
}

impl SaveData {
    /// The fields a loader accepts: the current version and a tick length
    /// within its window.
    pub open spec fn valid(self) -> bool {
        &&& self.version == SAVE_VERSION
        &&& MIN_TICK_MS <= self.tick_rate <= MAX_TICK_MS
    }
}

/// Eight bytes for a signed amount: shifted into the unsigned range, then
/// little-endian.
pub open spec fn signed_bytes(x: i64) -> Seq<u8> {
    spec_u64_to_le_bytes((x + 0x8000_0000_0000_0000) as u64)
}

/// A signed amount read back from its eight bytes.
pub open spec fn signed_of(s: Seq<u8>) -> i64 {
    (spec_u64_from_le_bytes(s) - 0x8000_0000_0000_0000) as i64
}

/// One byte for a flag.
pub open spec fn flag(b: bool) -> u8 {
    if b {
        1
    } else {
        0
    }
}

/// The ledger section: the eight stocks in order.
pub open spec fn ledger_bytes(r: Resources) -> Seq<u8> {
    signed_bytes(r.wood) + signed_bytes(r.stone) + signed_bytes(r.food) + signed_bytes(r.iron)
        + signed_bytes(r.gold) + signed_bytes(r.energy) + signed_bytes(r.science) + signed_bytes(
        r.mana,
    )
}

/// The levels section: building levels in catalog order, then upgrade levels.
pub open spec fn level_bytes(b: Buildings, u: Upgrades) -> Seq<u8> {
    spec_u32_to_le_bytes(b.level_of(BuildingType::Farm)) + spec_u32_to_le_bytes(
        b.level_of(BuildingType::LumberMill),
    ) + spec_u32_to_le_bytes(b.level_of(BuildingType::Quarry)) + spec_u32_to_le_bytes(
        b.level_of(BuildingType::Mine),
    ) + spec_u32_to_le_bytes(b.level_of(BuildingType::Bakery)) + spec_u32_to_le_bytes(
        b.level_of(BuildingType::Generator),
    ) + spec_u32_to_le_bytes(b.level_of(BuildingType::Lab)) + spec_u32_to_le_bytes(
        b.level_of(BuildingType::Shrine),
    ) + spec_u32_to_le_bytes(u.level_of(UpgradeType::Efficiency)) + spec_u32_to_le_bytes(
        u.level_of(UpgradeType::Storage),
    ) + spec_u32_to_le_bytes(u.level_of(UpgradeType::AlchemyBoost))
}

/// The flags section: technologies, then milestones.
pub open spec fn flag_bytes(r: Research, a: Achievements) -> Seq<u8> {
    seq![
        flag(r.has(Tech::Mining)),
        flag(r.has(Tech::Baking)),
        flag(r.has(Tech::Electricity)),
        flag(r.has(Tech::Education)),
        flag(r.has(Tech::Alchemy)),
        flag(a.has(Milestone::FirstFarm)),
        flag(a.has(Milestone::DiscoveredMining)),
    ]
}

/// The closing section: prestige points, tick length, and the clock with a
/// byte telling whether it is set.
pub open spec fn tail_bytes(d: SaveData) -> Seq<u8> {
    spec_u32_to_le_bytes(d.prestige.points) + spec_u64_to_le_bytes(d.tick_rate) + seq![
        flag(d.last_update is Some),
    ] + spec_u64_to_le_bytes(
        match d.last_update {
            Some(t) => t,
            None => 0,
        },
    )
}

/// The whole record.
pub open spec fn save_bytes(d: SaveData) -> Seq<u8> {
    spec_u32_to_le_bytes(d.version) + ledger_bytes(d.resources) + level_bytes(
        d.buildings,
        d.upgrades,
    ) + flag_bytes(d.research, d.achievements) + tail_bytes(d)
}

/// The stocks read back from a ledger section.
pub open spec fn ledger_of(s: Seq<u8>) -> Resources {
    bundle(
        signed_of(s.subrange(0, 8)) as int,
        signed_of(s.subrange(8, 16)) as int,
        signed_of(s.subrange(16, 24)) as int,
        signed_of(s.subrange(24, 32)) as int,
        signed_of(s.subrange(32, 40)) as int,
        signed_of(s.subrange(40, 48)) as int,
        signed_of(s.subrange(48, 56)) as int,
        signed_of(s.subrange(56, 64)) as int,
    )
}

/// The level at a slot of a levels section.
pub open spec fn level_at(s: Seq<u8>, k: int) -> u32 {
    spec_u32_from_le_bytes(s.subrange(4 * k, 4 * k + 4))
}

/// The buildings read back from a levels section.
pub open spec fn buildings_of(s: Seq<u8>) -> Buildings {
    Buildings::empty().with_level(BuildingType::Farm, level_at(s, 0)).with_level(
        BuildingType::LumberMill,
        level_at(s, 1),
    ).with_level(BuildingType::Quarry, level_at(s, 2)).with_level(
        BuildingType::Mine,
        level_at(s, 3),
    ).with_level(BuildingType::Bakery, level_at(s, 4)).with_level(
        BuildingType::Generator,
        level_at(s, 5),
    ).with_level(BuildingType::Lab, level_at(s, 6)).with_level(
        BuildingType::Shrine,
        level_at(s, 7),
    )
}

/// The upgrades read back from a levels section.
pub open spec fn upgrades_of(s: Seq<u8>) -> Upgrades {
    Upgrades::empty().with_level(UpgradeType::Efficiency, level_at(s, 8)).with_level(
        UpgradeType::Storage,
        level_at(s, 9),
    ).with_level(UpgradeType::AlchemyBoost, level_at(s, 10))
}

/// A tree with `t` unlocked when the flag byte is set.
pub open spec fn tech_if(r: Research, t: Tech, byte: u8) -> Research {
    if byte == 1 {
        r.with(t)
    } else {
        r
    }
}

/// A tracker with `m` reached when the flag byte is set.
pub open spec fn milestone_if(a: Achievements, m: Milestone, byte: u8) -> Achievements {
    if byte == 1 {
        a.with(m)
    } else {
        a
    }
}

/// The research tree read back from a flags section.
pub open spec fn research_of(s: Seq<u8>) -> Research {
    tech_if(
        tech_if(
            tech_if(
                tech_if(tech_if(Research::empty(), Tech::Mining, s[0]), Tech::Baking, s[1]),
                Tech::Electricity,
                s[2],
            ),
            Tech::Education,
            s[3],
        ),
        Tech::Alchemy,
        s[4],
    )
}

/// The milestones read back from a flags section.
pub open spec fn achievements_of(s: Seq<u8>) -> Achievements {
    milestone_if(
        milestone_if(Achievements::empty(), Milestone::FirstFarm, s[5]),
        Milestone::DiscoveredMining,
        s[6],
    )
}

/// The record read back, or nothing when it is not one this format wrote
/// for a valid state.
pub open spec fn decode_save(b: Seq<u8>) -> Option<SaveData> {
    if b.len() != SAVE_LEN {
        None
    } else {
        let version = spec_u32_from_le_bytes(b.subrange(0, 4));
        let ledger = b.subrange(4, 68);
        let levels = b.subrange(68, 112);
        let flags = b.subrange(112, 119);
        let tail = b.subrange(119, 140);
        let rate = spec_u64_from_le_bytes(tail.subrange(4, 12));
        if version != SAVE_VERSION || (exists|i: int| 0 <= i < 7 && flags[i] > 1) || tail[12] > 1
            || rate < MIN_TICK_MS || rate > MAX_TICK_MS {
            None
        } else {
            Some(
                SaveData {
                    version,
                    resources: ledger_of(ledger),
                    buildings: buildings_of(levels),
                    upgrades: upgrades_of(levels),
                    research: research_of(flags),
                    achievements: achievements_of(flags),
                    prestige: Prestige { points: spec_u32_from_le_bytes(tail.subrange(0, 4)) },
                    tick_rate: rate,
                    last_update: if tail[12] == 1 {
                        Some(spec_u64_from_le_bytes(tail.subrange(13, 21)))
                    } else {
                        None
                    },
                },
            )
        }
    }
}

/// A signed amount survives its eight bytes.
pub proof fn lemma_signed_round_trip(x: i64)
    ensures
        signed_bytes(x).len() == 8,
        signed_of(signed_bytes(x)) == x,
{
    lemma_auto_spec_u64_to_from_le_bytes();
}

/// The stocks survive the ledger section.
pub proof fn lemma_ledger_round_trip(r: Resources)
    ensures
        ledger_bytes(r).len() == 64,
        ledger_of(ledger_bytes(r)) == r,
{
    lemma_signed_round_trip(r.wood);
    lemma_signed_round_trip(r.stone);
    lemma_signed_round_trip(r.food);
    lemma_signed_round_trip(r.iron);
    lemma_signed_round_trip(r.gold);
    lemma_signed_round_trip(r.energy);
    lemma_signed_round_trip(r.science);
    lemma_signed_round_trip(r.mana);
    let s = ledger_bytes(r);
    assert(s.subrange(0, 8) =~= signed_bytes(r.wood));
    assert(s.subrange(8, 16) =~= signed_bytes(r.stone));
    assert(s.subrange(16, 24) =~= signed_bytes(r.food));
    assert(s.subrange(24, 32) =~= signed_bytes(r.iron));
    assert(s.subrange(32, 40) =~= signed_bytes(r.gold));
    assert(s.subrange(40, 48) =~= signed_bytes(r.energy));
    assert(s.subrange(48, 56) =~= signed_bytes(r.science));
    assert(s.subrange(56, 64) =~= signed_bytes(r.mana));
}

/// The levels survive the levels section.
pub proof fn lemma_levels_round_trip(b: Buildings, u: Upgrades)
    ensures
        level_bytes(b, u).len() == 44,
        buildings_of(level_bytes(b, u)) == b,
        upgrades_of(level_bytes(b, u)) == u,
{
    broadcast use Buildings::lemma_with_level, Buildings::lemma_empty;
    broadcast use Upgrades::lemma_with_level, Upgrades::lemma_empty;

    lemma_auto_spec_u32_to_from_le_bytes();
    let s = level_bytes(b, u);
    assert(s.subrange(0, 4) =~= spec_u32_to_le_bytes(b.level_of(BuildingType::Farm)));
    assert(s.subrange(4, 8) =~= spec_u32_to_le_bytes(b.level_of(BuildingType::LumberMill)));
    assert(s.subrange(8, 12) =~= spec_u32_to_le_bytes(b.level_of(BuildingType::Quarry)));
    assert(s.subrange(12, 16) =~= spec_u32_to_le_bytes(b.level_of(BuildingType::Mine)));
    assert(s.subrange(16, 20) =~= spec_u32_to_le_bytes(b.level_of(BuildingType::Bakery)));
    assert(s.subrange(20, 24) =~= spec_u32_to_le_bytes(b.level_of(BuildingType::Generator)));
    assert(s.subrange(24, 28) =~= spec_u32_to_le_bytes(b.level_of(BuildingType::Lab)));
    assert(s.subrange(28, 32) =~= spec_u32_to_le_bytes(b.level_of(BuildingType::Shrine)));
    assert(s.subrange(32, 36) =~= spec_u32_to_le_bytes(u.level_of(UpgradeType::Efficiency)));
    assert(s.subrange(36, 40) =~= spec_u32_to_le_bytes(u.level_of(UpgradeType::Storage)));
    assert(s.subrange(40, 44) =~= spec_u32_to_le_bytes(u.level_of(UpgradeType::AlchemyBoost)));
    Buildings::lemma_ext(buildings_of(s), b);
    Upgrades::lemma_ext(upgrades_of(s), u);
}

/// The technologies and milestones survive the flags section.
pub proof fn lemma_flags_round_trip(r: Research, a: Achievements)
    ensures
        flag_bytes(r, a).len() == 7,
        forall|i: int| 0 <= i < 7 ==> flag_bytes(r, a)[i] <= 1,
        research_of(flag_bytes(r, a)) == r,
        achievements_of(flag_bytes(r, a)) == a,
{
    broadcast use Research::lemma_with, Research::lemma_empty;
    broadcast use Achievements::lemma_with, Achievements::lemma_empty;

    Research::lemma_ext(research_of(flag_bytes(r, a)), r);
    Achievements::lemma_ext(achievements_of(flag_bytes(r, a)), a);
}

/// Points, tick length and clock survive the closing section.
pub proof fn lemma_tail_round_trip(d: SaveData)
    ensures
        tail_bytes(d).len() == 21,
        spec_u32_from_le_bytes(tail_bytes(d).subrange(0, 4)) == d.prestige.points,
        spec_u64_from_le_bytes(tail_bytes(d).subrange(4, 12)) == d.tick_rate,
        tail_bytes(d)[12] == flag(d.last_update is Some),
        d.last_update matches Some(t) ==> spec_u64_from_le_bytes(tail_bytes(d).subrange(13, 21))
            == t,
{
    lemma_auto_spec_u32_to_from_le_bytes();
    lemma_auto_spec_u64_to_from_le_bytes();
    let s = tail_bytes(d);
    assert(s.subrange(0, 4) =~= spec_u32_to_le_bytes(d.prestige.points));
    assert(s.subrange(4, 12) =~= spec_u64_to_le_bytes(d.tick_rate));
    if let Some(t) = d.last_update {
        assert(s.subrange(13, 21) =~= spec_u64_to_le_bytes(t));
    }
}

/// Reading a record back gives every field that was written, for any state
/// that a loader accepts.
pub proof fn lemma_save_round_trip(d: SaveData)
    requires
        d.valid(),
    ensures
        decode_save(save_bytes(d)) == Some(d),
{
    lemma_auto_spec_u32_to_from_le_bytes();
    lemma_ledger_round_trip(d.resources);
    lemma_levels_round_trip(d.buildings, d.upgrades);
    lemma_flags_round_trip(d.research, d.achievements);
    lemma_tail_round_trip(d);
    let head = spec_u32_to_le_bytes(d.version);
    let ledger = ledger_bytes(d.resources);
    let levels = level_bytes(d.buildings, d.upgrades);
    let flags = flag_bytes(d.research, d.achievements);
    let tail = tail_bytes(d);
    let b = save_bytes(d);
    assert(b.len() == SAVE_LEN);
    assert(b.subrange(0, 4) =~= head);
    assert(b.subrange(4, 68) =~= ledger);
    assert(b.subrange(68, 112) =~= levels);
    assert(b.subrange(112, 119) =~= flags);
    assert(b.subrange(119, 140) =~= tail);
    let got = decode_save(b)->Some_0;
    assert(decode_save(b) is Some);
    assert(got.prestige == d.prestige);
    assert(got.last_update == d.last_update);
}

fn push_u32(out: &mut Vec<u8>, x: u32)
    ensures
        final(out)@ == old(out)@ + spec_u32_to_le_bytes(x),
{
    let mut piece = u32_to_le_bytes(x);
    out.append(&mut piece);
}

fn push_u64(out: &mut Vec<u8>, x: u64)
    ensures
        final(out)@ == old(out)@ + spec_u64_to_le_bytes(x),
{
    let mut piece = u64_to_le_bytes(x);
    out.append(&mut piece);
}

fn push_signed(out: &mut Vec<u8>, x: i64)
    ensures
        final(out)@ == old(out)@ + signed_bytes(x),
{
    push_u64(out, (x as i128 + 0x8000_0000_0000_0000i128) as u64);
}

fn push_ledger(out: &mut Vec<u8>, r: &Resources)
    ensures
        final(out)@ == old(out)@ + ledger_bytes(*r),
{
    let ghost start = out@;
    push_signed(out, r.wood);
    push_signed(out, r.stone);
    push_signed(out, r.food);
    push_signed(out, r.iron);
    push_signed(out, r.gold);
    push_signed(out, r.energy);
    push_signed(out, r.science);
    push_signed(out, r.mana);
    assert(out@ =~= start + ledger_bytes(*r));
}

fn push_levels(out: &mut Vec<u8>, b: &Buildings, u: &Upgrades)
    ensures
        final(out)@ == old(out)@ + level_bytes(*b, *u),
{
    let ghost start = out@;
    push_u32(out, b.level(BuildingType::Farm));
    push_u32(out, b.level(BuildingType::LumberMill));
    push_u32(out, b.level(BuildingType::Quarry));
    push_u32(out, b.level(BuildingType::Mine));
    push_u32(out, b.level(BuildingType::Bakery));
    push_u32(out, b.level(BuildingType::Generator));
    push_u32(out, b.level(BuildingType::Lab));
    push_u32(out, b.level(BuildingType::Shrine));
    push_u32(out, u.level(UpgradeType::Efficiency));
    push_u32(out, u.level(UpgradeType::Storage));
    push_u32(out, u.level(UpgradeType::AlchemyBoost));
    assert(out@ =~= start + level_bytes(*b, *u));
}

fn flag_byte(b: bool) -> (r: u8)
    ensures
        r == flag(b),
{
    if b {
        1
    } else {
        0
    }
}

fn push_flags(out: &mut Vec<u8>, r: &Research, a: &Achievements)
    ensures
        final(out)@ == old(out)@ + flag_bytes(*r, *a),
{
    let ghost start = out@;
    out.push(flag_byte(r.is_unlocked(Tech::Mining)));
    out.push(flag_byte(r.is_unlocked(Tech::Baking)));
    out.push(flag_byte(r.is_unlocked(Tech::Electricity)));
    out.push(flag_byte(r.is_unlocked(Tech::Education)));
    out.push(flag_byte(r.is_unlocked(Tech::Alchemy)));
    out.push(flag_byte(a.is_unlocked(Milestone::FirstFarm)));
    out.push(flag_byte(a.is_unlocked(Milestone::DiscoveredMining)));
    assert(out@ =~= start + flag_bytes(*r, *a));
}

fn push_tail(out: &mut Vec<u8>, d: &SaveData)
    ensures
        final(out)@ == old(out)@ + tail_bytes(*d),
{
    let ghost start = out@;
    push_u32(out, d.prestige.points);
    push_u64(out, d.tick_rate);
    match d.last_update {
        Some(t) => {
            out.push(1);
            push_u64(out, t);
        },
        None => {
            out.push(0);
            push_u64(out, 0);
        },
    }
    assert(out@ =~= start + tail_bytes(*d));
}

/// Writes the record of the given fields.
pub fn write_save(d: &SaveData) -> (r: Vec<u8>)
    ensures
        r@ == save_bytes(*d),
{
    let mut out: Vec<u8> = Vec::new();
    push_u32(&mut out, d.version);
    push_ledger(&mut out, &d.resources);
    push_levels(&mut out, &d.buildings, &d.upgrades);
    push_flags(&mut out, &d.research, &d.achievements);
    push_tail(&mut out, d);
    assert(out@ =~= save_bytes(*d));
    out
}

fn read_signed(s: &[u8]) -> (r: i64)
    requires
        s@.len() == 8,
    ensures
        r == signed_of(s@),
{
    (u64_from_le_bytes(s) as i128 - 0x8000_0000_0000_0000i128) as i64
}

fn read_ledger(s: &[u8]) -> (r: Resources)
    requires
        s@.len() == 64,
    ensures
        r == ledger_of(s@),
{
    Resources {
        wood: read_signed(slice_subrange(s, 0, 8)),
        stone: read_signed(slice_subrange(s, 8, 16)),
        food: read_signed(slice_subrange(s, 16, 24)),
        iron: read_signed(slice_subrange(s, 24, 32)),
        gold: read_signed(slice_subrange(s, 32, 40)),
        energy: read_signed(slice_subrange(s, 40, 48)),
        science: read_signed(slice_subrange(s, 48, 56)),
        mana: read_signed(slice_subrange(s, 56, 64)),
    }
}

fn read_level(s: &[u8], k: usize) -> (r: u32)
    requires
        s@.len() == 44,
        k < 11,
    ensures
        r == level_at(s@, k as int),
{
    u32_from_le_bytes(slice_subrange(s, 4 * k, 4 * k + 4))
}

fn read_buildings(s: &[u8]) -> (r: Buildings)
    requires
        s@.len() == 44,
    ensures
        r == buildings_of(s@),
{
    let mut b = Buildings::default();
    b.set_level(BuildingType::Farm, read_level(s, 0));
    b.set_level(BuildingType::LumberMill, read_level(s, 1));
    b.set_level(BuildingType::Quarry, read_level(s, 2));
    b.set_level(BuildingType::Mine, read_level(s, 3));
    b.set_level(BuildingType::Bakery, read_level(s, 4));
    b.set_level(BuildingType::Generator, read_level(s, 5));
    b.set_level(BuildingType::Lab, read_level(s, 6));
    b.set_level(BuildingType::Shrine, read_level(s, 7));
    b
}

fn read_upgrades(s: &[u8]) -> (r: Upgrades)
    requires
        s@.len() == 44,
    ensures
        r == upgrades_of(s@),
{
    let mut u = Upgrades::default();
    u.set_level(UpgradeType::Efficiency, read_level(s, 8));
    u.set_level(UpgradeType::Storage, read_level(s, 9));
    u.set_level(UpgradeType::AlchemyBoost, read_level(s, 10));
    u
}

fn read_research(s: &[u8]) -> (r: Research)
    requires
        s@.len() == 7,
    ensures
        r == research_of(s@),
{
    let mut r = Research::default();
    if s[0] == 1 {
        r.unlock(Tech::Mining);
    }
    if s[1] == 1 {
        r.unlock(Tech::Baking);
    }
    if s[2] == 1 {
        r.unlock(Tech::Electricity);
    }
    if s[3] == 1 {
        r.unlock(Tech::Education);
    }
    if s[4] == 1 {
        r.unlock(Tech::Alchemy);
    }
    r
}

fn read_achievements(s: &[u8]) -> (r: Achievements)
    requires
        s@.len() == 7,
    ensures
        r == achievements_of(s@),
{
    let mut a = Achievements::default();
    if s[5] == 1 {
        a.unlock(Milestone::FirstFarm);
    }
    if s[6] == 1 {
        a.unlock(Milestone::DiscoveredMining);
    }
    a
}

/// Reads a record back; nothing when it is not one this format wrote for a
/// valid state.
pub fn read_save(b: &[u8]) -> (r: Option<SaveData>)
    ensures
        r == decode_save(b@),
        r matches Some(d) ==> d.valid(),
{
    if b.len() != SAVE_LEN {
        return None;
    }
    let version = u32_from_le_bytes(slice_subrange(b, 0, 4));
    let ledger = slice_subrange(b, 4, 68);
    let levels = slice_subrange(b, 68, 112);
    let flags = slice_subrange(b, 112, 119);
    let tail = slice_subrange(b, 119, 140);
    let rate = u64_from_le_bytes(slice_subrange(tail, 4, 12));
    if version != SAVE_VERSION {
        return None;
    }
    let mut i: usize = 0;
    while i < 7
        invariant
            b@.len() == SAVE_LEN,
            flags@ == b@.subrange(112, 119),
            i <= 7,
            forall|j: int| 0 <= j < i ==> flags@[j] <= 1,
        decreases 7 - i,
    {
        if flags[i] > 1 {
            assert(b@.subrange(112, 119)[i as int] > 1);
            return None;
        }
        i = i + 1;
    }
    if tail[12] > 1 || rate < MIN_TICK_MS || rate > MAX_TICK_MS {
        return None;
    }
    let last_update = if tail[12] == 1 {
        Some(u64_from_le_bytes(slice_subrange(tail, 13, 21)))
    } else {
        None
    };
    Some(
        SaveData {
            version,
            resources: read_ledger(ledger),
            buildings: read_buildings(levels),
            upgrades: read_upgrades(levels),
            research: read_research(flags),
            achievements: read_achievements(flags),
            prestige: Prestige { points: u32_from_le_bytes(slice_subrange(tail, 0, 4)) },
            tick_rate: rate,
            last_update,
        },
    )
}

impl GameState {
    /// Every field that a save keeps.
    pub open spec fn persisted(self) -> SaveData {
        SaveData {
            version: self.version,
            resources: self.resources,
            buildings: self.buildings,
            upgrades: self.upgrades,
            research: self.research,
            achievements: self.achievements,
            prestige: self.prestige,
            tick_rate: self.tick_rate,
            last_update: self.last_update,
        }
    }

    /// A state with the saved fields, an empty message queue and the
    /// default event chance.
    fn from_save(d: SaveData) -> (r: GameState)
        ensures
            r.persisted() == d,
            r.event_log@.len() == 0,
            r.event_chance == FARM_LOSS_CHANCE,
    {
        GameState {
            version: d.version,
            resources: d.resources,
            buildings: d.buildings,
            upgrades: d.upgrades,
            research: d.research,
            achievements: d.achievements,
            prestige: d.prestige,
            event_log: Vec::new(),
            event_chance: FARM_LOSS_CHANCE,
            tick_rate: d.tick_rate,
            last_update: d.last_update,
        }
    }

    /// Save state to base64 string. The message queue and the event chance
    /// are not kept.
    pub fn save_string(&self) -> (r: String)
        ensures
            r@ == base64_text(save_bytes(self.persisted())),
    {
        let d = SaveData {
            version: self.version,
            resources: self.resources,
            buildings: self.buildings,
            upgrades: self.upgrades,
            research: self.research,
            achievements: self.achievements,
            prestige: self.prestige,
            tick_rate: self.tick_rate,
            last_update: self.last_update,
        };
        let bytes = write_save(&d);
        encode_base64(bytes.as_slice())
    }

    /// Load state from base64 string: the saved fields, an empty message
    /// queue and the default event chance; nothing for text that is not a
    /// save of a valid state.
    pub fn load_string(data: &str) -> (r: Option<GameState>)
        ensures
            forall|b: Seq<u8>|
                data@ == base64_text(b) ==> match decode_save(b) {
                    None => r is None,
                    Some(d) => r matches Some(g) && g.persisted() == d,
                },
            r matches Some(g) ==> {
                &&& g.wf()
                &&& g.event_log@.len() == 0
                &&& g.event_chance == FARM_LOSS_CHANCE
                &&& exists|b: Seq<u8>|
                    data@ == base64_text(b) && decode_save(b) == Some(g.persisted())
            },
    {
        let bytes = match decode_base64(data) {
            Ok(bytes) => bytes,
            Err(_) => return None,
        };
        match read_save(bytes.as_slice()) {
            Some(d) => Some(GameState::from_save(d)),
            None => None,
        }
    }

    /// Replace the whole state by the one a save holds. Returns false and
    /// changes nothing when the text is not a save of a valid state.
    pub fn load(&mut self, data: &str) -> (r: bool)
        ensures
            !r ==> *final(self) == *old(self),
            r ==> {
                &&& final(self).wf()
                &&& final(self).event_log@.len() == 0
                &&& final(self).event_chance == FARM_LOSS_CHANCE
                &&& exists|b: Seq<u8>|
                    data@ == base64_text(b) && decode_save(b) == Some(final(self).persisted())
            },
            forall|b: Seq<u8>|
                data@ == base64_text(b) ==> match decode_save(b) {
                    None => !r,
                    Some(d) => r && final(self).persisted() == d,
                },
    {
        match GameState::load_string(data) {
            Some(g) => {
                *self = g;
                true
            },
            None => false,
        }
    }
}

/// Loading what a save wrote restores every persisted field of a
/// well-formed state exactly.
pub proof fn lemma_state_round_trip(g: GameState)
    requires
        g.wf(),
    ensures
        decode_save(save_bytes(g.persisted())) == Some(g.persisted()),
{
    lemma_save_round_trip(g.persisted());
}

} // verus!
