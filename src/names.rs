//! Name lookup at the boundary: building, technology and resource names
//! resolve to the closed types of the engine, or to nothing.
use vstd::prelude::*;
use crate::buildings::BuildingType;
use crate::research::Tech;
use crate::resources::Resources;
use crate::text::same_text;

verus! {

/// The building type a name stands for.
pub open spec fn building_named(name: Seq<char>) -> Option<BuildingType> {
    if name == "farm"@ {
        Some(BuildingType::Farm)
    } else if name == "lumber_mill"@ {
        Some(BuildingType::LumberMill)
    } else if name == "quarry"@ {
        Some(BuildingType::Quarry)
    } else if name == "mine"@ {
        Some(BuildingType::Mine)
    } else if name == "bakery"@ {
        Some(BuildingType::Bakery)
    } else if name == "generator"@ {
        Some(BuildingType::Generator)
    } else if name == "lab"@ {
        Some(BuildingType::Lab)
    } else if name == "shrine"@ {
        Some(BuildingType::Shrine)
    } else {
        None
    }
}

/// The technology a name stands for.
pub open spec fn tech_named(name: Seq<char>) -> Option<Tech> {
    if name == "mining"@ {
        Some(Tech::Mining)
    } else if name == "baking"@ {
        Some(Tech::Baking)
    } else if name == "electricity"@ {
        Some(Tech::Electricity)
    } else if name == "education"@ {
        Some(Tech::Education)
    } else if name == "alchemy"@ {
        Some(Tech::Alchemy)
    } else {
        None
    }
}

/// The stock of `r` that a name stands for; zero for an unknown name.
pub open spec fn stock_named(r: Resources, name: Seq<char>) -> i64 {
    if name == "wood"@ {
        r.wood
    } else if name == "stone"@ {
        r.stone
    } else if name == "food"@ {
        r.food
    } else if name == "iron"@ {
        r.iron
    } else if name == "gold"@ {
        r.gold
    } else if name == "energy"@ {
        r.energy
    } else if name == "science"@ {
        r.science
    } else if name == "mana"@ {
        r.mana
    } else {
        0
    }
}

/// Resolves a building name.
pub fn building_from_name(name: &str) -> (r: Option<BuildingType>)
    ensures
        r == building_named(name@),
{
    if same_text(name, "farm") {
        Some(BuildingType::Farm)
    } else if same_text(name, "lumber_mill") {
        Some(BuildingType::LumberMill)
    } else if same_text(name, "quarry") {
        Some(BuildingType::Quarry)
    } else if same_text(name, "mine") {
        Some(BuildingType::Mine)
    } else if same_text(name, "bakery") {
        Some(BuildingType::Bakery)
    } else if same_text(name, "generator") {
        Some(BuildingType::Generator)
    } else if same_text(name, "lab") {
        Some(BuildingType::Lab)
    } else if same_text(name, "shrine") {
        Some(BuildingType::Shrine)
    } else {
        None
    }
}

/// Resolves a technology name.
pub fn tech_from_name(name: &str) -> (r: Option<Tech>)
    ensures
        r == tech_named(name@),
{
    if same_text(name, "mining") {
        Some(Tech::Mining)
    } else if same_text(name, "baking") {
        Some(Tech::Baking)
    } else if same_text(name, "electricity") {
        Some(Tech::Electricity)
    } else if same_text(name, "education") {
        Some(Tech::Education)
    } else if same_text(name, "alchemy") {
        Some(Tech::Alchemy)
    } else {
        None
    }
}

/// Reads the stock that a name stands for; zero for an unknown name.
pub fn stock_by_name(r: &Resources, name: &str) -> (v: i64)
    ensures
        v == stock_named(*r, name@),
{
    if same_text(name, "wood") {
        r.wood
    } else if same_text(name, "stone") {
        r.stone
    } else if same_text(name, "food") {
        r.food
    } else if same_text(name, "iron") {
        r.iron
    } else if same_text(name, "gold") {
        r.gold
    } else if same_text(name, "energy") {
        r.energy
    } else if same_text(name, "science") {
        r.science
    } else if same_text(name, "mana") {
        r.mana
    } else {
        0
    }
}

} // verus!
