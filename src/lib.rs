//! Deterministic progression engine for an incremental ("idle") game.
//!
//! A small economy of resources, buildings, upgrades, research, events,
//! achievements and prestige advances in whole ticks, carrying the part of
//! a tick left over into the next advance, so that a game advanced in many
//! short steps and one caught up in a single jump end in the same place. Every amount is a fixed-point integer
//! counted in millionths of a unit, and every timestamp is in milliseconds.
pub mod achievements;
pub mod buildings;
pub mod events;
pub mod fixed_point;
pub mod game;
pub mod names;
pub mod prestige;
pub mod research;
pub mod resources;
pub mod save;
pub mod systems;
pub mod text;
pub mod upgrades;

pub use achievements::{Achievements, Milestone};
pub use buildings::{BuildingType, Buildings};
pub use events::{
    check_random_events, farm_loss_event, treasure_event, EventRoll, CERTAIN, FARM_LOSS_CHANCE,
};
pub use fixed_point::UNIT;
pub use game::Game;
pub use prestige::Prestige;
pub use research::{Research, Tech};
pub use resources::{res, res_ext, Resources};
pub use save::SaveData;
pub use systems::GameState;
pub use upgrades::{UpgradeType, Upgrades};
