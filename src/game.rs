//! A small hand-crafting game: gather wood, stone and food by hand, craft
//! tools once each, and build farms that feed the player.
use vstd::prelude::*;

verus! {

/// Wood that a farm costs.
pub const FARM_WOOD: u32 = 10;

/// Stone that a farm costs.
pub const FARM_STONE: u32 = 10;

/// Wood that the axe costs.
pub const AXE_WOOD: u32 = 10;

/// Stone that the axe costs.
pub const AXE_STONE: u32 = 5;

/// Wood that the pickaxe costs.
pub const PICKAXE_WOOD: u32 = 5;

/// Stone that the pickaxe costs.
pub const PICKAXE_STONE: u32 = 10;

/// State of the hand-crafting game
#[derive(Clone, Copy, Debug, PartialEq, Eq, Structural)]
pub struct Game {
    /// Wood in stock
    pub wood: u32,
    /// Stone in stock
    pub stone: u32,
    /// Food in stock
    pub food: u32,
    /// Farms built
    pub farms: u32,
    /// Whether the axe has been crafted
    pub axe: bool,
    /// Whether the pickaxe has been crafted
    pub pickaxe: bool,
}

impl Game {
    /// A game with nothing gathered, built or crafted
    pub fn new() -> (r: Self)
        ensures
            r == (Game { wood: 0, stone: 0, food: 0, farms: 0, axe: false, pickaxe: false }),
    {
        Self { wood: 0, stone: 0, food: 0, farms: 0, axe: false, pickaxe: false }
    }

    /// Gather one wood by hand
    pub fn collect_wood(&mut self)
        requires
            old(self).wood < u32::MAX,
        ensures
            *final(self) == (Game { wood: (old(self).wood + 1) as u32, ..*old(self) }),
    {
        self.wood += 1;
    }

    /// Gather one stone by hand
    pub fn collect_stone(&mut self)
        requires
            old(self).stone < u32::MAX,
        ensures
            *final(self) == (Game { stone: (old(self).stone + 1) as u32, ..*old(self) }),
    {
        self.stone += 1;
    }

    /// Gather one food by hand
    pub fn collect_food(&mut self)
        requires
            old(self).food < u32::MAX,
        ensures
            *final(self) == (Game { food: (old(self).food + 1) as u32, ..*old(self) }),
    {
        self.food += 1;
    }

    /// Build a farm for `FARM_WOOD` wood and `FARM_STONE` stone; false, with
    /// nothing changed, when the stock does not cover it
    pub fn build_farm(&mut self) -> (r: bool)
        requires
            old(self).farms < u32::MAX,
        ensures
            r == (old(self).wood >= FARM_WOOD && old(self).stone >= FARM_STONE),
            r ==> *final(self) == (Game {
                wood: (old(self).wood - FARM_WOOD) as u32,
                stone: (old(self).stone - FARM_STONE) as u32,
                farms: (old(self).farms + 1) as u32,
                ..*old(self)
            }),
            !r ==> *final(self) == *old(self),
    {
        if self.wood >= FARM_WOOD && self.stone >= FARM_STONE {
            self.wood -= FARM_WOOD;
            self.stone -= FARM_STONE;
            self.farms += 1;
            true
        } else {
            false
        }
    }

    /// Craft the axe for `AXE_WOOD` wood and `AXE_STONE` stone; false, with
    /// nothing changed, when it is already crafted or the stock does not
    /// cover it
    pub fn craft_axe(&mut self) -> (r: bool)
        ensures
            r == (!old(self).axe && old(self).wood >= AXE_WOOD && old(self).stone >= AXE_STONE),
            r ==> *final(self) == (Game {
                wood: (old(self).wood - AXE_WOOD) as u32,
                stone: (old(self).stone - AXE_STONE) as u32,
                axe: true,
                ..*old(self)
            }),
            !r ==> *final(self) == *old(self),
    {
        if self.axe {
            return false;
        }
        if self.wood >= AXE_WOOD && self.stone >= AXE_STONE {
            self.wood -= AXE_WOOD;
            self.stone -= AXE_STONE;
            self.axe = true;
            true
        } else {
            false
        }
    }

    /// Craft the pickaxe for `PICKAXE_WOOD` wood and `PICKAXE_STONE` stone;
    /// false, with nothing changed, when it is already crafted or the stock
    /// does not cover it
    pub fn craft_pickaxe(&mut self) -> (r: bool)
        ensures
            r == (!old(self).pickaxe && old(self).wood >= PICKAXE_WOOD && old(self).stone
                >= PICKAXE_STONE),
            r ==> *final(self) == (Game {
                wood: (old(self).wood - PICKAXE_WOOD) as u32,
                stone: (old(self).stone - PICKAXE_STONE) as u32,
                pickaxe: true,
                ..*old(self)
            }),
            !r ==> *final(self) == *old(self),
    {
        if self.pickaxe {
            return false;
        }
        if self.wood >= PICKAXE_WOOD && self.stone >= PICKAXE_STONE {
            self.wood -= PICKAXE_WOOD;
            self.stone -= PICKAXE_STONE;
            self.pickaxe = true;
            true
        } else {
            false
        }
    }

    /// Wood in stock
    pub fn get_wood(&self) -> (r: u32)
        ensures
            r == self.wood,
    {
        self.wood
    }

    /// Stone in stock
    pub fn get_stone(&self) -> (r: u32)
        ensures
            r == self.stone,
    {
        self.stone
    }

    /// Whether the axe has been crafted
    pub fn has_axe(&self) -> (r: bool)
        ensures
            r == self.axe,
    {
        self.axe
    }

    /// Whether the pickaxe has been crafted
    pub fn has_pickaxe(&self) -> (r: bool)
        ensures
            r == self.pickaxe,
    {
        self.pickaxe
    }

    /// Food in stock
    pub fn get_food(&self) -> (r: u32)
        ensures
            r == self.food,
    {
        self.food
    }

    /// Farms built
    pub fn get_farms(&self) -> (r: u32)
        ensures
            r == self.farms,
    {
        self.farms
    }

    /// Each farm yields one food
    pub fn passive_food_generation(&mut self)
        requires
            old(self).food + old(self).farms <= u32::MAX,
        ensures
            *final(self) == (Game { food: (old(self).food + old(self).farms) as u32, ..*old(self) }),
    {
        if self.farms > 0 {
            self.food += self.farms;
        }
    }

    /// The axe gathers one wood
    pub fn passive_wood_collection(&mut self)
        requires
            old(self).wood < u32::MAX,
        ensures
            *final(self) == if old(self).axe {
                Game { wood: (old(self).wood + 1) as u32, ..*old(self) }
            } else {
                *old(self)
            },
    {
        if self.axe {
            self.wood += 1;
        }
    }

    /// The pickaxe gathers one stone
    pub fn passive_stone_collection(&mut self)
        requires
            old(self).stone < u32::MAX,
        ensures
            *final(self) == if old(self).pickaxe {
                Game { stone: (old(self).stone + 1) as u32, ..*old(self) }
            } else {
                *old(self)
            },
    {
        if self.pickaxe {
            self.stone += 1;
        }
    }
}

} // verus!
