//! The research tree: technologies unlocked once and for good.
use vstd::prelude::*;
use crate::fixed_point::UNIT;
use crate::resources::Resources;

verus! {

/// Science charged to unlock one technology, in millionths.
pub const RESEARCH_COST: i64 = 100 * UNIT;

/// Technologies that can be researched
#[derive(Clone, Copy, Debug, PartialEq, Eq, Structural, Hash)]
pub enum Tech {
    /// Unlocks mines
    Mining,
    /// Unlocks bakeries
    Baking,
    /// Allows construction of generators
    Electricity,
    /// Allows laboratories for science
    Education,
    /// Enables shrines and mana
    Alchemy,
}

/// Player research tree
#[derive(Clone, Copy, Debug, PartialEq, Eq, Structural)]
pub struct Research {
    mining: bool,
    baking: bool,
    electricity: bool,
    education: bool,
    alchemy: bool,
}

impl Research {
    /// Whether a technology is unlocked.
    pub closed spec fn has(self, tech: Tech) -> bool {
        match tech {
            Tech::Mining => self.mining,
            Tech::Baking => self.baking,
            Tech::Electricity => self.electricity,
            Tech::Education => self.education,
            Tech::Alchemy => self.alchemy,
        }
    }

    /// The same tree with `tech` unlocked.
    pub closed spec fn with(self, tech: Tech) -> Research {
        match tech {
            Tech::Mining => Research { mining: true, ..self },
            Tech::Baking => Research { baking: true, ..self },
            Tech::Electricity => Research { electricity: true, ..self },
            Tech::Education => Research { education: true, ..self },
            Tech::Alchemy => Research { alchemy: true, ..self },
        }
    }

    /// Nothing unlocked.
    pub closed spec fn empty() -> Research {
        Research { mining: false, baking: false, electricity: false, education: false, alchemy: false }
    }

    /// Unlocking one technology leaves the others as they are.
    pub broadcast proof fn lemma_with(self, tech: Tech, other: Tech)
        ensures
            #[trigger] self.with(tech).has(other) == (other == tech || self.has(other)),
    {
    }

    /// Nothing is unlocked at first.
    pub broadcast proof fn lemma_empty(tech: Tech)
        ensures
            !#[trigger] Research::empty().has(tech),
    {
    }

    /// Two trees with the same technologies are the same.
    pub proof fn lemma_ext(a: Research, b: Research)
        requires
            forall|t: Tech| #[trigger] a.has(t) == b.has(t),
        ensures
            a == b,
    {
        assert(a.has(Tech::Mining) == b.has(Tech::Mining));
        assert(a.has(Tech::Baking) == b.has(Tech::Baking));
        assert(a.has(Tech::Electricity) == b.has(Tech::Electricity));
        assert(a.has(Tech::Education) == b.has(Tech::Education));
        assert(a.has(Tech::Alchemy) == b.has(Tech::Alchemy));
    }

    /// Check if technology is unlocked
    pub fn is_unlocked(&self, tech: Tech) -> (r: bool)
        ensures
            r == self.has(tech),
    {
        match tech {
            Tech::Mining => self.mining,
            Tech::Baking => self.baking,
            Tech::Electricity => self.electricity,
            Tech::Education => self.education,
            Tech::Alchemy => self.alchemy,
        }
    }

    /// Unlock a technology
    pub fn unlock(&mut self, tech: Tech)
        ensures
            *final(self) == old(self).with(tech),
    {
        match tech {
            Tech::Mining => self.mining = true,
            Tech::Baking => self.baking = true,
            Tech::Electricity => self.electricity = true,
            Tech::Education => self.education = true,
            Tech::Alchemy => self.alchemy = true,
        }
    }

    /// Outcome of an unlock attempt: whether the technology ends up
    /// unlocked, the tree, and the ledger. An unlocked technology costs
    /// nothing again; otherwise the science stock pays `RESEARCH_COST`, or
    /// nothing changes when it cannot.
    pub open spec fn after_try_unlock(self, tech: Tech, res: Resources) -> (bool, Research, Resources) {
        if self.has(tech) {
            (true, self, res)
        } else if res.science >= RESEARCH_COST {
            (true, self.with(tech), Resources { science: (res.science - RESEARCH_COST) as i64, ..res })
        } else {
            (false, self, res)
        }
    }

    /// Attempt to unlock a technology consuming science
    pub fn try_unlock(&mut self, tech: Tech, res: &mut Resources) -> (r: bool)
        ensures
            (r, *final(self), *final(res)) == old(self).after_try_unlock(tech, *old(res)),
    {
        if self.is_unlocked(tech) {
            return true;
        }
        if res.science >= RESEARCH_COST {
            res.science = res.science - RESEARCH_COST;
            self.unlock(tech);
            true
        } else {
            false
        }
    }
}

impl Default for Research {
    fn default() -> (r: Research)
        ensures
            r == Research::empty(),
    {
        Research { mining: false, baking: false, electricity: false, education: false, alchemy: false }
    }
}

} // verus!
