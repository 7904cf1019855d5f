//! The achievement tracker: one-shot milestones, each announced once.
use vstd::prelude::*;
use crate::buildings::{BuildingType, Buildings};
use crate::research::{Research, Tech};
use crate::text::{text_less, texts, texts_sorted};

verus! {

/// The milestones that can be achieved, in the order they are checked.
#[derive(Clone, Copy, Debug, PartialEq, Eq, Structural, Hash)]
pub enum Milestone {
    /// At least one farm is owned.
    FirstFarm,
    /// Mining has been researched.
    DiscoveredMining,
}

/// Identifier of a milestone, as listed to the player.
pub open spec fn milestone_name(m: Milestone) -> Seq<char> {
    match m {
        Milestone::FirstFarm => "First Farm"@,
        Milestone::DiscoveredMining => "Discovered Mining"@,
    }
}

/// Message announcing a milestone.
pub open spec fn milestone_message(m: Milestone) -> Seq<char> {
    "Achievement unlocked: "@ + milestone_name(m)
}

/// Whether the game state qualifies for a milestone.
pub open spec fn qualifies(m: Milestone, b: Buildings, r: Research) -> bool {
    match m {
        Milestone::FirstFarm => b.level_of(BuildingType::Farm) >= 1,
        Milestone::DiscoveredMining => r.has(Tech::Mining),
    }
}

/// Tracks unlocked achievements
#[derive(Clone, Copy, Debug, PartialEq, Eq, Structural)]
pub struct Achievements {
    first_farm: bool,
    discovered_mining: bool,
}

impl Achievements {
    /// Whether a milestone has been reached.
    pub closed spec fn has(self, m: Milestone) -> bool {
        match m {
            Milestone::FirstFarm => self.first_farm,
            Milestone::DiscoveredMining => self.discovered_mining,
        }
    }

    /// The same tracker with `m` reached.
    pub closed spec fn with(self, m: Milestone) -> Achievements {
        match m {
            Milestone::FirstFarm => Achievements { first_farm: true, ..self },
            Milestone::DiscoveredMining => Achievements { discovered_mining: true, ..self },
        }
    }

    /// Nothing reached.
    pub closed spec fn empty() -> Achievements {
        Achievements { first_farm: false, discovered_mining: false }
    }

    /// Reaching one milestone leaves the others as they are.
    pub broadcast proof fn lemma_with(self, m: Milestone, other: Milestone)
        ensures
            #[trigger] self.with(m).has(other) == (other == m || self.has(other)),
    {
    }

    /// Nothing is reached at first.
    pub broadcast proof fn lemma_empty(m: Milestone)
        ensures
            !#[trigger] Achievements::empty().has(m),
    {
    }

    /// Two trackers with the same milestones are the same.
    pub proof fn lemma_ext(a: Achievements, b: Achievements)
        requires
            forall|m: Milestone| #[trigger] a.has(m) == b.has(m),
        ensures
            a == b,
    {
        assert(a.has(Milestone::FirstFarm) == b.has(Milestone::FirstFarm));
        assert(a.has(Milestone::DiscoveredMining) == b.has(Milestone::DiscoveredMining));
    }

    /// One step of a check: the tracker and the messages after looking at `m`.
    pub open spec fn step(self, m: Milestone, b: Buildings, r: Research) -> (
        Achievements,
        Seq<Seq<char>>,
    ) {
        if qualifies(m, b, r) && !self.has(m) {
            (self.with(m), seq![milestone_message(m)])
        } else {
            (self, Seq::empty())
        }
    }

    /// The tracker and the messages after a check: every milestone, in
    /// order, that the state qualifies for and that was not yet reached is
    /// reached and announced.
    pub open spec fn after_check(self, b: Buildings, r: Research) -> (
        Achievements,
        Seq<Seq<char>>,
    ) {
        let first = self.step(Milestone::FirstFarm, b, r);
        let second = first.0.step(Milestone::DiscoveredMining, b, r);
        (second.0, first.1 + second.1)
    }

    /// The identifiers of the reached milestones, in sorted order.
    pub open spec fn listing(self) -> Seq<Seq<char>> {
        (if self.has(Milestone::DiscoveredMining) {
            seq![milestone_name(Milestone::DiscoveredMining)]
        } else {
            Seq::empty()
        }) + (if self.has(Milestone::FirstFarm) {
            seq![milestone_name(Milestone::FirstFarm)]
        } else {
            Seq::empty()
        })
    }

    /// Whether a milestone has been reached.
    pub fn is_unlocked(&self, m: Milestone) -> (r: bool)
        ensures
            r == self.has(m),
    {
        match m {
            Milestone::FirstFarm => self.first_farm,
            Milestone::DiscoveredMining => self.discovered_mining,
        }
    }

    /// Mark a milestone as reached.
    pub fn unlock(&mut self, m: Milestone)
        ensures
            *final(self) == old(self).with(m),
    {
        match m {
            Milestone::FirstFarm => self.first_farm = true,
            Milestone::DiscoveredMining => self.discovered_mining = true,
        }
    }

    /// Check for new achievements based on game state. Returns messages for
    /// any newly unlocked achievements.
    pub fn check(&mut self, buildings: &Buildings, research: &Research) -> (r: Vec<String>)
        ensures
            (*final(self), texts(r@)) == old(self).after_check(*buildings, *research),
    {
        let mut msgs: Vec<String> = Vec::new();
        if buildings.level(BuildingType::Farm) >= 1 && !self.first_farm {
            self.first_farm = true;
            msgs.push(String::from_str("Achievement unlocked: First Farm"));
        }
        if research.is_unlocked(Tech::Mining) && !self.discovered_mining {
            self.discovered_mining = true;
            msgs.push(String::from_str("Achievement unlocked: Discovered Mining"));
        }
        proof {
            reveal_strlit("Achievement unlocked: ");
            reveal_strlit("First Farm");
            reveal_strlit("Discovered Mining");
            reveal_strlit("Achievement unlocked: First Farm");
            reveal_strlit("Achievement unlocked: Discovered Mining");
            assert(milestone_message(Milestone::FirstFarm) =~= "Achievement unlocked: First Farm"@);
            assert(milestone_message(Milestone::DiscoveredMining)
                =~= "Achievement unlocked: Discovered Mining"@);
            assert(texts(msgs@) =~= old(self).after_check(*buildings, *research).1);
        }
        msgs
    }

    /// List achievements as strings, in sorted order
    pub fn list(&self) -> (r: Vec<String>)
        ensures
            texts(r@) == self.listing(),
            texts_sorted(texts(r@)),
    {
        let mut v: Vec<String> = Vec::new();
        if self.discovered_mining {
            v.push(String::from_str("Discovered Mining"));
        }
        if self.first_farm {
            v.push(String::from_str("First Farm"));
        }
        proof {
            reveal_strlit("First Farm");
            reveal_strlit("Discovered Mining");
            assert(text_less("Discovered Mining"@, "First Farm"@));
            assert(texts(v@) =~= self.listing());
        }
        v
    }
}

/// Checking twice against an unchanged game state announces nothing the
/// second time and reaches nothing new.
pub proof fn lemma_check_idempotent(a: Achievements, b: Buildings, r: Research)
    ensures
        a.after_check(b, r).0.after_check(b, r) == (a.after_check(b, r).0, Seq::<Seq<char>>::empty()),
{
    broadcast use Achievements::lemma_with;

    let once = a.after_check(b, r).0;
    assert(once.after_check(b, r).1 =~= Seq::<Seq<char>>::empty());
}

impl Default for Achievements {
    fn default() -> (r: Achievements)
        ensures
            r == Achievements::empty(),
    {
        Achievements { first_farm: false, discovered_mining: false }
    }
}

} // verus!
