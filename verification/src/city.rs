//! The per-city economy and combat formulas: resource production, the
//! derived power score, upgrade costs and effects, and the randomized
//! attack-strength roll.

use vstd::prelude::*;

use crate::enums::GameError;
use crate::rng::rand_range_inclusive;
use crate::structs::City;

verus! {

/// `a + b`, saturating at the top of the `u32` range.
pub open spec fn sat_add_u32(a: int, b: int) -> int {
    if a + b > u32::MAX {
        u32::MAX as int
    } else {
        a + b
    }
}

impl City {
    /// What one production step yields: half the production level,
    /// rounded up.
    pub open spec fn produce_gain(self) -> int {
        (self.generation_level + 1) / 2
    }

    /// The city after one production step: the gain is added to its
    /// resources, saturating rather than overflowing.
    pub open spec fn after_produce(self) -> City {
        City {
            resources: sat_add_u32(self.resources as int, self.produce_gain()) as u32,
            ..self
        }
    }

    /// Raising the combat level costs five resources per current level.
    pub open spec fn attack_upgrade_cost(self) -> int {
        self.combat_level * 5
    }

    /// Raising the production level costs five resources per current level.
    pub open spec fn produce_upgrade_cost(self) -> int {
        self.generation_level * 5
    }

    /// The city after a successful combat upgrade.
    pub open spec fn after_upgrade_attack(self) -> City {
        City {
            combat_level: (self.combat_level + 1) as u32,
            resources: (self.resources - self.attack_upgrade_cost()) as u32,
            ..self
        }
    }

    /// The city after a successful production upgrade.
    pub open spec fn after_upgrade_production(self) -> City {
        City {
            generation_level: (self.generation_level + 1) as u32,
            resources: (self.resources - self.produce_upgrade_cost()) as u32,
            ..self
        }
    }

    /// One scalar summarizing a city's strength: the ceiling-rounded third
    /// of its levels plus a resource bonus of half the resources, rounded
    /// up. The sum saturates rather than overflowing.
    pub open spec fn spec_power(self) -> int {
        let bonus = (self.resources + 1) / 2;
        let total = sat_add_u32(self.combat_level + self.generation_level, bonus);
        (total + 2) / 3
    }

    /// The lowest attack roll this city can make.
    pub open spec fn spec_roll_min(self) -> int {
        (if self.combat_level >= 5 {
            self.combat_level - 5
        } else {
            0
        }) + 1
    }

    /// The highest attack roll this city can make.
    pub open spec fn spec_roll_max(self) -> int {
        sat_add_u32(self.combat_level as int, 1)
    }

    /// One combat encounter's effective attack strength: a uniform draw
    /// from the inclusive window `[max(combat_level - 5, 0) + 1,
    /// combat_level + 1]` just below the city's nominal strength.
    pub fn roll_for_attack(&self) -> (r: u32)
        ensures
            self.spec_roll_min() <= r <= self.spec_roll_max(),
    {
        let min_roll: u32 = if self.combat_level >= 5 {
            self.combat_level - 5 + 1
        } else {
            1
        };
        let max_roll: u32 = if self.combat_level == u32::MAX {
            u32::MAX
        } else {
            self.combat_level + 1
        };
        rand_range_inclusive(min_roll, max_roll)
    }

    /// One production step. Resources never decrease, and the new balance
    /// is a function of the old balance and the production level alone.
    pub fn produce(&mut self)
        ensures
            *final(self) == old(self).after_produce(),
            final(self).resources >= old(self).resources,
    {
        let gain: u32 = self.generation_level / 2 + self.generation_level % 2;
        assert(gain == old(self).produce_gain());
        if self.resources > u32::MAX - gain {
            self.resources = u32::MAX;
        } else {
            self.resources = self.resources + gain;
        }
    }

    /// The city's current power score.
    pub fn get_power(&self) -> (r: u32)
        ensures
            r == self.spec_power(),
    {
        let bonus: u32 = self.resources / 2 + self.resources % 2;
        assert(bonus == (self.resources + 1) / 2);
        let total: u64 = self.combat_level as u64 + self.generation_level as u64 + bonus as u64;
        let summed: u32 = if total > u32::MAX as u64 {
            u32::MAX
        } else {
            total as u32
        };
        assert(summed == sat_add_u32(self.combat_level + self.generation_level, bonus as int));
        let r = summed / 3 + if summed % 3 != 0 {
            1
        } else {
            0
        };
        assert(r == (summed + 2) / 3);
        r
    }

    /// The resource price of the next combat upgrade, saturating at the
    /// top of the `u32` range.
    pub fn get_resource_amount_to_upgrade_attack(&self) -> (r: u32)
        ensures
            r == if self.attack_upgrade_cost() > u32::MAX {
                u32::MAX as int
            } else {
                self.attack_upgrade_cost()
            },
    {
        if self.combat_level > u32::MAX / 5 {
            u32::MAX
        } else {
            self.combat_level * 5
        }
    }

    /// The resource price of the next production upgrade, saturating at
    /// the top of the `u32` range.
    pub fn get_resource_amount_to_upgrade_produce(&self) -> (r: u32)
        ensures
            r == if self.produce_upgrade_cost() > u32::MAX {
                u32::MAX as int
            } else {
                self.produce_upgrade_cost()
            },
    {
        if self.generation_level > u32::MAX / 5 {
            u32::MAX
        } else {
            self.generation_level * 5
        }
    }

    /// Raise the combat level by one for five resources per current level.
    /// Fails, leaving the city unchanged, exactly when the resources fall
    /// short of that price.
    pub fn upgrade_attack(&mut self) -> (r: Result<(), GameError>)
        ensures
            old(self).resources < old(self).attack_upgrade_cost() ==> r == Err::<(),
                GameError,
            >(GameError::NotEnoughResources) && *final(self) == *old(self),
            old(self).resources >= old(self).attack_upgrade_cost() ==> r == Ok::<(), GameError>(())
                && *final(self) == old(self).after_upgrade_attack(),
    {
        if (self.resources as u64) < (self.combat_level as u64) * 5 {
            return Err(GameError::NotEnoughResources);
        }
        let threshold: u32 = self.combat_level * 5;
        self.combat_level = self.combat_level + 1;
        self.resources = self.resources - threshold;
        Ok(())
    }

    /// Raise the production level by one for five resources per current
    /// level. Fails, leaving the city unchanged, exactly when the
    /// resources fall short of that price.
    pub fn upgrade_production(&mut self) -> (r: Result<(), GameError>)
        ensures
            old(self).resources < old(self).produce_upgrade_cost() ==> r == Err::<(),
                GameError,
            >(GameError::NotEnoughResources) && *final(self) == *old(self),
            old(self).resources >= old(self).produce_upgrade_cost() ==> r == Ok::<(), GameError>(
                (),
            ) && *final(self) == old(self).after_upgrade_production(),
    {
        if (self.resources as u64) < (self.generation_level as u64) * 5 {
            return Err(GameError::NotEnoughResources);
        }
        let threshold: u32 = self.generation_level * 5;
        self.generation_level = self.generation_level + 1;
        self.resources = self.resources - threshold;
        Ok(())
    }
}

/// Production is deterministic in the production level: two cities on the
/// same level gain the same amount from one production step.
pub proof fn lemma_produce_deterministic(a: City, b: City)
    requires
        a.generation_level == b.generation_level,
    ensures
        a.produce_gain() == b.produce_gain(),
{
}

/// Production never decreases a city's resources.
pub proof fn lemma_produce_monotonic(c: City)
    ensures
        c.after_produce().resources >= c.resources,
{
}

/// Power is a pure function of the level and resource triple: two cities
/// that agree on combat level, production level and resources have the
/// same power, whoever owns them.
pub proof fn lemma_power_pure(a: City, b: City)
    requires
        a.combat_level == b.combat_level,
        a.generation_level == b.generation_level,
        a.resources == b.resources,
    ensures
        a.spec_power() == b.spec_power(),
{
}

} // verus!
