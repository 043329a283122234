//! What chance decides in a command, as plain values.
//!
//! The rules take these as arguments, so that they say what happens for
//! every draw and a caller can fix the draws.

use vstd::prelude::*;
use crate::model::{
    EnemyDistance, GameDate, Nationality, ShipClass, ENEMY_FOOD_LIMIT, ENEMY_SUGAR_LIMIT,
    ENEMY_WOOD_LIMIT,
};
use crate::port::Restock;

verus! {

/// The fewest days a voyage takes.
pub const SHORTEST_VOYAGE: i64 = 1;

/// The most days a voyage takes.
pub const LONGEST_VOYAGE: i64 = 9;

/// What a voyage brings: the day of arrival (none, if the calendar cannot
/// hold it), the new stock of each port, and the food eaten on the way.
#[derive(Clone, Copy, Debug, PartialEq, Eq, Structural)]
pub struct Voyage {
    pub arrival: Option<GameDate>,
    pub barbados: Restock,
    pub port_royal: Restock,
    pub nassau: Restock,
    pub food_eaten: i32,
}

impl Voyage {
    /// Every port's new stock is in range, and at most one unit of food was
    /// eaten.
    pub open spec fn in_range(self) -> bool {
        &&& self.barbados.in_range()
        &&& self.port_royal.in_range()
        &&& self.nassau.in_range()
        &&& 0 <= self.food_eaten <= 1
    }
}

/// The names an enemy ship may bear.
pub open spec fn enemy_names() -> Seq<Seq<char>> {
    seq!["Shady Wave"@, "Palm West"@, "Southern Seas"@, "Morning Star"@, "Blue Ocean"@]
}

/// The enemy that comes into sight: its class, flag and name, and what it
/// carries.
#[derive(Debug, PartialEq, Eq)]
pub struct Sighting {
    pub class: ShipClass,
    pub nationality: Nationality,
    pub name: String,
    pub food: i32,
    pub wood: i32,
    pub sugar: i32,
}

impl Clone for Sighting {
    fn clone(&self) -> (r: Self)
        ensures
            r == *self,
    {
        Sighting {
            class: self.class,
            nationality: self.nationality,
            name: self.name.clone(),
            food: self.food,
            wood: self.wood,
            sugar: self.sugar,
        }
    }
}

impl Sighting {
    /// The name is one an enemy may bear, and the hold has at least one unit
    /// of each commodity and no more than the limit for it.
    pub open spec fn in_range(self) -> bool {
        &&& enemy_names().contains(self.name@)
        &&& 1 <= self.food <= ENEMY_FOOD_LIMIT
        &&& 1 <= self.wood <= ENEMY_WOOD_LIMIT
        &&& 1 <= self.sugar <= ENEMY_SUGAR_LIMIT
    }
}

/// What a captain does in a chase.
#[derive(Clone, Copy, Debug, PartialEq, Eq, Structural)]
pub enum Maneuver {
    Close,
    Distant,
    Broadside,
}

/// The hull each side loses in one exchange of fire.
#[derive(Clone, Copy, Debug, PartialEq, Eq, Structural)]
pub struct Volley {
    pub player_loss: i16,
    pub enemy_loss: i16,
}

/// The least hull a ship loses in an exchange of fire at `tier`: at close
/// range no shot misses.
pub open spec fn least_damage(tier: EnemyDistance) -> int {
    if tier == EnemyDistance::Close {
        1
    } else {
        0
    }
}

/// The most hull a ship loses in an exchange of fire at `tier`, under the
/// guns of an opponent with `cannons` cannons.
pub open spec fn most_damage(maneuver: Maneuver, tier: EnemyDistance, cannons: int) -> int {
    if tier == EnemyDistance::Close {
        cannons - 2
    } else if maneuver == Maneuver::Broadside && tier == EnemyDistance::Escape {
        cannons - 4
    } else {
        cannons - 3
    }
}

impl Volley {
    /// Each side's loss lies between the least and the most that the other
    /// side's cannons can do.
    pub open spec fn in_range(
        self,
        maneuver: Maneuver,
        tier: EnemyDistance,
        player_cannons: int,
        enemy_cannons: int,
    ) -> bool {
        &&& least_damage(tier) <= self.player_loss <= most_damage(maneuver, tier, enemy_cannons)
        &&& least_damage(tier) <= self.enemy_loss <= most_damage(maneuver, tier, player_cannons)
    }
}

/// What a crew fights with once the ships are side by side.
#[derive(Clone, Copy, Debug, PartialEq, Eq, Structural)]
pub enum Weapon {
    Sword,
    Falconet,
}

/// The hands each side loses in one round of a boarding fight.
#[derive(Clone, Copy, Debug, PartialEq, Eq, Structural)]
pub struct Melee {
    pub player_loss: i32,
    pub enemy_loss: i32,
}

impl Weapon {
    /// The most hands the captain's crew loses in a round.
    pub open spec fn most_player_loss(self) -> int {
        match self {
            Weapon::Sword => 2,
            Weapon::Falconet => 4,
        }
    }

    /// The most hands the enemy's crew loses in a round.
    pub open spec fn most_enemy_loss(self) -> int {
        match self {
            Weapon::Sword => 2,
            Weapon::Falconet => 5,
        }
    }
}

impl Melee {
    /// Each side loses at least one hand and no more than the weapon allows.
    pub open spec fn in_range(self, weapon: Weapon) -> bool {
        &&& 1 <= self.player_loss <= weapon.most_player_loss()
        &&& 1 <= self.enemy_loss <= weapon.most_enemy_loss()
    }
}

/// What chance decides in one command.
#[derive(Debug, PartialEq, Eq)]
pub enum Chance {
    /// The command leaves nothing to chance.
    Nothing,
    Voyage(Voyage),
    Sighting(Sighting),
    Volley(Volley),
    Melee(Melee),
}

impl Clone for Chance {
    fn clone(&self) -> (r: Self)
        ensures
            r == *self,
    {
        match self {
            Chance::Nothing => Chance::Nothing,
            Chance::Voyage(v) => Chance::Voyage(*v),
            Chance::Sighting(s) => Chance::Sighting(s.clone()),
            Chance::Volley(v) => Chance::Volley(*v),
            Chance::Melee(m) => Chance::Melee(*m),
        }
    }
}

} // verus!
