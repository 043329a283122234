//! The encounter at sea: the sighting, the chase, the boarding fight and the
//! loot.

use vstd::prelude::*;
use crate::chance::{Maneuver, Melee, Sighting, Volley, Weapon};
use crate::command::{Outcome, Reason};
use crate::cases::{
    lemma_battle_keeps_wf, lemma_chase_keeps_wf, lemma_start_encounter_keeps_wf,
    lemma_take_enemy_cargo_keeps_wf,
};
use crate::model::{
    CargoKind, EnemyDistance, EnemyMovement, GameLostReason, Screen, MINIMUM_SHIP_CREW,
    MINIMUM_SHIP_HULL,
};
use crate::rules;
use crate::rules::Step;
use crate::ship::Ship;
use crate::state::{Enemy, Model, ModelView};

verus! {

impl Maneuver {
    /// Where the enemy is after the maneuver at `tier`, if both ships are
    /// still afloat.
    pub fn next_tier(self, tier: EnemyDistance) -> (r: EnemyDistance)
        ensures
            r == rules::next_tier(self, tier),
    {
        match self {
            Maneuver::Close => match tier {
                EnemyDistance::Escape => EnemyDistance::Far,
                EnemyDistance::Far => EnemyDistance::Close,
                EnemyDistance::Close => EnemyDistance::Board,
                EnemyDistance::Board => EnemyDistance::Board,
            },
            Maneuver::Distant => match tier {
                EnemyDistance::Escape => EnemyDistance::Escape,
                EnemyDistance::Far => EnemyDistance::Escape,
                EnemyDistance::Close => EnemyDistance::Far,
                EnemyDistance::Board => EnemyDistance::Board,
            },
            Maneuver::Broadside => tier,
        }
    }

    /// Whether the maneuver at `tier` makes the ships fire at each other.
    pub fn exchanges_fire(self, tier: EnemyDistance) -> (r: bool)
        ensures
            r == rules::exchanges_fire(self, tier),
    {
        match tier {
            EnemyDistance::Board => false,
            EnemyDistance::Escape => match self {
                Maneuver::Distant => false,
                _ => true,
            },
            _ => true,
        }
    }
}

impl Enemy {
    /// The enemy that `sighting` describes.
    pub fn sighted(sighting: &Sighting) -> (r: Enemy)
        ensures
            r@ == rules::sighted_enemy(*sighting),
    {
        let mut ship = Ship::of_class(sighting.class);
        ship.name = sighting.name.clone();
        ship.cargos.set_unit(CargoKind::Food, sighting.food);
        ship.cargos.set_unit(CargoKind::Wood, sighting.wood);
        ship.cargos.set_unit(CargoKind::Sugar, sighting.sugar);
        Enemy {
            ship,
            nationality: sighting.nationality,
            movement: EnemyMovement::Idle,
            distance: EnemyDistance::Far,
        }
    }
}

impl ModelView {
    /// Whether the enemy can no longer fight, so that the captain may loot.
    pub open spec fn loot_offered(self) -> bool {
        self.enemy matches Some(e) && e.ship.crew < MINIMUM_SHIP_CREW
    }

    /// Whether there is an enemy with something in the hold, and room in the
    /// captain's hold to take it.
    pub open spec fn can_loot(self) -> bool {
        self.enemy matches Some(e) && e.ship.cargos.total_unit() > 0
            && self.player.has_cargo_space()
    }

    /// Whether the captain can loot and the enemy has a unit of `kind`.
    pub open spec fn can_take(self, kind: CargoKind) -> bool {
        self.can_loot() && self.enemy->0.ship.cargos.entry(kind).unit > 0
    }
}

impl Model {
    /// Whether the enemy can no longer fight, so that the captain may loot.
    pub fn loot_offered(&self) -> (r: bool)
        ensures
            r == self@.loot_offered(),
    {
        match &self.enemy {
            Some(e) => e.ship.crew < MINIMUM_SHIP_CREW as i32,
            None => false,
        }
    }

    /// Whether taking cargo from the enemy would take effect.
    pub fn can_loot(&self) -> (r: bool)
        ensures
            r == self@.can_loot(),
            r == (rules::take_enemy_cargo(self@, CargoKind::Food).outcome == Outcome::Applied),
    {
        proof {
            reveal(rules::take_enemy_cargo);
        }
        match &self.enemy {
            Some(e) => e.ship.cargos.total_unit_wide() > 0 && self.player.has_cargo_space(),
            None => false,
        }
    }

    /// Whether taking cargo of `kind` from the enemy would take effect and
    /// leave the enemy's entry out of debt.
    pub fn can_take(&self, kind: CargoKind) -> (r: bool)
        ensures
            r == self@.can_take(kind),
    {
        match &self.enemy {
            Some(e) => self.can_loot() && e.ship.cargos.entry(kind).unit > 0,
            None => false,
        }
    }

    /// Ends the encounter, if there is one, and goes back to the chart.
    pub fn sail_on(&mut self)
        ensures
            final(self)@ == rules::sail_on(old(self)@),
    {
        self.enemy = None;
        self.current_screen = Screen::MainNavigation;
    }

    /// Brings an enemy into sight, as `rules::start_encounter` says.
    pub fn start_encounter(&mut self, sighting: &Sighting) -> (r: Outcome)
        requires
            old(self)@.wf(),
            sighting.in_range(),
        ensures
            rules::start_encounter(old(self)@, *sighting) == (Step {
                state: final(self)@,
                outcome: r,
            }),
            final(self)@.wf(),
    {
        proof {
            reveal(rules::start_encounter);
            lemma_start_encounter_keeps_wf(self@, *sighting);
        }
        self.enemy = Some(Enemy::sighted(sighting));
        self.current_screen = Screen::Skirmish;
        Outcome::Applied
    }

    /// Gives one command of the chase, as `rules::chase` says. The volley
    /// counts only where the ships fire.
    pub fn chase(&mut self, maneuver: Maneuver, volley: &Volley) -> (r: Outcome)
        requires
            old(self)@.wf(),
            rules::fires(old(self)@, maneuver) ==> volley.in_range(
                maneuver,
                old(self)@.enemy->0.distance,
                old(self)@.player.ship.cannons,
                old(self)@.enemy->0.ship.cannons,
            ),
        ensures
            rules::chase(old(self)@, maneuver, *volley) == (Step {
                state: final(self)@,
                outcome: r,
            }),
            final(self)@.wf(),
    {
        proof {
            reveal(rules::chase);
            lemma_chase_keeps_wf(self@, maneuver, *volley);
        }
        if self.current_screen != Screen::SkirmishChase {
            return Outcome::Rejected(Reason::WrongPhase);
        }
        let (tier, hull) = match &self.enemy {
            None => {
                return Outcome::Rejected(Reason::NoEnemy);
            },
            Some(e) => (e.distance, e.ship.hull),
        };
        if tier == EnemyDistance::Board {
            if maneuver == Maneuver::Broadside {
                return Outcome::Rejected(Reason::AlreadyBoarded);
            }
            self.current_screen = Screen::SkirmishBattle;
            return Outcome::Applied;
        }
        if !maneuver.exchanges_fire(tier) {
            self.sail_on();
            return Outcome::Applied;
        }
        let player_hull: i16 = self.player.ship.hull - volley.player_loss;
        let enemy_hull: i16 = hull - volley.enemy_loss;
        if player_hull < MINIMUM_SHIP_HULL as i16 {
            self.lose(GameLostReason::ShipSunk);
        } else if enemy_hull < MINIMUM_SHIP_HULL as i16 {
            self.player.ship.hull = player_hull;
            self.sail_on();
        } else {
            self.player.ship.hull = player_hull;
            match &mut self.enemy {
                Some(e) => {
                    e.ship.hull = enemy_hull;
                    e.distance = maneuver.next_tier(tier);
                },
                None => {},
            }
        }
        Outcome::Applied
    }

    /// Fights one round side by side, as `rules::battle` says. The melee
    /// counts only where the crews fight.
    pub fn battle(&mut self, weapon: Weapon, melee: &Melee) -> (r: Outcome)
        requires
            old(self)@.wf(),
            rules::fights(old(self)@) ==> melee.in_range(weapon),
        ensures
            rules::battle(old(self)@, weapon, *melee) == (Step {
                state: final(self)@,
                outcome: r,
            }),
            final(self)@.wf(),
    {
        proof {
            reveal(rules::battle);
            lemma_battle_keeps_wf(self@, weapon, *melee);
        }
        if self.current_screen != Screen::SkirmishBattle {
            return Outcome::Rejected(Reason::WrongPhase);
        }
        let crew = match &self.enemy {
            None => {
                return Outcome::Rejected(Reason::NoEnemy);
            },
            Some(e) => e.ship.crew,
        };
        let player_crew: i32 = self.player.ship.crew - melee.player_loss;
        let enemy_crew: i64 = crew as i64 - melee.enemy_loss as i64;
        if player_crew < MINIMUM_SHIP_CREW as i32 {
            self.lose(GameLostReason::AllCrewDied);
            return Outcome::Applied;
        }
        if enemy_crew < i32::MIN as i64 {
            return Outcome::Rejected(Reason::LimitReached);
        }
        self.player.ship.crew = player_crew;
        match &mut self.enemy {
            Some(e) => {
                e.ship.crew = enemy_crew as i32;
            },
            None => {},
        }
        Outcome::Applied
    }

    /// Takes one unit from the enemy, as `rules::take_enemy_cargo` says.
    pub fn take_enemy_cargo(&mut self, kind: CargoKind) -> (r: Outcome)
        requires
            old(self)@.wf(),
        ensures
            rules::take_enemy_cargo(old(self)@, kind) == (Step {
                state: final(self)@,
                outcome: r,
            }),
            final(self)@.wf(),
    {
        proof {
            reveal(rules::take_enemy_cargo);
            lemma_take_enemy_cargo_keeps_wf(self@, kind);
        }
        let loot = match &self.enemy {
            None => {
                return Outcome::Rejected(Reason::NoEnemy);
            },
            Some(e) => e.ship.cargos.total_unit_wide(),
        };
        if loot <= 0 {
            return Outcome::Rejected(Reason::InsufficientStock);
        }
        if !self.player.has_cargo_space() {
            return Outcome::Rejected(Reason::InsufficientCargoSpace);
        }
        self.player.ship.cargos.shift(kind, 1);
        match &mut self.enemy {
            Some(e) => {
                e.ship.cargos.shift(kind, -1);
            },
            None => {},
        }
        Outcome::Applied
    }
}

} // verus!
