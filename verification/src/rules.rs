//! The rules of the game, as functions from a state, a command and what
//! chance decided to the next state and the outcome.
//!
//! Each rule is opaque, so that a proof carries only the rules it speaks
//! of: one that needs what a rule says reveals it.

use vstd::prelude::*;
use crate::cargo::Cargo;
use crate::chance::{Chance, Maneuver, Melee, Sighting, Volley, Voyage, Weapon};
use crate::command::{Msg, Outcome, Reason};
use crate::model::{
    CargoKind, EnemyDistance, EnemyMovement, GameLostReason, PortLocation, Screen, ShipClass,
    count_floor, count_limit, MINIMUM_PLAYER_FOOD, MINIMUM_SHIP_CREW, MINIMUM_SHIP_HULL,
};
use crate::port::PortsView;
use crate::ship::ShipView;
use crate::state::{EnemyView, ModelView, PlayerView};

verus! {

/// A state and what became of the command that led to it.
pub struct Step {
    pub state: ModelView,
    pub outcome: Outcome,
}

/// The command took effect and led to `state`.
pub open spec fn applied(state: ModelView) -> Step {
    Step { state, outcome: Outcome::Applied }
}

/// The command changed nothing.
pub open spec fn rejected(state: ModelView, reason: Reason) -> Step {
    Step { state, outcome: Outcome::Rejected(reason) }
}

impl PlayerView {
    /// The captain with another balance.
    pub open spec fn with_coins(self, coins: int) -> PlayerView {
        PlayerView { coins, ..self }
    }

    /// The captain after `delta` units of `kind` came into the hold (or, if
    /// negative, went out).
    pub open spec fn loaded(self, kind: CargoKind, delta: int) -> PlayerView {
        PlayerView {
            ship: ShipView { cargos: self.ship.cargos.moved(kind, delta), ..self.ship },
            ..self
        }
    }

    /// Whether the hold has room for one more unit.
    pub open spec fn has_cargo_space(self) -> bool {
        self.ship.cargos.total_unit() < self.ship.cargos_capacity
    }
}

/// What the captain's hold fetches at the prices of `ports` at `location`.
pub open spec fn sale_value(player: PlayerView, ports: PortsView, location: PortLocation) -> int {
    let held = player.ship.cargos;
    let asked = ports.at(location).cargos;
    held.food.unit * asked.food.price + held.wood.unit * asked.wood.price + held.sugar.unit
        * asked.sugar.price
}

/// Sailing to `to`. Nothing happens if the ship is there already, or if the
/// calendar cannot hold the day of arrival. Otherwise the date moves on, the
/// ship is at `to`, every port has new wood and sugar, and the crew has
/// eaten; if that leaves less food than the crew puts up with, the game is
/// lost to a mutiny.
#[verifier::opaque]
pub open spec fn travel(s: ModelView, to: PortLocation, v: Voyage) -> Step {
    if to == s.current_port_location {
        rejected(s, Reason::AlreadyThere)
    } else {
        match v.arrival {
            None => rejected(s, Reason::LimitReached),
            Some(date) => {
                if s.player.ship.cargos.food.unit - v.food_eaten < MINIMUM_PLAYER_FOOD {
                    applied(ModelView::lost(GameLostReason::FoodMutiny))
                } else {
                    applied(
                        ModelView {
                            date,
                            current_port_location: to,
                            ports: PortsView {
                                barbados: s.ports.barbados.restocked(v.barbados),
                                port_royal: s.ports.port_royal.restocked(v.port_royal),
                                nassau: s.ports.nassau.restocked(v.nassau),
                            },
                            player: s.player.loaded(CargoKind::Food, -v.food_eaten),
                            ..s
                        },
                    )
                }
            },
        }
    }
}

/// Buying one unit of `cargo.kind` at `location` for `cargo.price`. The
/// captain must have more coins than the price, room in the hold, and the
/// port a unit to sell.
#[verifier::opaque]
pub open spec fn buy_cargo(s: ModelView, location: PortLocation, cargo: Cargo) -> Step {
    if s.player.coins <= cargo.price {
        rejected(s, Reason::InsufficientFunds)
    } else if !s.player.has_cargo_space() {
        rejected(s, Reason::InsufficientCargoSpace)
    } else if s.ports.at(location).cargos.entry(cargo.kind).unit < 1 {
        rejected(s, Reason::InsufficientStock)
    } else if s.player.coins - cargo.price > count_limit() {
        rejected(s, Reason::LimitReached)
    } else {
        applied(
            ModelView {
                player: s.player.with_coins(s.player.coins - cargo.price).loaded(cargo.kind, 1),
                ports: s.ports.moved(location, cargo.kind, -1),
                ..s
            },
        )
    }
}

/// Selling one unit of `cargo.kind` at `location` for `cargo.price`. The
/// captain must have a unit to sell, and the sale must not leave a debt.
#[verifier::opaque]
pub open spec fn sell_cargo(s: ModelView, location: PortLocation, cargo: Cargo) -> Step {
    if s.player.ship.cargos.entry(cargo.kind).unit < 1 {
        rejected(s, Reason::InsufficientStock)
    } else if s.player.coins + cargo.price < 0 {
        rejected(s, Reason::InsufficientFunds)
    } else if s.player.coins + cargo.price > count_limit() || s.ports.at(
        location,
    ).cargos.entry(cargo.kind).unit + 1 > count_limit() {
        rejected(s, Reason::LimitReached)
    } else {
        applied(
            ModelView {
                player: s.player.with_coins(s.player.coins + cargo.price).loaded(cargo.kind, -1),
                ports: s.ports.moved(location, cargo.kind, 1),
                ..s
            },
        )
    }
}

/// Trading the ship in for a new one of `class`. The captain must have the
/// price at hand and must have confirmed. The hold is sold at the prices of
/// the port the ship lies in; the new ship keeps the old one's name.
#[verifier::opaque]
pub open spec fn replace_ship(s: ModelView, class: ShipClass, confirmed: bool) -> Step {
    let balance = s.player.coins + sale_value(s.player, s.ports, s.current_port_location)
        - class.price();
    if s.player.coins < class.price() {
        rejected(s, Reason::InsufficientFunds)
    } else if !confirmed {
        rejected(s, Reason::Declined)
    } else if balance > count_limit() {
        rejected(s, Reason::LimitReached)
    } else {
        applied(
            ModelView {
                player: PlayerView {
                    coins: balance,
                    ship: class.template().named(s.player.ship.name),
                    ..s.player
                },
                ..s
            },
        )
    }
}

/// Repairing the hull in full. Both the funds offered and the coins at hand
/// must cover the cost.
#[verifier::opaque]
pub open spec fn repair_ship(s: ModelView, funds: int) -> Step {
    let cost = s.player.ship.cost_to_repair();
    if funds < cost || s.player.coins < cost {
        rejected(s, Reason::InsufficientFunds)
    } else {
        applied(
            ModelView {
                player: PlayerView {
                    coins: s.player.coins - cost,
                    ship: ShipView { hull: s.player.ship.hull_capacity, ..s.player.ship },
                    ..s.player
                },
                ..s
            },
        )
    }
}

/// Hiring hands until the crew is complete. Both the funds offered and the
/// coins at hand must cover the cost.
#[verifier::opaque]
pub open spec fn hire_crew(s: ModelView, funds: int) -> Step {
    let cost = s.player.ship.cost_to_hire();
    if funds < cost || s.player.coins < cost {
        rejected(s, Reason::InsufficientFunds)
    } else {
        applied(
            ModelView {
                player: PlayerView {
                    coins: s.player.coins - cost,
                    ship: ShipView { crew: s.player.ship.crew_capacity, ..s.player.ship },
                    ..s.player
                },
                ..s
            },
        )
    }
}

/// The enemy that `sighting` describes: a fresh ship of its class under its
/// name, far off, with the sighted cargo in the hold.
pub open spec fn sighted_enemy(sighting: Sighting) -> EnemyView {
    let ship = sighting.class.template().named(sighting.name@);
    EnemyView {
        ship: ShipView {
            cargos: ship.cargos.with_unit(CargoKind::Food, sighting.food as int).with_unit(
                CargoKind::Wood,
                sighting.wood as int,
            ).with_unit(CargoKind::Sugar, sighting.sugar as int),
            ..ship
        },
        nationality: sighting.nationality,
        movement: EnemyMovement::Idle,
        distance: EnemyDistance::Far,
    }
}

/// An enemy comes into sight, and the skirmish begins.
#[verifier::opaque]
pub open spec fn start_encounter(s: ModelView, sighting: Sighting) -> Step {
    applied(
        ModelView { enemy: Some(sighted_enemy(sighting)), current_screen: Screen::Skirmish, ..s },
    )
}

/// The encounter is over and the ship sails on.
pub open spec fn sail_on(s: ModelView) -> ModelView {
    ModelView { enemy: None, current_screen: Screen::MainNavigation, ..s }
}

/// Whether `maneuver` at `tier` makes the ships fire at each other.
pub open spec fn exchanges_fire(maneuver: Maneuver, tier: EnemyDistance) -> bool {
    tier != EnemyDistance::Board && !(tier == EnemyDistance::Escape && maneuver
        == Maneuver::Distant)
}

/// Whether a chase command with `maneuver` makes the ships fire in `s`.
pub open spec fn fires(s: ModelView, maneuver: Maneuver) -> bool {
    s.current_screen == Screen::SkirmishChase && s.enemy is Some && exchanges_fire(
        maneuver,
        s.enemy->0.distance,
    )
}

/// Whether a command of the boarding fight makes the crews fight in `s`.
pub open spec fn fights(s: ModelView) -> bool {
    s.current_screen == Screen::SkirmishBattle && s.enemy is Some
}

/// Where the enemy is after `maneuver` at `tier`, if both ships are still
/// afloat.
pub open spec fn next_tier(maneuver: Maneuver, tier: EnemyDistance) -> EnemyDistance {
    match maneuver {
        Maneuver::Close => match tier {
            EnemyDistance::Escape => EnemyDistance::Far,
            EnemyDistance::Far => EnemyDistance::Close,
            EnemyDistance::Close => EnemyDistance::Board,
            EnemyDistance::Board => EnemyDistance::Board,
        },
        Maneuver::Distant => match tier {
            EnemyDistance::Escape => EnemyDistance::Escape,
            EnemyDistance::Far => EnemyDistance::Escape,
            EnemyDistance::Close => EnemyDistance::Far,
            EnemyDistance::Board => EnemyDistance::Board,
        },
        Maneuver::Broadside => tier,
    }
}

/// One command of the chase. It counts only in the chase, with an enemy in
/// sight. Side by side, closing in or drawing off starts the boarding fight,
/// and a broadside does nothing. Drawing off from an enemy that is about to
/// escape lets it go. Anything else is an exchange of fire: both hulls
/// suffer; if the captain's ship sinks the game is lost, if the enemy sinks
/// the ship sails on, and otherwise the distance changes as the maneuver
/// says.
#[verifier::opaque]
pub open spec fn chase(s: ModelView, maneuver: Maneuver, volley: Volley) -> Step {
    if s.current_screen != Screen::SkirmishChase {
        rejected(s, Reason::WrongPhase)
    } else {
        match s.enemy {
            None => rejected(s, Reason::NoEnemy),
            Some(e) => {
                if e.distance == EnemyDistance::Board {
                    if maneuver == Maneuver::Broadside {
                        rejected(s, Reason::AlreadyBoarded)
                    } else {
                        applied(ModelView { current_screen: Screen::SkirmishBattle, ..s })
                    }
                } else if !exchanges_fire(maneuver, e.distance) {
                    applied(sail_on(s))
                } else {
                    let player = PlayerView {
                        ship: ShipView {
                            hull: s.player.ship.hull - volley.player_loss,
                            ..s.player.ship
                        },
                        ..s.player
                    };
                    let enemy = EnemyView {
                        ship: ShipView { hull: e.ship.hull - volley.enemy_loss, ..e.ship },
                        distance: next_tier(maneuver, e.distance),
                        ..e
                    };
                    if player.ship.hull < MINIMUM_SHIP_HULL {
                        applied(ModelView::lost(GameLostReason::ShipSunk))
                    } else if enemy.ship.hull < MINIMUM_SHIP_HULL {
                        applied(sail_on(ModelView { player, ..s }))
                    } else {
                        applied(ModelView { player, enemy: Some(enemy), ..s })
                    }
                }
            },
        }
    }
}

/// One round of the boarding fight. It counts only in the fight, with an
/// enemy in sight. Both crews lose hands; if the captain's crew can no longer
/// fight, the game is lost.
#[verifier::opaque]
pub open spec fn battle(s: ModelView, weapon: Weapon, melee: Melee) -> Step {
    if s.current_screen != Screen::SkirmishBattle {
        rejected(s, Reason::WrongPhase)
    } else {
        match s.enemy {
            None => rejected(s, Reason::NoEnemy),
            Some(e) => {
                if s.player.ship.crew - melee.player_loss < MINIMUM_SHIP_CREW {
                    applied(ModelView::lost(GameLostReason::AllCrewDied))
                } else if e.ship.crew - melee.enemy_loss < count_floor() {
                    rejected(s, Reason::LimitReached)
                } else {
                    applied(
                        ModelView {
                            player: PlayerView {
                                ship: ShipView {
                                    crew: s.player.ship.crew - melee.player_loss,
                                    ..s.player.ship
                                },
                                ..s.player
                            },
                            enemy: Some(
                                EnemyView {
                                    ship: ShipView {
                                        crew: e.ship.crew - melee.enemy_loss,
                                        ..e.ship
                                    },
                                    ..e
                                },
                            ),
                            ..s
                        },
                    )
                }
            },
        }
    }
}

/// Taking one unit of `kind` from the enemy. The enemy's hold must not be
/// empty and the captain's must have room. Whether the enemy has any of
/// `kind` itself is not asked.
#[verifier::opaque]
pub open spec fn take_enemy_cargo(s: ModelView, kind: CargoKind) -> Step {
    match s.enemy {
        None => rejected(s, Reason::NoEnemy),
        Some(e) => {
            if e.ship.cargos.total_unit() <= 0 {
                rejected(s, Reason::InsufficientStock)
            } else if !s.player.has_cargo_space() {
                rejected(s, Reason::InsufficientCargoSpace)
            } else {
                applied(
                    ModelView {
                        player: s.player.loaded(kind, 1),
                        enemy: Some(
                            EnemyView {
                                ship: ShipView { cargos: e.ship.cargos.moved(kind, -1), ..e.ship },
                                ..e
                            },
                        ),
                        ..s
                    },
                )
            }
        },
    }
}

/// Changing the phase. Going back to the chart ends any encounter; going to
/// the skirmish starts one.
#[verifier::opaque]
pub open spec fn switch_screen(s: ModelView, screen: Screen, sighting: Sighting) -> Step {
    match screen {
        Screen::MainNavigation => applied(sail_on(s)),
        Screen::Skirmish => start_encounter(s, sighting),
        _ => applied(ModelView { current_screen: screen, ..s }),
    }
}

/// Starting again, if the player confirmed.
#[verifier::opaque]
pub open spec fn reset(s: ModelView, confirmed: bool) -> Step {
    if confirmed {
        applied(ModelView::opening())
    } else {
        rejected(s, Reason::Declined)
    }
}

/// The maneuver that a chase command stands for.
pub open spec fn maneuver_of(msg: Msg) -> Option<Maneuver> {
    match msg {
        Msg::SkirmishChaseClose => Some(Maneuver::Close),
        Msg::SkirmishChaseDistant => Some(Maneuver::Distant),
        Msg::SkirmishChaseBroadside => Some(Maneuver::Broadside),
        _ => None,
    }
}

/// The weapon that a command of the boarding fight stands for.
pub open spec fn weapon_of(msg: Msg) -> Option<Weapon> {
    match msg {
        Msg::SkirmishBattleSwingSword => Some(Weapon::Sword),
        Msg::SkirmishBattleShootFalconet => Some(Weapon::Falconet),
        _ => None,
    }
}

/// Whether `chance` holds what `msg` leaves to chance in `s`, drawn from the
/// range that the rules give it. Where `msg` leaves nothing to chance in `s`,
/// any `chance` will do.
pub open spec fn suits(chance: Chance, msg: Msg, s: ModelView) -> bool {
    match msg {
        Msg::SwitchPlayerLocation(to) => to != s.current_port_location ==> chance is Voyage
            && chance->Voyage_0.in_range(),
        Msg::SwitchScreen(Screen::Skirmish) => chance is Sighting && chance->Sighting_0.in_range(),
        Msg::SkirmishChaseClose | Msg::SkirmishChaseDistant | Msg::SkirmishChaseBroadside => {
            let maneuver = maneuver_of(msg)->0;
            fires(s, maneuver) ==> chance is Volley && chance->Volley_0.in_range(
                maneuver,
                s.enemy->0.distance,
                s.player.ship.cannons,
                s.enemy->0.ship.cannons,
            )
        },
        Msg::SkirmishBattleSwingSword | Msg::SkirmishBattleShootFalconet => {
            fights(s) ==> chance is Melee && chance->Melee_0.in_range(weapon_of(msg)->0)
        },
        _ => true,
    }
}

/// Whether `msg` is a command of the economy: a voyage, a trade, or a visit
/// to the yard or the tavern.
pub open spec fn is_economy(msg: Msg) -> bool {
    msg is SwitchPlayerLocation || msg is BuyCargo || msg is SellCargo || msg is RepairShip
        || msg is HireCrew || msg is BuyAndReplaceShip
}

/// Whether `msg` is a command of the encounter: of the chase, of the
/// boarding fight, or of the looting.
pub open spec fn is_encounter(msg: Msg) -> bool {
    maneuver_of(msg) is Some || weapon_of(msg) is Some || msg is TakeEnemyCargo
}

/// What a command of the economy makes of `s`. Any other command changes
/// nothing here.
#[verifier::opaque]
pub open spec fn economy(s: ModelView, msg: Msg, chance: Chance, confirmed: bool) -> Step {
    match msg {
        Msg::SwitchPlayerLocation(to) => travel(s, to, chance->Voyage_0),
        Msg::BuyCargo(location, cargo) => buy_cargo(s, location, cargo),
        Msg::SellCargo(location, cargo) => sell_cargo(s, location, cargo),
        Msg::RepairShip(funds) => repair_ship(s, funds as int),
        Msg::HireCrew(funds) => hire_crew(s, funds as int),
        Msg::BuyAndReplaceShip(class) => replace_ship(s, class, confirmed),
        _ => rejected(s, Reason::WrongPhase),
    }
}

/// What a command of the encounter makes of `s`. Any other command changes
/// nothing here.
#[verifier::opaque]
pub open spec fn encounter(s: ModelView, msg: Msg, chance: Chance) -> Step {
    match msg {
        Msg::SkirmishChaseClose => chase(s, Maneuver::Close, chance->Volley_0),
        Msg::SkirmishChaseDistant => chase(s, Maneuver::Distant, chance->Volley_0),
        Msg::SkirmishChaseBroadside => chase(s, Maneuver::Broadside, chance->Volley_0),
        Msg::SkirmishBattleSwingSword => battle(s, Weapon::Sword, chance->Melee_0),
        Msg::SkirmishBattleShootFalconet => battle(s, Weapon::Falconet, chance->Melee_0),
        Msg::TakeEnemyCargo(kind) => take_enemy_cargo(s, kind),
        _ => rejected(s, Reason::WrongPhase),
    }
}

/// The reducer: what `msg` makes of `s`, given what chance decided and
/// whether the player confirmed. A reset and a change of phase are its own;
/// every other command it hands to the economy or to the encounter.
pub open spec fn step(s: ModelView, msg: Msg, chance: Chance, confirmed: bool) -> Step {
    match msg {
        Msg::ResetModel => reset(s, confirmed),
        Msg::SwitchScreen(screen) => switch_screen(s, screen, chance->Sighting_0),
        _ => if is_economy(msg) {
            economy(s, msg, chance, confirmed)
        } else {
            encounter(s, msg, chance)
        },
    }
}

} // verus!
