//! The laws of the game, rule by rule. `laws` puts them together.

use vstd::prelude::*;
use crate::cargo::Cargo;
use crate::chance::{Maneuver, Melee, Sighting, Volley, Voyage, Weapon};
use crate::command::Outcome;
use crate::model::{CargoKind, PortLocation, Screen, ShipClass};
use crate::rules;
use crate::state::ModelView;

verus! {

/// The enemy's hold owes nothing of any commodity.
pub open spec fn enemy_owes_nothing(s: ModelView) -> bool {
    s.enemy matches Some(e) ==> e.ship.cargos.no_debt()
}

/// A voyage leads from a well-formed state to a well-formed state.
pub proof fn lemma_travel_keeps_wf(s: ModelView, to: PortLocation, v: Voyage)
    requires
        s.wf(),
        to != s.current_port_location ==> v.in_range(),
    ensures
        rules::travel(s, to, v).state.wf(),
{
    reveal(rules::travel);
}

/// A purchase leads from a well-formed state to a well-formed state.
pub proof fn lemma_buy_cargo_keeps_wf(s: ModelView, location: PortLocation, cargo: Cargo)
    requires
        s.wf(),
    ensures
        rules::buy_cargo(s, location, cargo).state.wf(),
{
    reveal(rules::buy_cargo);
}

/// A sale leads from a well-formed state to a well-formed state.
pub proof fn lemma_sell_cargo_keeps_wf(s: ModelView, location: PortLocation, cargo: Cargo)
    requires
        s.wf(),
    ensures
        rules::sell_cargo(s, location, cargo).state.wf(),
{
    reveal(rules::sell_cargo);
}

/// A trade of ships leads from a well-formed state to a well-formed state.
pub proof fn lemma_replace_ship_keeps_wf(s: ModelView, class: ShipClass, confirmed: bool)
    requires
        s.wf(),
    ensures
        rules::replace_ship(s, class, confirmed).state.wf(),
{
    reveal(rules::replace_ship);
    let held = s.player.ship.cargos;
    let asked = s.ports.at(s.current_port_location).cargos;
    assert(held.food.unit * asked.food.price >= 0) by (nonlinear_arith)
        requires
            held.food.unit >= 0,
            asked.food.price >= 0,
    ;
    assert(held.wood.unit * asked.wood.price >= 0) by (nonlinear_arith)
        requires
            held.wood.unit >= 0,
            asked.wood.price >= 0,
    ;
    assert(held.sugar.unit * asked.sugar.price >= 0) by (nonlinear_arith)
        requires
            held.sugar.unit >= 0,
            asked.sugar.price >= 0,
    ;
}

/// A repair leads from a well-formed state to a well-formed state.
pub proof fn lemma_repair_ship_keeps_wf(s: ModelView, funds: int)
    requires
        s.wf(),
    ensures
        rules::repair_ship(s, funds).state.wf(),
{
    reveal(rules::repair_ship);
}

/// A hiring leads from a well-formed state to a well-formed state.
pub proof fn lemma_hire_crew_keeps_wf(s: ModelView, funds: int)
    requires
        s.wf(),
    ensures
        rules::hire_crew(s, funds).state.wf(),
{
    reveal(rules::hire_crew);
}

/// A sighting leads from a well-formed state to a well-formed state.
pub proof fn lemma_start_encounter_keeps_wf(s: ModelView, sighting: Sighting)
    requires
        s.wf(),
        sighting.in_range(),
    ensures
        rules::start_encounter(s, sighting).state.wf(),
{
    reveal(rules::start_encounter);
}

/// A chase command leads from a well-formed state to a well-formed state.
pub proof fn lemma_chase_keeps_wf(s: ModelView, maneuver: Maneuver, volley: Volley)
    requires
        s.wf(),
        rules::fires(s, maneuver) ==> volley.in_range(
            maneuver,
            s.enemy->0.distance,
            s.player.ship.cannons,
            s.enemy->0.ship.cannons,
        ),
    ensures
        rules::chase(s, maneuver, volley).state.wf(),
{
    reveal(rules::chase);
}

/// A round of the boarding fight leads from a well-formed state to a well-formed state.
pub proof fn lemma_battle_keeps_wf(s: ModelView, weapon: Weapon, melee: Melee)
    requires
        s.wf(),
        rules::fights(s) ==> melee.in_range(weapon),
    ensures
        rules::battle(s, weapon, melee).state.wf(),
{
    reveal(rules::battle);
}

/// A taking of cargo leads from a well-formed state to a well-formed state.
pub proof fn lemma_take_enemy_cargo_keeps_wf(s: ModelView, kind: CargoKind)
    requires
        s.wf(),
    ensures
        rules::take_enemy_cargo(s, kind).state.wf(),
{
    reveal(rules::take_enemy_cargo);
}

/// A change of phase leads from a well-formed state to a well-formed state.
pub proof fn lemma_switch_screen_keeps_wf(s: ModelView, screen: Screen, sighting: Sighting)
    requires
        s.wf(),
        screen == Screen::Skirmish ==> sighting.in_range(),
    ensures
        rules::switch_screen(s, screen, sighting).state.wf(),
{
    reveal(rules::switch_screen);
    if screen == Screen::Skirmish {
        lemma_start_encounter_keeps_wf(s, sighting);
    }
}

/// A reset leads from a well-formed state to a well-formed state.
pub proof fn lemma_reset_keeps_wf(s: ModelView, confirmed: bool)
    requires
        s.wf(),
    ensures
        rules::reset(s, confirmed).state.wf(),
{
    reveal(rules::reset);
}

/// A voyage that is turned down leaves the state as it was.
pub proof fn lemma_travel_rejection_changes_nothing(s: ModelView, to: PortLocation, v: Voyage)
    requires
        rules::travel(s, to, v).outcome is Rejected,
    ensures
        rules::travel(s, to, v).state == s,
{
    reveal(rules::travel);
}

/// A purchase that is turned down leaves the state as it was.
pub proof fn lemma_buy_cargo_rejection_changes_nothing(
    s: ModelView,
    location: PortLocation,
    cargo: Cargo,
)
    requires
        rules::buy_cargo(s, location, cargo).outcome is Rejected,
    ensures
        rules::buy_cargo(s, location, cargo).state == s,
{
    reveal(rules::buy_cargo);
}

/// A sale that is turned down leaves the state as it was.
pub proof fn lemma_sell_cargo_rejection_changes_nothing(
    s: ModelView,
    location: PortLocation,
    cargo: Cargo,
)
    requires
        rules::sell_cargo(s, location, cargo).outcome is Rejected,
    ensures
        rules::sell_cargo(s, location, cargo).state == s,
{
    reveal(rules::sell_cargo);
}

/// A trade of ships that is turned down leaves the state as it was.
pub proof fn lemma_replace_ship_rejection_changes_nothing(
    s: ModelView,
    class: ShipClass,
    confirmed: bool,
)
    requires
        rules::replace_ship(s, class, confirmed).outcome is Rejected,
    ensures
        rules::replace_ship(s, class, confirmed).state == s,
{
    reveal(rules::replace_ship);
}

/// A repair that is turned down leaves the state as it was.
pub proof fn lemma_repair_ship_rejection_changes_nothing(s: ModelView, funds: int)
    requires
        rules::repair_ship(s, funds).outcome is Rejected,
    ensures
        rules::repair_ship(s, funds).state == s,
{
    reveal(rules::repair_ship);
}

/// A hiring that is turned down leaves the state as it was.
pub proof fn lemma_hire_crew_rejection_changes_nothing(s: ModelView, funds: int)
    requires
        rules::hire_crew(s, funds).outcome is Rejected,
    ensures
        rules::hire_crew(s, funds).state == s,
{
    reveal(rules::hire_crew);
}

/// A chase command that is turned down leaves the state as it was.
pub proof fn lemma_chase_rejection_changes_nothing(s: ModelView, maneuver: Maneuver, volley: Volley)
    requires
        rules::chase(s, maneuver, volley).outcome is Rejected,
    ensures
        rules::chase(s, maneuver, volley).state == s,
{
    reveal(rules::chase);
}

/// A round of the boarding fight that is turned down leaves the state as it was.
pub proof fn lemma_battle_rejection_changes_nothing(s: ModelView, weapon: Weapon, melee: Melee)
    requires
        rules::battle(s, weapon, melee).outcome is Rejected,
    ensures
        rules::battle(s, weapon, melee).state == s,
{
    reveal(rules::battle);
}

/// A taking of cargo that is turned down leaves the state as it was.
pub proof fn lemma_take_enemy_cargo_rejection_changes_nothing(s: ModelView, kind: CargoKind)
    requires
        rules::take_enemy_cargo(s, kind).outcome is Rejected,
    ensures
        rules::take_enemy_cargo(s, kind).state == s,
{
    reveal(rules::take_enemy_cargo);
}

/// A change of phase is never turned down.
pub proof fn lemma_switch_screen_always_applies(s: ModelView, screen: Screen, sighting: Sighting)
    ensures
        rules::switch_screen(s, screen, sighting).outcome == Outcome::Applied,
{
    reveal(rules::switch_screen);
    reveal(rules::start_encounter);
}

/// A reset that is turned down leaves the state as it was.
pub proof fn lemma_reset_rejection_changes_nothing(s: ModelView, confirmed: bool)
    requires
        rules::reset(s, confirmed).outcome is Rejected,
    ensures
        rules::reset(s, confirmed).state == s,
{
    reveal(rules::reset);
}

/// A voyage leaves no entry of the enemy's hold in debt.
pub proof fn lemma_travel_keeps_enemy_out_of_debt(s: ModelView, to: PortLocation, v: Voyage)
    requires
        enemy_owes_nothing(s),
    ensures
        enemy_owes_nothing(rules::travel(s, to, v).state),
{
    reveal(rules::travel);
}

/// A purchase leaves no entry of the enemy's hold in debt.
pub proof fn lemma_buy_cargo_keeps_enemy_out_of_debt(
    s: ModelView,
    location: PortLocation,
    cargo: Cargo,
)
    requires
        enemy_owes_nothing(s),
    ensures
        enemy_owes_nothing(rules::buy_cargo(s, location, cargo).state),
{
    reveal(rules::buy_cargo);
}

/// A sale leaves no entry of the enemy's hold in debt.
pub proof fn lemma_sell_cargo_keeps_enemy_out_of_debt(
    s: ModelView,
    location: PortLocation,
    cargo: Cargo,
)
    requires
        enemy_owes_nothing(s),
    ensures
        enemy_owes_nothing(rules::sell_cargo(s, location, cargo).state),
{
    reveal(rules::sell_cargo);
}

/// A trade of ships leaves no entry of the enemy's hold in debt.
pub proof fn lemma_replace_ship_keeps_enemy_out_of_debt(
    s: ModelView,
    class: ShipClass,
    confirmed: bool,
)
    requires
        enemy_owes_nothing(s),
    ensures
        enemy_owes_nothing(rules::replace_ship(s, class, confirmed).state),
{
    reveal(rules::replace_ship);
}

/// A repair leaves no entry of the enemy's hold in debt.
pub proof fn lemma_repair_ship_keeps_enemy_out_of_debt(s: ModelView, funds: int)
    requires
        enemy_owes_nothing(s),
    ensures
        enemy_owes_nothing(rules::repair_ship(s, funds).state),
{
    reveal(rules::repair_ship);
}

/// A hiring leaves no entry of the enemy's hold in debt.
pub proof fn lemma_hire_crew_keeps_enemy_out_of_debt(s: ModelView, funds: int)
    requires
        enemy_owes_nothing(s),
    ensures
        enemy_owes_nothing(rules::hire_crew(s, funds).state),
{
    reveal(rules::hire_crew);
}

/// A chase command leaves no entry of the enemy's hold in debt.
pub proof fn lemma_chase_keeps_enemy_out_of_debt(s: ModelView, maneuver: Maneuver, volley: Volley)
    requires
        enemy_owes_nothing(s),
    ensures
        enemy_owes_nothing(rules::chase(s, maneuver, volley).state),
{
    reveal(rules::chase);
}

/// A round of the boarding fight leaves no entry of the enemy's hold in debt.
pub proof fn lemma_battle_keeps_enemy_out_of_debt(s: ModelView, weapon: Weapon, melee: Melee)
    requires
        enemy_owes_nothing(s),
    ensures
        enemy_owes_nothing(rules::battle(s, weapon, melee).state),
{
    reveal(rules::battle);
}

/// Taking a commodity of which the enemy has some leaves no entry of the
/// enemy's hold in debt.
pub proof fn lemma_take_enemy_cargo_keeps_enemy_out_of_debt(s: ModelView, kind: CargoKind)
    requires
        enemy_owes_nothing(s),
        s.enemy matches Some(e) ==> e.ship.cargos.entry(kind).unit >= 1,
    ensures
        enemy_owes_nothing(rules::take_enemy_cargo(s, kind).state),
{
    reveal(rules::take_enemy_cargo);
}

/// A change of phase leaves no entry of the enemy's hold in debt.
pub proof fn lemma_switch_screen_keeps_enemy_out_of_debt(
    s: ModelView,
    screen: Screen,
    sighting: Sighting,
)
    requires
        enemy_owes_nothing(s),
        screen == Screen::Skirmish ==> sighting.in_range(),
    ensures
        enemy_owes_nothing(rules::switch_screen(s, screen, sighting).state),
{
    reveal(rules::switch_screen);
    reveal(rules::start_encounter);
}

/// A reset leaves no entry of the enemy's hold in debt.
pub proof fn lemma_reset_keeps_enemy_out_of_debt(s: ModelView, confirmed: bool)
    requires
        enemy_owes_nothing(s),
    ensures
        enemy_owes_nothing(rules::reset(s, confirmed).state),
{
    reveal(rules::reset);
}

} // verus!
