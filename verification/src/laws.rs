//! What holds of the game, whatever the state, the command and the draws.

use vstd::prelude::*;
use crate::cargo::Cargo;
use crate::cases::{
    enemy_owes_nothing,
    lemma_battle_keeps_enemy_out_of_debt,
    lemma_battle_keeps_wf,
    lemma_battle_rejection_changes_nothing,
    lemma_buy_cargo_keeps_enemy_out_of_debt,
    lemma_buy_cargo_keeps_wf,
    lemma_buy_cargo_rejection_changes_nothing,
    lemma_chase_keeps_enemy_out_of_debt,
    lemma_chase_keeps_wf,
    lemma_chase_rejection_changes_nothing,
    lemma_hire_crew_keeps_enemy_out_of_debt,
    lemma_hire_crew_keeps_wf,
    lemma_hire_crew_rejection_changes_nothing,
    lemma_repair_ship_keeps_enemy_out_of_debt,
    lemma_repair_ship_keeps_wf,
    lemma_repair_ship_rejection_changes_nothing,
    lemma_replace_ship_keeps_enemy_out_of_debt,
    lemma_replace_ship_keeps_wf,
    lemma_replace_ship_rejection_changes_nothing,
    lemma_reset_keeps_enemy_out_of_debt,
    lemma_reset_keeps_wf,
    lemma_reset_rejection_changes_nothing,
    lemma_sell_cargo_keeps_enemy_out_of_debt,
    lemma_sell_cargo_keeps_wf,
    lemma_sell_cargo_rejection_changes_nothing,
    lemma_switch_screen_keeps_enemy_out_of_debt,
    lemma_switch_screen_keeps_wf,
    lemma_switch_screen_always_applies,
    lemma_take_enemy_cargo_keeps_enemy_out_of_debt,
    lemma_take_enemy_cargo_keeps_wf,
    lemma_take_enemy_cargo_rejection_changes_nothing,
    lemma_travel_keeps_enemy_out_of_debt,
    lemma_travel_keeps_wf,
    lemma_travel_rejection_changes_nothing,
};
use crate::chance::{Chance, Maneuver, Melee, Volley, Weapon};
use crate::command::{Msg, Outcome, Reason};
use crate::model::{GameLostReason, PortLocation, MINIMUM_SHIP_CREW, MINIMUM_SHIP_HULL};
use crate::rules;
use crate::state::ModelView;

verus! {

/// A command of the economy leads from a well-formed state to a well-formed state.
proof fn lemma_economy_keeps_wf(s: ModelView, msg: Msg, chance: Chance, confirmed: bool)
    requires
        s.wf(),
        rules::suits(chance, msg, s),
    ensures
        rules::economy(s, msg, chance, confirmed).state.wf(),
{
    reveal(rules::economy);
    match msg {
        Msg::SwitchPlayerLocation(to) => lemma_travel_keeps_wf(s, to, chance->Voyage_0),
        Msg::BuyCargo(location, cargo) => lemma_buy_cargo_keeps_wf(s, location, cargo),
        Msg::SellCargo(location, cargo) => lemma_sell_cargo_keeps_wf(s, location, cargo),
        Msg::RepairShip(funds) => lemma_repair_ship_keeps_wf(s, funds as int),
        Msg::HireCrew(funds) => lemma_hire_crew_keeps_wf(s, funds as int),
        Msg::BuyAndReplaceShip(class) => lemma_replace_ship_keeps_wf(s, class, confirmed),
        _ => {},
    }
}

/// A command of the encounter leads from a well-formed state to a well-formed state.
proof fn lemma_encounter_keeps_wf(s: ModelView, msg: Msg, chance: Chance)
    requires
        s.wf(),
        rules::suits(chance, msg, s),
    ensures
        rules::encounter(s, msg, chance).state.wf(),
{
    reveal(rules::encounter);
    match msg {
        Msg::SkirmishChaseClose => lemma_chase_keeps_wf(s, Maneuver::Close, chance->Volley_0),
        Msg::SkirmishChaseDistant => lemma_chase_keeps_wf(s, Maneuver::Distant, chance->Volley_0),
        Msg::SkirmishChaseBroadside => lemma_chase_keeps_wf(
            s,
            Maneuver::Broadside,
            chance->Volley_0,
        ),
        Msg::SkirmishBattleSwingSword => lemma_battle_keeps_wf(s, Weapon::Sword, chance->Melee_0),
        Msg::SkirmishBattleShootFalconet => lemma_battle_keeps_wf(
            s,
            Weapon::Falconet,
            chance->Melee_0,
        ),
        Msg::TakeEnemyCargo(kind) => lemma_take_enemy_cargo_keeps_wf(s, kind),
        _ => {},
    }
}

/// The reducer leads from a well-formed state to a well-formed state,
/// whatever the command, the draws and the player's answer. So after every
/// command the captain's hold carries no more than the ship's capacity, and
/// neither the captain's coins, nor a count in the captain's hold, nor a
/// count or a price in a port's stock is negative.
pub proof fn lemma_step_keeps_wf(s: ModelView, msg: Msg, chance: Chance, confirmed: bool)
    requires
        s.wf(),
        rules::suits(chance, msg, s),
    ensures
        rules::step(s, msg, chance, confirmed).state.wf(),
{
    match msg {
        Msg::ResetModel => lemma_reset_keeps_wf(s, confirmed),
        Msg::SwitchScreen(screen) => lemma_switch_screen_keeps_wf(s, screen, chance->Sighting_0),
        _ => if rules::is_economy(msg) {
            lemma_economy_keeps_wf(s, msg, chance, confirmed);
        } else {
            lemma_encounter_keeps_wf(s, msg, chance);
        },
    }
}

/// One move of a game: a command, what chance decided, and what the player
/// answered when asked to confirm.
pub struct Move {
    pub msg: Msg,
    pub chance: Chance,
    pub confirmed: bool,
}

/// The state that `moves`, made one after the other, lead to from `s`.
pub open spec fn played(s: ModelView, moves: Seq<Move>) -> ModelView
    decreases moves.len(),
{
    if moves.len() == 0 {
        s
    } else {
        let last = moves.last();
        rules::step(played(s, moves.drop_last()), last.msg, last.chance, last.confirmed).state
    }
}

/// Whether in each of `moves`, made one after the other from `s`, chance
/// decided what the command leaves to it, within the range that the rules
/// give.
pub open spec fn fair(s: ModelView, moves: Seq<Move>) -> bool
    decreases moves.len(),
{
    moves.len() == 0 || {
        let last = moves.last();
        fair(s, moves.drop_last()) && rules::suits(
            last.chance,
            last.msg,
            played(s, moves.drop_last()),
        )
    }
}

/// Every state that a fair game reaches from a well-formed state is well
/// formed.
pub proof fn lemma_play_keeps_wf(s: ModelView, moves: Seq<Move>)
    requires
        s.wf(),
        fair(s, moves),
    ensures
        played(s, moves).wf(),
    decreases moves.len(),
{
    if moves.len() > 0 {
        let last = moves.last();
        lemma_play_keeps_wf(s, moves.drop_last());
        lemma_step_keeps_wf(played(s, moves.drop_last()), last.msg, last.chance, last.confirmed);
    }
}

/// In every state that a fair game reaches from its start, the captain's
/// hold carries no more than the ship's capacity, neither the coins nor a
/// count in the captain's hold or in a port's stock is negative, and the
/// captain's ship is afloat and manned.
pub proof fn lemma_every_reachable_state_is_sound(moves: Seq<Move>)
    requires
        fair(ModelView::opening(), moves),
    ensures
        ({
            let s = played(ModelView::opening(), moves);
            &&& s.player.ship.cargos.total_unit() <= s.player.ship.cargos_capacity
            &&& s.player.coins >= 0
            &&& s.player.ship.cargos.no_debt()
            &&& s.ports.barbados.cargos.no_debt()
            &&& s.ports.port_royal.cargos.no_debt()
            &&& s.ports.nassau.cargos.no_debt()
            &&& s.player.ship.hull >= MINIMUM_SHIP_HULL
            &&& s.player.ship.crew >= MINIMUM_SHIP_CREW
        }),
{
    lemma_play_keeps_wf(ModelView::opening(), moves);
}

/// A command of the economy that is turned down leaves the state as it was.
proof fn lemma_economy_rejection_changes_nothing(
    s: ModelView,
    msg: Msg,
    chance: Chance,
    confirmed: bool,
)
    requires
        rules::economy(s, msg, chance, confirmed).outcome is Rejected,
    ensures
        rules::economy(s, msg, chance, confirmed).state == s,
{
    reveal(rules::economy);
    match msg {
        Msg::SwitchPlayerLocation(to) => lemma_travel_rejection_changes_nothing(
            s,
            to,
            chance->Voyage_0,
        ),
        Msg::BuyCargo(location, cargo) => lemma_buy_cargo_rejection_changes_nothing(
            s,
            location,
            cargo,
        ),
        Msg::SellCargo(location, cargo) => lemma_sell_cargo_rejection_changes_nothing(
            s,
            location,
            cargo,
        ),
        Msg::RepairShip(funds) => lemma_repair_ship_rejection_changes_nothing(s, funds as int),
        Msg::HireCrew(funds) => lemma_hire_crew_rejection_changes_nothing(s, funds as int),
        Msg::BuyAndReplaceShip(class) => lemma_replace_ship_rejection_changes_nothing(
            s,
            class,
            confirmed,
        ),
        _ => {},
    }
}

/// A command of the encounter that is turned down leaves the state as it was.
proof fn lemma_encounter_rejection_changes_nothing(s: ModelView, msg: Msg, chance: Chance)
    requires
        rules::encounter(s, msg, chance).outcome is Rejected,
    ensures
        rules::encounter(s, msg, chance).state == s,
{
    reveal(rules::encounter);
    match msg {
        Msg::SkirmishChaseClose => lemma_chase_rejection_changes_nothing(
            s,
            Maneuver::Close,
            chance->Volley_0,
        ),
        Msg::SkirmishChaseDistant => lemma_chase_rejection_changes_nothing(
            s,
            Maneuver::Distant,
            chance->Volley_0,
        ),
        Msg::SkirmishChaseBroadside => lemma_chase_rejection_changes_nothing(
            s,
            Maneuver::Broadside,
            chance->Volley_0,
        ),
        Msg::SkirmishBattleSwingSword => lemma_battle_rejection_changes_nothing(
            s,
            Weapon::Sword,
            chance->Melee_0,
        ),
        Msg::SkirmishBattleShootFalconet => lemma_battle_rejection_changes_nothing(
            s,
            Weapon::Falconet,
            chance->Melee_0,
        ),
        Msg::TakeEnemyCargo(kind) => lemma_take_enemy_cargo_rejection_changes_nothing(s, kind),
        _ => {},
    }
}

/// A command that is turned down leaves the state as it was, whatever the
/// reason: a failed condition, a phase the command does not belong to, or a
/// player who did not confirm.
pub proof fn lemma_rejection_changes_nothing(
    s: ModelView,
    msg: Msg,
    chance: Chance,
    confirmed: bool,
)
    requires
        rules::step(s, msg, chance, confirmed).outcome is Rejected,
    ensures
        rules::step(s, msg, chance, confirmed).state == s,
{
    match msg {
        Msg::ResetModel => lemma_reset_rejection_changes_nothing(s, confirmed),
        Msg::SwitchScreen(screen) => lemma_switch_screen_always_applies(
            s,
            screen,
            chance->Sighting_0,
        ),
        _ => if rules::is_economy(msg) {
            lemma_economy_rejection_changes_nothing(s, msg, chance, confirmed);
        } else {
            lemma_encounter_rejection_changes_nothing(s, msg, chance);
        },
    }
}

/// Sailing to the port the ship lies in changes nothing: no day passes and
/// no port is restocked, whatever chance would have brought.
pub proof fn lemma_travel_in_place_changes_nothing(s: ModelView, chance: Chance, confirmed: bool)
    ensures
        rules::step(s, Msg::SwitchPlayerLocation(s.current_port_location), chance, confirmed)
            == rules::rejected(s, Reason::AlreadyThere),
{
    reveal(rules::economy);
    reveal(rules::travel);
}

/// An exchange of fire that leaves the captain's hull below the minimum
/// loses the game at once: the next state is the start of a game, with the
/// phase that says the ship has sunk.
pub proof fn lemma_sunk_ship_loses_game(s: ModelView, maneuver: Maneuver, volley: Volley)
    requires
        rules::fires(s, maneuver),
        s.player.ship.hull - volley.player_loss < MINIMUM_SHIP_HULL,
    ensures
        rules::chase(s, maneuver, volley) == rules::applied(
            ModelView::lost(GameLostReason::ShipSunk),
        ),
{
    reveal(rules::chase);
}

/// A round of the boarding fight that leaves the captain's crew below the
/// minimum loses the game at once: the next state is the start of a game,
/// with the phase that says the crew has died.
pub proof fn lemma_dead_crew_loses_game(s: ModelView, weapon: Weapon, melee: Melee)
    requires
        rules::fights(s),
        s.player.ship.crew - melee.player_loss < MINIMUM_SHIP_CREW,
    ensures
        rules::battle(s, weapon, melee) == rules::applied(
            ModelView::lost(GameLostReason::AllCrewDied),
        ),
{
    reveal(rules::battle);
}

/// A purchase that took effect, followed by the sale of the same commodity
/// in the same port at the same price, leads back to the state before the
/// purchase: the coins, the hold and the port's stock are what they were.
pub proof fn lemma_buy_then_sell_restores(s: ModelView, location: PortLocation, cargo: Cargo)
    requires
        s.wf(),
        rules::buy_cargo(s, location, cargo).outcome == Outcome::Applied,
    ensures
        rules::sell_cargo(rules::buy_cargo(s, location, cargo).state, location, cargo)
            == rules::applied(s),
{
    reveal(rules::buy_cargo);
    reveal(rules::sell_cargo);
}

/// Whether `msg` takes from the enemy a commodity of which it has none.
pub open spec fn takes_from_empty_entry(s: ModelView, msg: Msg) -> bool {
    msg matches Msg::TakeEnemyCargo(kind) && s.enemy matches Some(e) && e.ship.cargos.entry(
        kind,
    ).unit < 1
}

/// A command of the economy leaves no entry of the enemy's hold in debt.
proof fn lemma_economy_keeps_enemy_out_of_debt(
    s: ModelView,
    msg: Msg,
    chance: Chance,
    confirmed: bool,
)
    requires
        enemy_owes_nothing(s),
    ensures
        enemy_owes_nothing(rules::economy(s, msg, chance, confirmed).state),
{
    reveal(rules::economy);
    match msg {
        Msg::SwitchPlayerLocation(to) => lemma_travel_keeps_enemy_out_of_debt(
            s,
            to,
            chance->Voyage_0,
        ),
        Msg::BuyCargo(location, cargo) => lemma_buy_cargo_keeps_enemy_out_of_debt(
            s,
            location,
            cargo,
        ),
        Msg::SellCargo(location, cargo) => lemma_sell_cargo_keeps_enemy_out_of_debt(
            s,
            location,
            cargo,
        ),
        Msg::RepairShip(funds) => lemma_repair_ship_keeps_enemy_out_of_debt(s, funds as int),
        Msg::HireCrew(funds) => lemma_hire_crew_keeps_enemy_out_of_debt(s, funds as int),
        Msg::BuyAndReplaceShip(class) => lemma_replace_ship_keeps_enemy_out_of_debt(
            s,
            class,
            confirmed,
        ),
        _ => {},
    }
}

/// A command of the encounter that does not take from an empty entry of the
/// enemy's hold leaves no entry of it in debt.
proof fn lemma_encounter_keeps_enemy_out_of_debt(s: ModelView, msg: Msg, chance: Chance)
    requires
        enemy_owes_nothing(s),
        !takes_from_empty_entry(s, msg),
    ensures
        enemy_owes_nothing(rules::encounter(s, msg, chance).state),
{
    reveal(rules::encounter);
    match msg {
        Msg::SkirmishChaseClose => lemma_chase_keeps_enemy_out_of_debt(
            s,
            Maneuver::Close,
            chance->Volley_0,
        ),
        Msg::SkirmishChaseDistant => lemma_chase_keeps_enemy_out_of_debt(
            s,
            Maneuver::Distant,
            chance->Volley_0,
        ),
        Msg::SkirmishChaseBroadside => lemma_chase_keeps_enemy_out_of_debt(
            s,
            Maneuver::Broadside,
            chance->Volley_0,
        ),
        Msg::SkirmishBattleSwingSword => lemma_battle_keeps_enemy_out_of_debt(
            s,
            Weapon::Sword,
            chance->Melee_0,
        ),
        Msg::SkirmishBattleShootFalconet => lemma_battle_keeps_enemy_out_of_debt(
            s,
            Weapon::Falconet,
            chance->Melee_0,
        ),
        Msg::TakeEnemyCargo(kind) => lemma_take_enemy_cargo_keeps_enemy_out_of_debt(s, kind),
        _ => {},
    }
}

/// No entry of the enemy's hold goes into debt, but by the one command that
/// the rules let do so: taking a commodity of which the enemy has none.
pub proof fn lemma_step_keeps_enemy_out_of_debt(
    s: ModelView,
    msg: Msg,
    chance: Chance,
    confirmed: bool,
)
    requires
        enemy_owes_nothing(s),
        rules::suits(chance, msg, s),
        !takes_from_empty_entry(s, msg),
    ensures
        enemy_owes_nothing(rules::step(s, msg, chance, confirmed).state),
{
    match msg {
        Msg::ResetModel => lemma_reset_keeps_enemy_out_of_debt(s, confirmed),
        Msg::SwitchScreen(screen) => lemma_switch_screen_keeps_enemy_out_of_debt(
            s,
            screen,
            chance->Sighting_0,
        ),
        _ => if rules::is_economy(msg) {
            lemma_economy_keeps_enemy_out_of_debt(s, msg, chance, confirmed);
        } else {
            lemma_encounter_keeps_enemy_out_of_debt(s, msg, chance);
        },
    }
}

} // verus!
