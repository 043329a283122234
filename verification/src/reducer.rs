//! The reducer: one command, applied to the state.

use vstd::prelude::*;
use crate::calendar::ymd_of;
use crate::chance::{
    Chance, Maneuver, Melee, Volley, Voyage, Weapon, LONGEST_VOYAGE, SHORTEST_VOYAGE,
};
use crate::command::{Msg, Outcome, Prompt, Reason};
use crate::laws::lemma_rejection_changes_nothing;
use crate::model::{PortLocation, Screen};
use crate::port::Restock;
use crate::rules;
use crate::rules::Step;
use crate::ship::Ship;
use crate::state::Model;

verus! {

impl Model {
    /// Starts again if the player confirmed, as `rules::reset` says.
    pub fn reset(&mut self, confirmed: bool) -> (r: Outcome)
        ensures
            rules::reset(old(self)@, confirmed) == (Step { state: final(self)@, outcome: r }),
            old(self)@.wf() ==> final(self)@.wf(),
    {
        proof {
            reveal(rules::reset);
        }
        if confirmed {
            *self = Model::default();
            Outcome::Applied
        } else {
            Outcome::Rejected(Reason::Declined)
        }
    }

    /// Changes the phase, as `rules::switch_screen` says. Going to the
    /// skirmish takes a sighting from `chance`.
    pub fn switch_screen(&mut self, screen: Screen, chance: &Chance) -> (r: Outcome)
        requires
            old(self)@.wf(),
            screen == Screen::Skirmish ==> *chance is Sighting && chance->Sighting_0.in_range(),
        ensures
            rules::switch_screen(old(self)@, screen, chance->Sighting_0) == (Step {
                state: final(self)@,
                outcome: r,
            }),
            final(self)@.wf(),
    {
        proof {
            reveal(rules::switch_screen);
        }
        match screen {
            Screen::MainNavigation => {
                self.sail_on();
                Outcome::Applied
            },
            Screen::Skirmish => match chance {
                Chance::Sighting(sighting) => self.start_encounter(sighting),
                _ => Outcome::Applied,
            },
            _ => {
                self.current_screen = screen;
                Outcome::Applied
            },
        }
    }
}

impl Msg {
    /// What the player must be asked before the command is applied to
    /// `state`, if anything: a reset always asks, a purchase of a ship asks
    /// once the coins cover its price.
    pub fn prompt(&self, state: &Model) -> (r: Option<Prompt>)
        ensures
            r == match *self {
                Msg::ResetModel => Some(Prompt::ConfirmReset),
                Msg::BuyAndReplaceShip(class) => if state@.player.coins >= class.price() {
                    Some(Prompt::ConfirmPurchase(class))
                } else {
                    None
                },
                _ => None,
            },
    {
        match self {
            Msg::ResetModel => Some(Prompt::ConfirmReset),
            Msg::BuyAndReplaceShip(class) => {
                if state.player.coins >= Ship::of_class(*class).price {
                    Some(Prompt::ConfirmPurchase(*class))
                } else {
                    None
                }
            },
            _ => None,
        }
    }

    /// Applies a command of the economy, as `rules::economy` says.
    fn apply_economy(&self, state: &mut Model, chance: &Chance, confirmed: bool) -> (r: Outcome)
        requires
            old(state)@.wf(),
            rules::suits(*chance, *self, old(state)@),
        ensures
            rules::economy(old(state)@, *self, *chance, confirmed) == (Step {
                state: final(state)@,
                outcome: r,
            }),
            final(state)@.wf(),
    {
        proof {
            reveal(rules::economy);
        }
        match self {
            Msg::SwitchPlayerLocation(to) => state.travel_by(*to, chance),
            Msg::BuyCargo(location, cargo) => state.buy_cargo(*location, *cargo),
            Msg::SellCargo(location, cargo) => state.sell_cargo(*location, *cargo),
            Msg::RepairShip(funds) => state.repair_ship(*funds),
            Msg::HireCrew(funds) => state.hire_crew(*funds),
            Msg::BuyAndReplaceShip(class) => state.replace_ship(*class, confirmed),
            _ => Outcome::Rejected(Reason::WrongPhase),
        }
    }

    /// Applies a command of the encounter, as `rules::encounter` says.
    fn apply_encounter(&self, state: &mut Model, chance: &Chance) -> (r: Outcome)
        requires
            old(state)@.wf(),
            rules::suits(*chance, *self, old(state)@),
        ensures
            rules::encounter(old(state)@, *self, *chance) == (Step {
                state: final(state)@,
                outcome: r,
            }),
            final(state)@.wf(),
    {
        proof {
            reveal(rules::encounter);
        }
        match self {
            Msg::SkirmishChaseClose => state.chase_by(Maneuver::Close, chance),
            Msg::SkirmishChaseDistant => state.chase_by(Maneuver::Distant, chance),
            Msg::SkirmishChaseBroadside => state.chase_by(Maneuver::Broadside, chance),
            Msg::SkirmishBattleSwingSword => state.battle_by(Weapon::Sword, chance),
            Msg::SkirmishBattleShootFalconet => state.battle_by(Weapon::Falconet, chance),
            Msg::TakeEnemyCargo(kind) => state.take_enemy_cargo(*kind),
            _ => Outcome::Rejected(Reason::WrongPhase),
        }
    }

    /// Whether the command is one of the economy.
    pub fn is_economy(&self) -> (r: bool)
        ensures
            r == rules::is_economy(*self),
    {
        match self {
            Msg::SwitchPlayerLocation(_)
            | Msg::BuyCargo(_, _)
            | Msg::SellCargo(_, _)
            | Msg::RepairShip(_)
            | Msg::HireCrew(_)
            | Msg::BuyAndReplaceShip(_) => true,
            _ => false,
        }
    }

    /// Applies the command to `state`, with what chance decided and whether
    /// the player confirmed, as `rules::step` says.
    pub fn apply_with(&self, state: &mut Model, chance: &Chance, confirmed: bool) -> (r: Outcome)
        requires
            old(state)@.wf(),
            rules::suits(*chance, *self, old(state)@),
        ensures
            rules::step(old(state)@, *self, *chance, confirmed) == (Step {
                state: final(state)@,
                outcome: r,
            }),
            final(state)@.wf(),
            r is Rejected ==> final(state)@ == old(state)@,
    {
        proof {
            if rules::step(state@, *self, *chance, confirmed).outcome is Rejected {
                lemma_rejection_changes_nothing(state@, *self, *chance, confirmed);
            }
        }
        match self {
            Msg::ResetModel => state.reset(confirmed),
            Msg::SwitchScreen(screen) => state.switch_screen(*screen, chance),
            _ => {
                if self.is_economy() {
                    self.apply_economy(state, chance, confirmed)
                } else {
                    self.apply_encounter(state, chance)
                }
            },
        }
    }

    /// Applies the command to `state`: draws what it leaves to chance, and
    /// does what `rules::step` says for that draw.
    pub fn apply(&self, state: &mut Model, confirmed: bool) -> (r: Outcome)
        requires
            old(state)@.wf(),
        ensures
            final(state)@.wf(),
            r is Rejected ==> final(state)@ == old(state)@,
            exists|chance: Chance|
                {
                    &&& rules::suits(chance, *self, old(state)@)
                    &&& chance matches Chance::Voyage(v) ==> exists|days: int|
                        SHORTEST_VOYAGE <= days <= LONGEST_VOYAGE && #[trigger] old(
                            state,
                        ).date.after(days) == ymd_of(v.arrival)
                    &&& #[trigger] rules::step(old(state)@, *self, chance, confirmed) == (Step {
                        state: final(state)@,
                        outcome: r,
                    })
                },
    {
        let chance = self.draw(state);
        self.apply_with(state, &chance, confirmed)
    }

    /// Applies the command to a state that may not be well formed. A state
    /// that is not is left as it is, and the answer is `None`; any other is
    /// handed to `apply`.
    pub fn dispatch(&self, state: &mut Model, confirmed: bool) -> (r: Option<Outcome>)
        ensures
            !old(state)@.wf() ==> r is None && final(state)@ == old(state)@,
            r matches Some(Outcome::Rejected(_)) ==> final(state)@ == old(state)@,
            old(state)@.wf() ==> r is Some && final(state)@.wf() && exists|chance: Chance|
                {
                    &&& rules::suits(chance, *self, old(state)@)
                    &&& chance matches Chance::Voyage(v) ==> exists|days: int|
                        SHORTEST_VOYAGE <= days <= LONGEST_VOYAGE && #[trigger] old(
                            state,
                        ).date.after(days) == ymd_of(v.arrival)
                    &&& #[trigger] rules::step(old(state)@, *self, chance, confirmed) == (Step {
                        state: final(state)@,
                        outcome: r->0,
                    })
                },
    {
        if state.is_well_formed() {
            Some(self.apply(state, confirmed))
        } else {
            None
        }
    }
}

/// The voyage in `chance`; where there is none, one that goes nowhere.
fn voyage_of(chance: &Chance) -> (r: Voyage)
    ensures
        *chance is Voyage ==> r == chance->Voyage_0,
{
    match chance {
        Chance::Voyage(v) => *v,
        _ => {
            let still = Restock { wood_unit: 0, sugar_unit: 0, wood_price: 0, sugar_price: 0 };
            Voyage {
                arrival: None,
                barbados: still,
                port_royal: still,
                nassau: still,
                food_eaten: 0,
            }
        },
    }
}

impl Model {
    /// A voyage to `to`, as `chance` holds it.
    fn travel_by(&mut self, to: PortLocation, chance: &Chance) -> (r: Outcome)
        requires
            old(self)@.wf(),
            to != old(self)@.current_port_location ==> *chance is Voyage
                && chance->Voyage_0.in_range(),
        ensures
            rules::travel(old(self)@, to, chance->Voyage_0) == (Step {
                state: final(self)@,
                outcome: r,
            }),
            final(self)@.wf(),
    {
        proof {
            reveal(rules::travel);
        }
        self.travel(to, &voyage_of(chance))
    }

    /// One command of the chase, with the volley that `chance` holds.
    fn chase_by(&mut self, maneuver: Maneuver, chance: &Chance) -> (r: Outcome)
        requires
            old(self)@.wf(),
            rules::fires(old(self)@, maneuver) ==> *chance is Volley && chance->Volley_0.in_range(
                maneuver,
                old(self)@.enemy->0.distance,
                old(self)@.player.ship.cannons,
                old(self)@.enemy->0.ship.cannons,
            ),
        ensures
            rules::chase(old(self)@, maneuver, chance->Volley_0) == (Step {
                state: final(self)@,
                outcome: r,
            }),
            final(self)@.wf(),
    {
        proof {
            reveal(rules::chase);
        }
        self.chase(maneuver, &volley_of(chance))
    }

    /// One round of the boarding fight, with the melee that `chance` holds.
    fn battle_by(&mut self, weapon: Weapon, chance: &Chance) -> (r: Outcome)
        requires
            old(self)@.wf(),
            rules::fights(old(self)@) ==> *chance is Melee && chance->Melee_0.in_range(weapon),
        ensures
            rules::battle(old(self)@, weapon, chance->Melee_0) == (Step {
                state: final(self)@,
                outcome: r,
            }),
            final(self)@.wf(),
    {
        proof {
            reveal(rules::battle);
        }
        self.battle(weapon, &melee_of(chance))
    }
}

/// The volley in `chance`; where there is none, one without effect.
fn volley_of(chance: &Chance) -> (r: Volley)
    ensures
        *chance is Volley ==> r == chance->Volley_0,
{
    match chance {
        Chance::Volley(v) => *v,
        _ => Volley { player_loss: 0, enemy_loss: 0 },
    }
}

/// The melee in `chance`; where there is none, one without effect.
fn melee_of(chance: &Chance) -> (r: Melee)
    ensures
        *chance is Melee ==> r == chance->Melee_0,
{
    match chance {
        Chance::Melee(m) => *m,
        _ => Melee { player_loss: 0, enemy_loss: 0 },
    }
}

} // verus!
