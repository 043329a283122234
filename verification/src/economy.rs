//! The economy: sailing between ports, trading, and what a yard and a tavern
//! sell.

use vstd::prelude::*;
use crate::cargo::Cargo;
use crate::chance::Voyage;
use crate::command::{Outcome, Reason};
use crate::cases::{
    lemma_buy_cargo_keeps_wf, lemma_hire_crew_keeps_wf, lemma_repair_ship_keeps_wf,
    lemma_replace_ship_keeps_wf, lemma_sell_cargo_keeps_wf, lemma_travel_keeps_wf,
};
use crate::model::{CargoKind, GameLostReason, PortLocation, ShipClass, MINIMUM_PLAYER_FOOD};
use crate::rules;
use crate::rules::Step;
use crate::ship::Ship;
use crate::state::{Model, Player};

verus! {

impl Player {
    /// Whether the hold has room for one more unit.
    pub fn has_cargo_space(&self) -> (r: bool)
        ensures
            r == self@.has_cargo_space(),
    {
        self.ship.cargos.total_unit_wide() < self.ship.cargos_capacity as i64
    }
}

/// A product of a count in the hold and a price stays within bounds.
proof fn lemma_sale_bounds(unit: int, price: int)
    requires
        0 <= unit <= 210,
        0 <= price <= i32::MAX,
    ensures
        0 <= unit * price <= 210 * i32::MAX,
{
    assert(0 <= unit * price <= 210 * i32::MAX) by (nonlinear_arith)
        requires
            0 <= unit <= 210,
            0 <= price <= i32::MAX,
    ;
}

impl Model {
    /// The commodity of `kind` as the port at `location` offers it now: what
    /// a command that buys or sells it at the port's price carries.
    pub fn quote(&self, location: PortLocation, kind: CargoKind) -> (r: Cargo)
        ensures
            r@ == self@.ports.at(location).cargos.entry(kind),
    {
        self.ports.get(location).cargos.entry(kind)
    }

    /// Sails to `to`, as `rules::travel` says. The voyage counts only where
    /// the ship leaves port.
    pub fn travel(&mut self, to: PortLocation, voyage: &Voyage) -> (r: Outcome)
        requires
            old(self)@.wf(),
            to != old(self)@.current_port_location ==> voyage.in_range(),
        ensures
            rules::travel(old(self)@, to, *voyage) == (Step { state: final(self)@, outcome: r }),
            final(self)@.wf(),
    {
        proof {
            reveal(rules::travel);
            lemma_travel_keeps_wf(self@, to, *voyage);
        }
        if to == self.current_port_location {
            return Outcome::Rejected(Reason::AlreadyThere);
        }
        match voyage.arrival {
            None => Outcome::Rejected(Reason::LimitReached),
            Some(date) => {
                let food: i32 = self.player.ship.cargos.food.unit - voyage.food_eaten;
                if food < MINIMUM_PLAYER_FOOD as i32 {
                    self.lose(GameLostReason::FoodMutiny);
                } else {
                    self.date = date;
                    self.current_port_location = to;
                    self.ports.barbados.restock(voyage.barbados);
                    self.ports.port_royal.restock(voyage.port_royal);
                    self.ports.nassau.restock(voyage.nassau);
                    self.player.ship.cargos.shift(CargoKind::Food, -voyage.food_eaten);
                }
                Outcome::Applied
            },
        }
    }

    /// Buys one unit, as `rules::buy_cargo` says.
    pub fn buy_cargo(&mut self, location: PortLocation, cargo: Cargo) -> (r: Outcome)
        requires
            old(self)@.wf(),
        ensures
            rules::buy_cargo(old(self)@, location, cargo) == (Step {
                state: final(self)@,
                outcome: r,
            }),
            final(self)@.wf(),
    {
        proof {
            reveal(rules::buy_cargo);
            lemma_buy_cargo_keeps_wf(self@, location, cargo);
        }
        if self.player.coins <= cargo.price {
            return Outcome::Rejected(Reason::InsufficientFunds);
        }
        if !self.player.has_cargo_space() {
            return Outcome::Rejected(Reason::InsufficientCargoSpace);
        }
        if self.ports.get(location).cargos.entry(cargo.kind).unit < 1 {
            return Outcome::Rejected(Reason::InsufficientStock);
        }
        let balance: i64 = self.player.coins as i64 - cargo.price as i64;
        if balance > i32::MAX as i64 {
            return Outcome::Rejected(Reason::LimitReached);
        }
        self.player.coins = balance as i32;
        self.player.ship.cargos.shift(cargo.kind, 1);
        self.ports.shift(location, cargo.kind, -1);
        Outcome::Applied
    }

    /// Sells one unit, as `rules::sell_cargo` says.
    pub fn sell_cargo(&mut self, location: PortLocation, cargo: Cargo) -> (r: Outcome)
        requires
            old(self)@.wf(),
        ensures
            rules::sell_cargo(old(self)@, location, cargo) == (Step {
                state: final(self)@,
                outcome: r,
            }),
            final(self)@.wf(),
    {
        proof {
            reveal(rules::sell_cargo);
            lemma_sell_cargo_keeps_wf(self@, location, cargo);
        }
        if self.player.ship.cargos.entry(cargo.kind).unit < 1 {
            return Outcome::Rejected(Reason::InsufficientStock);
        }
        let balance: i64 = self.player.coins as i64 + cargo.price as i64;
        if balance < 0 {
            return Outcome::Rejected(Reason::InsufficientFunds);
        }
        if balance > i32::MAX as i64 || self.ports.get(location).cargos.entry(cargo.kind).unit
            == i32::MAX {
            return Outcome::Rejected(Reason::LimitReached);
        }
        self.player.coins = balance as i32;
        self.player.ship.cargos.shift(cargo.kind, -1);
        self.ports.shift(location, cargo.kind, 1);
        Outcome::Applied
    }

    /// Trades the ship in, as `rules::replace_ship` says.
    pub fn replace_ship(&mut self, class: ShipClass, confirmed: bool) -> (r: Outcome)
        requires
            old(self)@.wf(),
        ensures
            rules::replace_ship(old(self)@, class, confirmed) == (Step {
                state: final(self)@,
                outcome: r,
            }),
            final(self)@.wf(),
    {
        proof {
            reveal(rules::replace_ship);
            lemma_replace_ship_keeps_wf(self@, class, confirmed);
        }
        let mut ship = Ship::of_class(class);
        if self.player.coins < ship.price {
            return Outcome::Rejected(Reason::InsufficientFunds);
        }
        if !confirmed {
            return Outcome::Rejected(Reason::Declined);
        }
        let held = self.player.ship.cargos;
        let asked = self.ports.get(self.current_port_location).cargos;
        proof {
            lemma_sale_bounds(held.food.unit as int, asked.food.price as int);
            lemma_sale_bounds(held.wood.unit as int, asked.wood.price as int);
            lemma_sale_bounds(held.sugar.unit as int, asked.sugar.price as int);
        }
        let food: i64 = held.food.unit as i64 * asked.food.price as i64;
        let wood: i64 = held.wood.unit as i64 * asked.wood.price as i64;
        let sugar: i64 = held.sugar.unit as i64 * asked.sugar.price as i64;
        let balance: i64 = self.player.coins as i64 + food + wood + sugar - ship.price as i64;
        if balance > i32::MAX as i64 {
            return Outcome::Rejected(Reason::LimitReached);
        }
        ship.name = self.player.ship.name.clone();
        self.player.coins = balance as i32;
        self.player.ship = ship;
        Outcome::Applied
    }

    /// Repairs the hull, as `rules::repair_ship` says.
    pub fn repair_ship(&mut self, funds: i32) -> (r: Outcome)
        requires
            old(self)@.wf(),
        ensures
            rules::repair_ship(old(self)@, funds as int) == (Step {
                state: final(self)@,
                outcome: r,
            }),
            final(self)@.wf(),
    {
        proof {
            reveal(rules::repair_ship);
            lemma_repair_ship_keeps_wf(self@, funds as int);
        }
        let cost = self.player.ship.cost_to_repair();
        if funds < cost || self.player.coins < cost {
            return Outcome::Rejected(Reason::InsufficientFunds);
        }
        self.player.coins = self.player.coins - cost;
        self.player.ship.hull = self.player.ship.hull_capacity;
        Outcome::Applied
    }

    /// Completes the crew, as `rules::hire_crew` says.
    pub fn hire_crew(&mut self, funds: i32) -> (r: Outcome)
        requires
            old(self)@.wf(),
        ensures
            rules::hire_crew(old(self)@, funds as int) == (Step {
                state: final(self)@,
                outcome: r,
            }),
            final(self)@.wf(),
    {
        proof {
            reveal(rules::hire_crew);
            lemma_hire_crew_keeps_wf(self@, funds as int);
        }
        let cost = self.player.ship.cost_to_hire();
        if funds < cost || self.player.coins < cost {
            return Outcome::Rejected(Reason::InsufficientFunds);
        }
        self.player.coins = self.player.coins - cost;
        self.player.ship.crew = self.player.ship.crew_capacity;
        Outcome::Applied
    }
}

} // verus!
