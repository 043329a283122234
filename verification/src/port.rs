//! Ports and their stock for sale.

use vstd::prelude::*;
use vstd::string::StringExecFns;
use crate::cargo::{Cargo, Cargos, CargosView, CargoView};
use crate::model::{count_limit, CargoKind, Nationality, PortLocation, PortPopulation};

verus! {

/// A port: who lives there, and what it has for sale.
#[derive(Debug, PartialEq, Eq)]
pub struct Port {
    pub name: String,
    pub description: String,
    pub population: PortPopulation,
    pub nationality: Nationality,
    pub cargos: Cargos,
}

/// A `Port` with its texts as sequences of characters and unbounded stock.
pub struct PortView {
    pub name: Seq<char>,
    pub description: Seq<char>,
    pub population: PortPopulation,
    pub nationality: Nationality,
    pub cargos: CargosView,
}

impl View for Port {
    type V = PortView;

    open spec fn view(&self) -> PortView {
        PortView {
            name: self.name@,
            description: self.description@,
            population: self.population,
            nationality: self.nationality,
            cargos: self.cargos@,
        }
    }
}

impl Clone for Port {
    fn clone(&self) -> (r: Self)
        ensures
            r == *self,
    {
        Port {
            name: self.name.clone(),
            description: self.description.clone(),
            population: self.population,
            nationality: self.nationality,
            cargos: self.cargos,
        }
    }
}

impl Default for Port {
    fn default() -> (r: Self)
        ensures
            r@ == (PortView {
                name: Seq::empty(),
                description: Seq::empty(),
                population: PortPopulation::Medium,
                nationality: Nationality::British,
                cargos: CargosView::empty(),
            }),
    {
        Port {
            name: String::new(),
            description: String::new(),
            population: PortPopulation::Medium,
            nationality: Nationality::British,
            cargos: Cargos::default(),
        }
    }
}

/// What a port's wood and sugar are reset to when the market moves.
#[derive(Clone, Copy, Debug, PartialEq, Eq, Structural)]
pub struct Restock {
    pub wood_unit: i32,
    pub sugar_unit: i32,
    pub wood_price: i32,
    pub sugar_price: i32,
}

impl Restock {
    /// Every figure lies in the range the market draws it from.
    pub open spec fn in_range(self) -> bool {
        &&& 200 <= self.wood_unit <= 250
        &&& 120 <= self.sugar_unit <= 200
        &&& 18 <= self.wood_price <= 60
        &&& 18 <= self.sugar_price <= 90
    }
}

impl PortView {
    /// The stock owes nothing, no price is negative, and every figure is one
    /// that the state can hold.
    pub open spec fn wf(self) -> bool {
        self.cargos.no_debt() && self.cargos.priced() && self.cargos.within(count_limit())
    }

    /// The port after its wood and sugar were reset. Food is left alone.
    pub open spec fn restocked(self, r: Restock) -> PortView {
        PortView {
            cargos: CargosView {
                wood: CargoView {
                    unit: r.wood_unit as int,
                    price: r.wood_price as int,
                    ..self.cargos.wood
                },
                sugar: CargoView {
                    unit: r.sugar_unit as int,
                    price: r.sugar_price as int,
                    ..self.cargos.sugar
                },
                ..self.cargos
            },
            ..self
        }
    }

    /// The port at the start of a game.
    pub open spec fn opening(
        name: Seq<char>,
        population: PortPopulation,
        food: CargoView,
        wood: CargoView,
        sugar: CargoView,
    ) -> PortView {
        PortView {
            name,
            description: Seq::empty(),
            population,
            nationality: Nationality::British,
            cargos: CargosView { food, wood, sugar },
        }
    }
}

impl Port {
    /// Resets the wood and the sugar of the port.
    pub fn restock(&mut self, r: Restock)
        ensures
            final(self)@ == old(self)@.restocked(r),
    {
        self.cargos.wood.unit = r.wood_unit;
        self.cargos.wood.price = r.wood_price;
        self.cargos.sugar.unit = r.sugar_unit;
        self.cargos.sugar.price = r.sugar_price;
    }
}

/// The stock of one commodity at the start of a game.
pub open spec fn stocked(kind: CargoKind, price: int, unit: int) -> CargoView {
    CargoView { price, unit, kind }
}

/// Every port of the game, by its location.
#[derive(Debug, PartialEq, Eq)]
pub struct Ports {
    pub barbados: Port,
    pub port_royal: Port,
    pub nassau: Port,
}

/// A `Ports` of port views.
pub struct PortsView {
    pub barbados: PortView,
    pub port_royal: PortView,
    pub nassau: PortView,
}

impl View for Ports {
    type V = PortsView;

    open spec fn view(&self) -> PortsView {
        PortsView {
            barbados: self.barbados@,
            port_royal: self.port_royal@,
            nassau: self.nassau@,
        }
    }
}

impl Clone for Ports {
    fn clone(&self) -> (r: Self)
        ensures
            r == *self,
    {
        Ports {
            barbados: self.barbados.clone(),
            port_royal: self.port_royal.clone(),
            nassau: self.nassau.clone(),
        }
    }
}

impl PortsView {
    /// The port at `location`.
    pub open spec fn at(self, location: PortLocation) -> PortView {
        match location {
            PortLocation::Barbados => self.barbados,
            PortLocation::PortRoyal => self.port_royal,
            PortLocation::Nassau => self.nassau,
        }
    }

    /// The ports with `port` at `location`.
    pub open spec fn with_port(self, location: PortLocation, port: PortView) -> PortsView {
        match location {
            PortLocation::Barbados => PortsView { barbados: port, ..self },
            PortLocation::PortRoyal => PortsView { port_royal: port, ..self },
            PortLocation::Nassau => PortsView { nassau: port, ..self },
        }
    }

    /// The ports after `delta` units of `kind` came into the stock at
    /// `location` (or, if negative, went out).
    pub open spec fn moved(self, location: PortLocation, kind: CargoKind, delta: int) -> PortsView {
        let p = self.at(location);
        self.with_port(location, PortView { cargos: p.cargos.moved(kind, delta), ..p })
    }

    /// Every port is well formed.
    pub open spec fn wf(self) -> bool {
        self.barbados.wf() && self.port_royal.wf() && self.nassau.wf()
    }

    /// The ports as a game starts.
    pub open spec fn opening() -> PortsView {
        PortsView {
            barbados: PortView::opening(
                "Barbados"@,
                PortPopulation::Large,
                stocked(CargoKind::Food, 8, 250),
                stocked(CargoKind::Wood, 22, 250),
                stocked(CargoKind::Sugar, 30, 250),
            ),
            port_royal: PortView::opening(
                "Port Royal"@,
                PortPopulation::Huge,
                stocked(CargoKind::Food, 5, 250),
                stocked(CargoKind::Wood, 18, 210),
                stocked(CargoKind::Sugar, 50, 120),
            ),
            nassau: PortView::opening(
                "Nassau"@,
                PortPopulation::Medium,
                stocked(CargoKind::Food, 10, 250),
                stocked(CargoKind::Wood, 32, 150),
                stocked(CargoKind::Sugar, 20, 180),
            ),
        }
    }
}

/// Builds the port that `PortView::opening` describes.
fn open_port(name: &str, population: PortPopulation, food: Cargo, wood: Cargo, sugar: Cargo) -> (r:
    Port)
    ensures
        r@ == PortView::opening(name@, population, food@, wood@, sugar@),
{
    Port {
        name: String::from_str(name),
        description: String::new(),
        population,
        nationality: Nationality::British,
        cargos: Cargos { food, wood, sugar },
    }
}

impl Ports {
    /// The ports as a game starts.
    pub fn opening() -> (r: Ports)
        ensures
            r@ == PortsView::opening(),
    {
        Ports {
            barbados: open_port(
                "Barbados",
                PortPopulation::Large,
                Cargo { price: 8, unit: 250, kind: CargoKind::Food },
                Cargo { price: 22, unit: 250, kind: CargoKind::Wood },
                Cargo { price: 30, unit: 250, kind: CargoKind::Sugar },
            ),
            port_royal: open_port(
                "Port Royal",
                PortPopulation::Huge,
                Cargo { price: 5, unit: 250, kind: CargoKind::Food },
                Cargo { price: 18, unit: 210, kind: CargoKind::Wood },
                Cargo { price: 50, unit: 120, kind: CargoKind::Sugar },
            ),
            nassau: open_port(
                "Nassau",
                PortPopulation::Medium,
                Cargo { price: 10, unit: 250, kind: CargoKind::Food },
                Cargo { price: 32, unit: 150, kind: CargoKind::Wood },
                Cargo { price: 20, unit: 180, kind: CargoKind::Sugar },
            ),
        }
    }

    /// The port at `location`.
    pub fn get(&self, location: PortLocation) -> (r: &Port)
        ensures
            r@ == self@.at(location),
    {
        match location {
            PortLocation::Barbados => &self.barbados,
            PortLocation::PortRoyal => &self.port_royal,
            PortLocation::Nassau => &self.nassau,
        }
    }

    /// Moves `delta` units of `kind` into the stock at `location` (or, if
    /// negative, out of it). The new count must fit its field.
    pub fn shift(&mut self, location: PortLocation, kind: CargoKind, delta: i32)
        requires
            i32::MIN <= old(self)@.at(location).cargos.entry(kind).unit + delta <= i32::MAX,
        ensures
            final(self)@ == old(self)@.moved(location, kind, delta as int),
    {
        match location {
            PortLocation::Barbados => {
                self.barbados.cargos.shift(kind, delta);
            },
            PortLocation::PortRoyal => {
                self.port_royal.cargos.shift(kind, delta);
            },
            PortLocation::Nassau => {
                self.nassau.cargos.shift(kind, delta);
            },
        }
    }
}

} // verus!
