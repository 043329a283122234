//! Commodities: one entry of a hold, and the hold of three entries.

use vstd::prelude::*;
use crate::model::CargoKind;

verus! {

/// One commodity in a hold: how many units, and what a unit costs. The price
/// means something in a port's stock only.
#[derive(Clone, Copy, Debug, PartialEq, Eq, Structural)]
pub struct Cargo {
    pub price: i32,
    pub unit: i32,
    pub kind: CargoKind,
}

/// A `Cargo` with unbounded counts.
pub struct CargoView {
    pub price: int,
    pub unit: int,
    pub kind: CargoKind,
}

impl View for Cargo {
    type V = CargoView;

    open spec fn view(&self) -> CargoView {
        CargoView { price: self.price as int, unit: self.unit as int, kind: self.kind }
    }
}

impl Default for Cargo {
    fn default() -> (r: Self)
        ensures
            r@ == (CargoView { price: 0, unit: 0, kind: CargoKind::Food }),
    {
        Cargo { price: 0, unit: 0, kind: CargoKind::Food }
    }
}

/// A hold: one entry for each commodity.
#[derive(Clone, Copy, Debug, PartialEq, Eq, Structural)]
pub struct Cargos {
    pub food: Cargo,
    pub wood: Cargo,
    pub sugar: Cargo,
}

/// A `Cargos` with unbounded counts.
pub struct CargosView {
    pub food: CargoView,
    pub wood: CargoView,
    pub sugar: CargoView,
}

impl View for Cargos {
    type V = CargosView;

    open spec fn view(&self) -> CargosView {
        CargosView { food: self.food@, wood: self.wood@, sugar: self.sugar@ }
    }
}

impl CargosView {
    /// A hold with nothing in it and nothing priced.
    pub open spec fn empty() -> CargosView {
        CargosView {
            food: CargoView { price: 0, unit: 0, kind: CargoKind::Food },
            wood: CargoView { price: 0, unit: 0, kind: CargoKind::Wood },
            sugar: CargoView { price: 0, unit: 0, kind: CargoKind::Sugar },
        }
    }

    /// All the units in the hold, whatever their kind.
    pub open spec fn total_unit(self) -> int {
        self.food.unit + self.wood.unit + self.sugar.unit
    }

    /// The entry that holds `kind`.
    pub open spec fn entry(self, kind: CargoKind) -> CargoView {
        match kind {
            CargoKind::Food => self.food,
            CargoKind::Wood => self.wood,
            CargoKind::Sugar => self.sugar,
        }
    }

    /// The hold with `unit` units of `kind`; prices and the other entries stay.
    pub open spec fn with_unit(self, kind: CargoKind, unit: int) -> CargosView {
        match kind {
            CargoKind::Food => CargosView { food: CargoView { unit, ..self.food }, ..self },
            CargoKind::Wood => CargosView { wood: CargoView { unit, ..self.wood }, ..self },
            CargoKind::Sugar => CargosView { sugar: CargoView { unit, ..self.sugar }, ..self },
        }
    }

    /// The hold after `delta` units of `kind` came in (or, if negative, went out).
    pub open spec fn moved(self, kind: CargoKind, delta: int) -> CargosView {
        self.with_unit(kind, self.entry(kind).unit + delta)
    }

    /// No entry holds a negative number of units.
    pub open spec fn no_debt(self) -> bool {
        self.food.unit >= 0 && self.wood.unit >= 0 && self.sugar.unit >= 0
    }

    /// No entry has a negative price.
    pub open spec fn priced(self) -> bool {
        self.food.price >= 0 && self.wood.price >= 0 && self.sugar.price >= 0
    }

    /// No count and no price is above `limit`.
    pub open spec fn within(self, limit: int) -> bool {
        &&& self.food.unit <= limit && self.wood.unit <= limit && self.sugar.unit <= limit
        &&& self.food.price <= limit && self.wood.price <= limit && self.sugar.price <= limit
    }
}

impl Default for Cargos {
    fn default() -> (r: Self)
        ensures
            r@ == CargosView::empty(),
    {
        Cargos {
            food: Cargo { price: 0, unit: 0, kind: CargoKind::Food },
            wood: Cargo { price: 0, unit: 0, kind: CargoKind::Wood },
            sugar: Cargo { price: 0, unit: 0, kind: CargoKind::Sugar },
        }
    }
}

impl Cargos {
    /// All the units in the hold, in a number wide enough for any hold.
    pub fn total_unit_wide(&self) -> (r: i64)
        ensures
            r == self@.total_unit(),
    {
        self.food.unit as i64 + self.wood.unit as i64 + self.sugar.unit as i64
    }

    /// All the units in the hold. The sum must fit the result.
    pub fn total_unit(&self) -> (r: i32)
        requires
            i32::MIN <= self@.total_unit() <= i32::MAX,
        ensures
            r == self@.total_unit(),
    {
        self.total_unit_wide() as i32
    }

    /// The entry that holds `kind`.
    pub fn entry(&self, kind: CargoKind) -> (r: Cargo)
        ensures
            r@ == self@.entry(kind),
    {
        match kind {
            CargoKind::Food => self.food,
            CargoKind::Wood => self.wood,
            CargoKind::Sugar => self.sugar,
        }
    }

    /// Sets the number of units of `kind`; prices and the other entries stay.
    pub fn set_unit(&mut self, kind: CargoKind, unit: i32)
        ensures
            final(self)@ == old(self)@.with_unit(kind, unit as int),
    {
        match kind {
            CargoKind::Food => {
                self.food.unit = unit;
            },
            CargoKind::Wood => {
                self.wood.unit = unit;
            },
            CargoKind::Sugar => {
                self.sugar.unit = unit;
            },
        }
    }
}

impl Cargos {
    /// Moves `delta` units of `kind` in (or, if negative, out). The new count
    /// must fit its field.
    pub fn shift(&mut self, kind: CargoKind, delta: i32)
        requires
            i32::MIN <= old(self)@.entry(kind).unit + delta <= i32::MAX,
        ensures
            final(self)@ == old(self)@.moved(kind, delta as int),
    {
        match kind {
            CargoKind::Food => {
                self.food.unit = self.food.unit + delta;
            },
            CargoKind::Wood => {
                self.wood.unit = self.wood.unit + delta;
            },
            CargoKind::Sugar => {
                self.sugar.unit = self.sugar.unit + delta;
            },
        }
    }
}

} // verus!
