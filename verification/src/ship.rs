//! Ships, and the fixed figures of each class.

use vstd::prelude::*;
use crate::cargo::{Cargos, CargosView};
use crate::model::{CargoKind, ShipClass, MINIMUM_SHIP_CREW, MINIMUM_SHIP_HULL};

verus! {

/// What one point of hull costs to repair.
pub const HULL_POINT_COST: i32 = 25;

/// What one hand costs to hire.
pub const CREW_MEMBER_COST: i32 = 8;

/// A ship: its class, the fixed figures of that class, and what changes at
/// sea (crew, hull, hold).
#[derive(Debug, PartialEq, Eq)]
pub struct Ship {
    pub name: String,
    pub class: ShipClass,
    pub cargos: Cargos,
    pub cargos_capacity: i32,
    pub crew: i32,
    pub crew_capacity: i32,
    pub hull: i16,
    pub hull_capacity: i16,
    pub cannons: i16,
    pub cannons_capacity: i16,
    pub price: i32,
}

/// A `Ship` with unbounded counts and its name as a sequence of characters.
pub struct ShipView {
    pub name: Seq<char>,
    pub class: ShipClass,
    pub cargos: CargosView,
    pub cargos_capacity: int,
    pub crew: int,
    pub crew_capacity: int,
    pub hull: int,
    pub hull_capacity: int,
    pub cannons: int,
    pub cannons_capacity: int,
    pub price: int,
}

impl View for Ship {
    type V = ShipView;

    open spec fn view(&self) -> ShipView {
        ShipView {
            name: self.name@,
            class: self.class,
            cargos: self.cargos@,
            cargos_capacity: self.cargos_capacity as int,
            crew: self.crew as int,
            crew_capacity: self.crew_capacity as int,
            hull: self.hull as int,
            hull_capacity: self.hull_capacity as int,
            cannons: self.cannons as int,
            cannons_capacity: self.cannons_capacity as int,
            price: self.price as int,
        }
    }
}

impl Clone for Ship {
    fn clone(&self) -> (r: Self)
        ensures
            r == *self,
    {
        Ship {
            name: self.name.clone(),
            class: self.class,
            cargos: self.cargos,
            cargos_capacity: self.cargos_capacity,
            crew: self.crew,
            crew_capacity: self.crew_capacity,
            hull: self.hull,
            hull_capacity: self.hull_capacity,
            cannons: self.cannons,
            cannons_capacity: self.cannons_capacity,
            price: self.price,
        }
    }
}

impl ShipClass {
    /// The hands a ship of this class sails with.
    pub open spec fn complement(self) -> int {
        match self {
            ShipClass::Cutter => 8,
            ShipClass::Sloop => 14,
            ShipClass::Brig => 18,
            ShipClass::Junk => 24,
            ShipClass::Galleon => 32,
            ShipClass::Frigate => 40,
        }
    }

    /// The hull points of an undamaged ship of this class.
    pub open spec fn hull_points(self) -> int {
        match self {
            ShipClass::Cutter => 40,
            ShipClass::Sloop => 62,
            ShipClass::Brig => 70,
            ShipClass::Junk => 70,
            ShipClass::Galleon => 90,
            ShipClass::Frigate => 140,
        }
    }

    /// The cannons of a ship of this class.
    pub open spec fn guns(self) -> int {
        match self {
            ShipClass::Cutter => 8,
            ShipClass::Sloop => 8,
            ShipClass::Brig => 10,
            ShipClass::Junk => 6,
            ShipClass::Galleon => 10,
            ShipClass::Frigate => 14,
        }
    }

    /// The units of cargo a ship of this class can carry.
    pub open spec fn hold(self) -> int {
        match self {
            ShipClass::Cutter => 32,
            ShipClass::Sloop => 46,
            ShipClass::Brig => 70,
            ShipClass::Junk => 80,
            ShipClass::Galleon => 210,
            ShipClass::Frigate => 150,
        }
    }

    /// What a yard asks for a ship of this class.
    pub open spec fn price(self) -> int {
        match self {
            ShipClass::Cutter => 2100,
            ShipClass::Sloop => 3200,
            ShipClass::Brig => 5000,
            ShipClass::Junk => 5500,
            ShipClass::Galleon => 10_000,
            ShipClass::Frigate => 35_000,
        }
    }

    /// The food a yard puts aboard a new ship of this class.
    pub open spec fn provisions(self) -> int {
        match self {
            ShipClass::Cutter => 12,
            ShipClass::Sloop => 19,
            ShipClass::Brig => 32,
            ShipClass::Junk => 36,
            ShipClass::Galleon => 60,
            ShipClass::Frigate => 42,
        }
    }

    /// The ship that a yard delivers for this class: nameless, with full
    /// crew, hull and guns, and only food in the hold.
    pub open spec fn template(self) -> ShipView {
        ShipView {
            name: Seq::empty(),
            class: self,
            cargos: CargosView::empty().with_unit(CargoKind::Food, self.provisions()),
            cargos_capacity: self.hold(),
            crew: self.complement(),
            crew_capacity: self.complement(),
            hull: self.hull_points(),
            hull_capacity: self.hull_points(),
            cannons: self.guns(),
            cannons_capacity: self.guns(),
            price: self.price(),
        }
    }
}

impl ShipView {
    /// A nameless sloop with nothing aboard and every figure at zero.
    pub open spec fn blank() -> ShipView {
        ShipView {
            name: Seq::empty(),
            class: ShipClass::Sloop,
            cargos: CargosView::empty(),
            cargos_capacity: 0,
            crew: 0,
            crew_capacity: 0,
            hull: 0,
            hull_capacity: 0,
            cannons: 0,
            cannons_capacity: 0,
            price: 0,
        }
    }

    /// The ship under another name.
    pub open spec fn named(self, name: Seq<char>) -> ShipView {
        ShipView { name, ..self }
    }

    /// `hull_capacity - hull`, priced per point.
    pub open spec fn cost_to_repair(self) -> int {
        HULL_POINT_COST * (self.hull_capacity - self.hull)
    }

    /// `crew_capacity - crew`, priced per head.
    pub open spec fn cost_to_hire(self) -> int {
        CREW_MEMBER_COST * (self.crew_capacity - self.crew)
    }

    /// The fixed figures are those of the ship's class.
    pub open spec fn fitted(self) -> bool {
        &&& self.cargos_capacity == self.class.hold()
        &&& self.crew_capacity == self.class.complement()
        &&& self.hull_capacity == self.class.hull_points()
        &&& self.cannons == self.class.guns()
        &&& self.cannons_capacity == self.class.guns()
        &&& self.price == self.class.price()
    }

    /// The ship floats: its hull is at the minimum or above, and not above
    /// what the class allows.
    pub open spec fn afloat(self) -> bool {
        MINIMUM_SHIP_HULL <= self.hull <= self.hull_capacity
    }

    /// The ship can fight: its crew is at the minimum or above, and not above
    /// what the class allows.
    pub open spec fn manned(self) -> bool {
        MINIMUM_SHIP_CREW <= self.crew <= self.crew_capacity
    }

    /// The hold owes nothing and holds no more than the ship can carry.
    pub open spec fn stowed(self) -> bool {
        self.cargos.no_debt() && self.cargos.total_unit() <= self.cargos_capacity
    }
}

impl Default for Ship {
    fn default() -> (r: Self)
        ensures
            r@ == ShipView::blank(),
    {
        Ship {
            name: String::new(),
            class: ShipClass::Sloop,
            cargos: Cargos::default(),
            cargos_capacity: 0,
            crew: 0,
            crew_capacity: 0,
            hull: 0,
            hull_capacity: 0,
            cannons: 0,
            cannons_capacity: 0,
            price: 0,
        }
    }
}

/// Builds a new ship from the figures of its class.
fn build_ship(
    class: ShipClass,
    crew: i32,
    hull: i16,
    cannons: i16,
    cargos_capacity: i32,
    price: i32,
    food: i32,
) -> (r: Ship)
    requires
        crew == class.complement(),
        hull == class.hull_points(),
        cannons == class.guns(),
        cargos_capacity == class.hold(),
        price == class.price(),
        food == class.provisions(),
    ensures
        r@ == class.template(),
{
    let mut cargos = Cargos::default();
    cargos.set_unit(CargoKind::Food, food);
    Ship {
        name: String::new(),
        class,
        cargos,
        cargos_capacity,
        crew,
        crew_capacity: crew,
        hull,
        hull_capacity: hull,
        cannons,
        cannons_capacity: cannons,
        price,
    }
}

impl Ship {
    /// A new ship of the given class: nameless, fully manned, undamaged, with
    /// the food that the yard puts aboard.
    pub fn of_class(class: ShipClass) -> (r: Ship)
        ensures
            r@ == class.template(),
    {
        match class {
            ShipClass::Cutter => build_ship(class, 8, 40, 8, 32, 2100, 12),
            ShipClass::Sloop => build_ship(class, 14, 62, 8, 46, 3200, 19),
            ShipClass::Brig => build_ship(class, 18, 70, 10, 70, 5000, 32),
            ShipClass::Junk => build_ship(class, 24, 70, 6, 80, 5500, 36),
            ShipClass::Galleon => build_ship(class, 32, 90, 10, 210, 10_000, 60),
            ShipClass::Frigate => build_ship(class, 40, 140, 14, 150, 35_000, 42),
        }
    }

    /// What it costs to bring the hull back to its capacity.
    pub fn cost_to_repair(&self) -> (r: i32)
        ensures
            r == self@.cost_to_repair(),
    {
        let missing: i32 = self.hull_capacity as i32 - self.hull as i32;
        HULL_POINT_COST * missing
    }

    /// What it costs to bring the crew back to its capacity. The cost must
    /// fit the result.
    pub fn cost_to_hire(&self) -> (r: i32)
        requires
            i32::MIN <= self@.cost_to_hire() <= i32::MAX,
        ensures
            r == self@.cost_to_hire(),
    {
        let missing: i64 = self.crew_capacity as i64 - self.crew as i64;
        (CREW_MEMBER_COST as i64 * missing) as i32
    }
}

} // verus!
