//! The names of things, as a player reads and writes them.

use vstd::prelude::*;
use vstd::string::StringExecFns;
use std::string::ParseError;
use crate::model::{CargoKind, EnemyDistance, Nationality, PortLocation, ShipClass};

verus! {

/// Whether two texts are the same.
fn same_text(a: &str, b: &str) -> (r: bool)
    ensures
        r == (a@ == b@),
{
    String::from_str(a) == String::from_str(b)
}

impl Nationality {
    /// The name of the flag.
    pub open spec fn name(self) -> Seq<char> {
        match self {
            Nationality::British => "British"@,
            Nationality::Spanish => "Spanish"@,
            Nationality::French => "French"@,
        }
    }

    /// The flag that `name` names; any text that names none means British.
    pub open spec fn named(name: Seq<char>) -> Nationality {
        if name == "Spanish"@ {
            Nationality::Spanish
        } else if name == "French"@ {
            Nationality::French
        } else {
            Nationality::British
        }
    }

    /// The name of the flag.
    pub fn to_string(&self) -> (r: String)
        ensures
            r@ == self.name(),
    {
        match self {
            Nationality::British => String::from_str("British"),
            Nationality::Spanish => String::from_str("Spanish"),
            Nationality::French => String::from_str("French"),
        }
    }

    /// The flag that `name` names; any text that names none means British.
    pub fn from_name(name: &str) -> (r: Nationality)
        ensures
            r == Nationality::named(name@),
    {
        if same_text(name, "Spanish") {
            Nationality::Spanish
        } else if same_text(name, "French") {
            Nationality::French
        } else {
            Nationality::British
        }
    }

    /// Every flag is the one that its name names.
    pub proof fn lemma_name_round_trip(self)
        ensures
            Nationality::named(self.name()) == self,
    {
        reveal_strlit("British");
        reveal_strlit("Spanish");
        reveal_strlit("French");
        assert("British"@[0] != "Spanish"@[0]);
        assert("British"@[0] != "French"@[0]);
        assert("Spanish"@[0] != "French"@[0]);
    }
}

impl std::str::FromStr for Nationality {
    type Err = ParseError;

    fn from_str(s: &str) -> (r: Result<Self, Self::Err>)
        ensures
            r == Ok::<Nationality, ParseError>(Nationality::named(s@)),
    {
        Ok(Nationality::from_name(s))
    }
}

impl ShipClass {
    /// The name of the class.
    pub open spec fn name(self) -> Seq<char> {
        match self {
            ShipClass::Cutter => "Cutter"@,
            ShipClass::Sloop => "Sloop"@,
            ShipClass::Brig => "Brig"@,
            ShipClass::Junk => "Junk"@,
            ShipClass::Galleon => "Galleon"@,
            ShipClass::Frigate => "Frigate"@,
        }
    }

    /// The class that `name` names; any text that names none means a sloop.
    pub open spec fn named(name: Seq<char>) -> ShipClass {
        if name == "Cutter"@ {
            ShipClass::Cutter
        } else if name == "Brig"@ {
            ShipClass::Brig
        } else if name == "Junk"@ {
            ShipClass::Junk
        } else if name == "Galleon"@ {
            ShipClass::Galleon
        } else if name == "Frigate"@ {
            ShipClass::Frigate
        } else {
            ShipClass::Sloop
        }
    }

    /// The name of the class.
    pub fn to_string(&self) -> (r: String)
        ensures
            r@ == self.name(),
    {
        match self {
            ShipClass::Cutter => String::from_str("Cutter"),
            ShipClass::Sloop => String::from_str("Sloop"),
            ShipClass::Brig => String::from_str("Brig"),
            ShipClass::Junk => String::from_str("Junk"),
            ShipClass::Galleon => String::from_str("Galleon"),
            ShipClass::Frigate => String::from_str("Frigate"),
        }
    }

    /// The class that `name` names; any text that names none means a sloop.
    pub fn from_name(name: &str) -> (r: ShipClass)
        ensures
            r == ShipClass::named(name@),
    {
        if same_text(name, "Cutter") {
            ShipClass::Cutter
        } else if same_text(name, "Brig") {
            ShipClass::Brig
        } else if same_text(name, "Junk") {
            ShipClass::Junk
        } else if same_text(name, "Galleon") {
            ShipClass::Galleon
        } else if same_text(name, "Frigate") {
            ShipClass::Frigate
        } else {
            ShipClass::Sloop
        }
    }

    /// Every class is the one that its name names.
    pub proof fn lemma_name_round_trip(self)
        ensures
            ShipClass::named(self.name()) == self,
    {
        reveal_strlit("Cutter");
        reveal_strlit("Sloop");
        reveal_strlit("Brig");
        reveal_strlit("Junk");
        reveal_strlit("Galleon");
        reveal_strlit("Frigate");
        assert("Cutter"@.len() == 6 && "Sloop"@.len() == 5 && "Brig"@.len() == 4);
        assert("Junk"@.len() == 4 && "Galleon"@.len() == 7 && "Frigate"@.len() == 7);
        assert("Cutter"@[0] == 'C' && "Sloop"@[0] == 'S' && "Brig"@[0] == 'B');
        assert("Junk"@[0] == 'J' && "Galleon"@[0] == 'G' && "Frigate"@[0] == 'F');
    }
}

impl std::str::FromStr for ShipClass {
    type Err = ParseError;

    fn from_str(s: &str) -> (r: Result<Self, Self::Err>)
        ensures
            r == Ok::<ShipClass, ParseError>(ShipClass::named(s@)),
    {
        Ok(ShipClass::from_name(s))
    }
}

impl CargoKind {
    /// The name of the commodity.
    pub open spec fn name(self) -> Seq<char> {
        match self {
            CargoKind::Food => "Food"@,
            CargoKind::Wood => "Wood"@,
            CargoKind::Sugar => "Sugar"@,
        }
    }

    /// The name of the commodity.
    pub fn to_string(&self) -> (r: String)
        ensures
            r@ == self.name(),
    {
        match self {
            CargoKind::Food => String::from_str("Food"),
            CargoKind::Wood => String::from_str("Wood"),
            CargoKind::Sugar => String::from_str("Sugar"),
        }
    }
}

impl EnemyDistance {
    /// The name of the tier.
    pub open spec fn name(self) -> Seq<char> {
        match self {
            EnemyDistance::Escape => "Escape"@,
            EnemyDistance::Far => "Far"@,
            EnemyDistance::Close => "Close"@,
            EnemyDistance::Board => "Board"@,
        }
    }

    /// The name of the tier.
    pub fn to_string(&self) -> (r: String)
        ensures
            r@ == self.name(),
    {
        match self {
            EnemyDistance::Escape => String::from_str("Escape"),
            EnemyDistance::Far => String::from_str("Far"),
            EnemyDistance::Close => String::from_str("Close"),
            EnemyDistance::Board => String::from_str("Board"),
        }
    }
}

impl PortLocation {
    /// The name of the location, as the enumeration spells it.
    pub open spec fn name(self) -> Seq<char> {
        match self {
            PortLocation::Barbados => "Barbados"@,
            PortLocation::PortRoyal => "PortRoyal"@,
            PortLocation::Nassau => "Nassau"@,
        }
    }

    /// The name of the location, as the enumeration spells it.
    pub fn to_string(&self) -> (r: String)
        ensures
            r@ == self.name(),
    {
        match self {
            PortLocation::Barbados => String::from_str("Barbados"),
            PortLocation::PortRoyal => String::from_str("PortRoyal"),
            PortLocation::Nassau => String::from_str("Nassau"),
        }
    }
}

} // verus!
