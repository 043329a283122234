//! Making a captain: the age a player enters, and the ship a player picks.

use vstd::prelude::*;
use crate::model::{ShipClass, MAXIMUM_PLAYER_AGE, MINIMUM_PLAYER_AGE};
use crate::ship::Ship;
use crate::state::{Player, PlayerView};

verus! {

/// The number that a text spells, if it spells one that fits eight bits with
/// a sign; `None` if it does not.
pub uninterp spec fn parsed_age(text: Seq<char>) -> Option<i8>;

/// Calls `str::parse::<i8>` on `text` and drops the error, if there is one. The contract
/// claims that the result is a function of the text alone, which it names
/// `parsed_age`; it claims nothing about which texts spell which number.
#[verifier::external_body]
fn parse_age(text: &str) -> (r: Option<i8>)
    ensures
        r == parsed_age(text@),
{
    match text.parse::<i8>() {
        Ok(age) => Some(age),
        Err(_) => None,
    }
}

/// What became of an age that a player entered.
#[derive(Clone, Copy, Debug, PartialEq, Eq, Structural)]
pub enum AgeEntry {
    /// The age is in range, and is now the captain's.
    Accepted,
    /// The age is out of range; the captain now has the minimum age.
    OutOfRange,
    /// What was entered is no number; the captain's age is as before.
    NotANumber,
}

impl PlayerView {
    /// The captain after `entry` was entered as the age.
    pub open spec fn aged(self, entry: Option<i8>) -> PlayerView {
        match entry {
            Some(age) => if MINIMUM_PLAYER_AGE <= age <= MAXIMUM_PLAYER_AGE {
                PlayerView { age: age as int, ..self }
            } else {
                PlayerView { age: MINIMUM_PLAYER_AGE as int, ..self }
            },
            None => self,
        }
    }

    /// The captain in command of a new ship of `class`, under the old ship's
    /// name.
    pub open spec fn in_command_of(self, class: ShipClass) -> PlayerView {
        PlayerView { ship: class.template().named(self.ship.name), ..self }
    }
}

/// What is answered to `entry`, entered as an age.
pub open spec fn age_entry(entry: Option<i8>) -> AgeEntry {
    match entry {
        Some(age) => if MINIMUM_PLAYER_AGE <= age <= MAXIMUM_PLAYER_AGE {
            AgeEntry::Accepted
        } else {
            AgeEntry::OutOfRange
        },
        None => AgeEntry::NotANumber,
    }
}

impl Player {
    /// Takes `entry` as the captain's age: an age in range is accepted, one
    /// out of range gives the minimum age, and no number changes nothing.
    pub fn enter_age(&mut self, entry: Option<i8>) -> (r: AgeEntry)
        ensures
            final(self)@ == old(self)@.aged(entry),
            r == age_entry(entry),
            old(self)@.wf() ==> final(self)@.wf(),
    {
        match entry {
            Some(age) => {
                if MINIMUM_PLAYER_AGE <= age && age <= MAXIMUM_PLAYER_AGE {
                    self.age = age;
                    AgeEntry::Accepted
                } else {
                    self.age = MINIMUM_PLAYER_AGE;
                    AgeEntry::OutOfRange
                }
            },
            None => AgeEntry::NotANumber,
        }
    }

    /// Takes the number that `text` spells as the captain's age.
    pub fn enter_age_text(&mut self, text: &str) -> (r: AgeEntry)
        ensures
            final(self)@ == old(self)@.aged(parsed_age(text@)),
            r == age_entry(parsed_age(text@)),
            old(self)@.wf() ==> final(self)@.wf(),
    {
        self.enter_age(parse_age(text))
    }

    /// Puts the captain in command of a new ship of `class`, under the old
    /// ship's name. Nothing is paid and nothing is carried over.
    pub fn choose_ship(&mut self, class: ShipClass)
        ensures
            final(self)@ == old(self)@.in_command_of(class),
            old(self)@.wf() ==> final(self)@.wf(),
    {
        let mut ship = Ship::of_class(class);
        ship.name = self.ship.name.clone();
        self.ship = ship;
    }
}

} // verus!
