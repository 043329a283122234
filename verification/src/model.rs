//! The game state: what a captain, a ship, a port and an encounter hold.
//!
//! Every state type has a mathematical view, in which counts are unbounded
//! integers and texts are sequences of characters. The rules of the game are
//! stated over those views.

use vstd::prelude::*;

verus! {

/// A player whose food drops below this many units faces a mutiny.
pub const MINIMUM_PLAYER_FOOD: i8 = 4;

/// A ship with fewer hull points than this is sunk.
pub const MINIMUM_SHIP_HULL: i8 = 2;

/// A ship with fewer hands than this can no longer fight.
pub const MINIMUM_SHIP_CREW: i8 = 2;

/// The youngest captain the game accepts.
pub const MINIMUM_PLAYER_AGE: i8 = 18;

/// The oldest captain the game accepts.
pub const MAXIMUM_PLAYER_AGE: i8 = 65;

/// The most food a sighted enemy carries.
pub const ENEMY_FOOD_LIMIT: i32 = 8;

/// The most wood a sighted enemy carries.
pub const ENEMY_WOOD_LIMIT: i32 = 8;

/// The most sugar a sighted enemy carries.
pub const ENEMY_SUGAR_LIMIT: i32 = 10;

/// The largest count a field of the state can hold.
pub open spec fn count_limit() -> int {
    i32::MAX as int
}

/// The smallest count a field of the state can hold.
pub open spec fn count_floor() -> int {
    i32::MIN as int
}

/// Why a game was lost.
#[derive(Clone, Copy, Debug, PartialEq, Eq, Structural)]
pub enum GameLostReason {
    ShipSunk,
    AllCrewDied,
    FoodMutiny,
}

impl Default for GameLostReason {
    fn default() -> (r: Self)
        ensures
            r == GameLostReason::ShipSunk,
    {
        GameLostReason::ShipSunk
    }
}

/// The phase of the game. The reducer reads it to decide which commands
/// apply; everything else about it belongs to the presentation.
#[derive(Clone, Copy, Debug, PartialEq, Eq, Structural)]
pub enum Screen {
    MainNavigation,
    About,
    MainMenu,
    NewCharacter,
    Profile,
    Dock,
    DockTavern,
    TavernHireCrew,
    DockMarket,
    DockShipyard,
    Skirmish,
    SkirmishChase,
    SkirmishBattle,
    SkirmishLoot,
    GameLost(GameLostReason),
}

impl Default for Screen {
    fn default() -> (r: Self)
        ensures
            r == Screen::MainMenu,
    {
        Screen::MainMenu
    }
}

/// The flag a captain, a port or an enemy sails under.
#[derive(Clone, Copy, Debug, PartialEq, Eq, Structural)]
pub enum Nationality {
    British,
    Spanish,
    French,
}

impl Default for Nationality {
    fn default() -> (r: Self)
        ensures
            r == Nationality::British,
    {
        Nationality::British
    }
}

/// The three commodities of the game.
#[derive(Clone, Copy, Debug, PartialEq, Eq, Structural)]
pub enum CargoKind {
    Food,
    Wood,
    Sugar,
}

impl Default for CargoKind {
    fn default() -> (r: Self)
        ensures
            r == CargoKind::Food,
    {
        CargoKind::Food
    }
}

/// The classes of ship, each with fixed base figures and a price.
#[derive(Clone, Copy, Debug, Hash, PartialEq, Eq, Structural)]
pub enum ShipClass {
    Cutter,
    Sloop,
    Brig,
    Junk,
    Galleon,
    Frigate,
}

impl Default for ShipClass {
    fn default() -> (r: Self)
        ensures
            r == ShipClass::Sloop,
    {
        ShipClass::Sloop
    }
}

/// What an enemy seems to be doing. Shown to the player; no rule reads it.
#[derive(Clone, Copy, Debug, PartialEq, Eq, Structural)]
pub enum EnemyMovement {
    Chase,
    Idle,
    Evade,
}

impl Default for EnemyMovement {
    fn default() -> (r: Self)
        ensures
            r == EnemyMovement::Idle,
    {
        EnemyMovement::Idle
    }
}

/// How far off the enemy is. The tier decides what a chase command does.
#[derive(Clone, Copy, Debug, PartialEq, Eq, Structural)]
pub enum EnemyDistance {
    Escape,
    Far,
    Close,
    Board,
}

impl Default for EnemyDistance {
    fn default() -> (r: Self)
        ensures
            r == EnemyDistance::Far,
    {
        EnemyDistance::Far
    }
}

/// How many people live in a port.
#[derive(Clone, Copy, Debug, PartialEq, Eq, Structural)]
pub enum PortPopulation {
    Small,
    Medium,
    Large,
    Huge,
}

impl Default for PortPopulation {
    fn default() -> (r: Self)
        ensures
            r == PortPopulation::Medium,
    {
        PortPopulation::Medium
    }
}

/// The ports of the game. The set is fixed.
#[derive(Clone, Copy, Debug, Hash, PartialEq, Eq, Structural)]
pub enum PortLocation {
    Barbados,
    PortRoyal,
    Nassau,
}

impl Default for PortLocation {
    fn default() -> (r: Self)
        ensures
            r == PortLocation::PortRoyal,
    {
        PortLocation::PortRoyal
    }
}

/// A calendar day, held as its year, month and day of the month.
#[derive(Clone, Copy, Debug, PartialEq, Eq, Structural)]
pub struct GameDate {
    pub year: i32,
    pub month: u32,
    pub day: u32,
}

} // verus!
