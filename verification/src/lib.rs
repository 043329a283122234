//! The simulation core of a pirate-trading game: a turn-based economy and a
//! sea-encounter state machine, driven by one reducer that applies a player's
//! commands to the game state.
//!
//! `rules` says what each command does, over the mathematical view of the
//! state; `economy`, `encounter` and `reducer` do it; `laws` proves what
//! holds of every state a game can reach.

pub mod calendar;
pub mod cargo;
pub mod cases;
pub mod chance;
pub mod character;
pub mod command;
pub mod dice;
pub mod economy;
pub mod encounter;
pub mod laws;
pub mod model;
pub mod names;
pub mod port;
pub mod reducer;
pub mod rules;
pub mod ship;
pub mod state;

pub use cargo::{Cargo, Cargos};
pub use chance::{Chance, Maneuver, Melee, Sighting, Volley, Voyage, Weapon};
pub use character::AgeEntry;
pub use command::{Msg, Outcome, Prompt, Reason};
pub use model::{
    CargoKind, EnemyDistance, EnemyMovement, GameDate, GameLostReason, Nationality, PortLocation,
    PortPopulation, Screen, ShipClass, MAXIMUM_PLAYER_AGE, MINIMUM_PLAYER_AGE,
    MINIMUM_PLAYER_FOOD, MINIMUM_SHIP_CREW, MINIMUM_SHIP_HULL,
};
pub use port::{Port, Ports, Restock};
pub use ship::Ship;
pub use state::{Enemy, Model, Player};
