//! The commands a player can give, and what becomes of one.

use vstd::prelude::*;
use crate::cargo::Cargo;
use crate::model::{CargoKind, PortLocation, Screen, ShipClass};

verus! {

/// A command. `BuyCargo` and `SellCargo` carry the commodity as the player
/// saw it when giving the command: its price is the price that is paid.
/// `RepairShip` and `HireCrew` carry the funds the player offers.
#[derive(Clone, Copy, Debug, PartialEq, Eq, Structural)]
pub enum Msg {
    ResetModel,
    SwitchScreen(Screen),
    SwitchPlayerLocation(PortLocation),
    BuyCargo(PortLocation, Cargo),
    SellCargo(PortLocation, Cargo),
    SkirmishChaseClose,
    SkirmishChaseDistant,
    SkirmishChaseBroadside,
    SkirmishBattleSwingSword,
    SkirmishBattleShootFalconet,
    RepairShip(i32),
    HireCrew(i32),
    TakeEnemyCargo(CargoKind),
    BuyAndReplaceShip(ShipClass),
}

/// Why a command changed nothing.
#[derive(Clone, Copy, Debug, PartialEq, Eq, Structural)]
pub enum Reason {
    /// The ship is already in the port it was told to sail to.
    AlreadyThere,
    /// The coins at hand, or the funds offered, do not cover the price.
    InsufficientFunds,
    /// The hold is full.
    InsufficientCargoSpace,
    /// The side that is to give a unit has none.
    InsufficientStock,
    /// There is no enemy in sight.
    NoEnemy,
    /// The command belongs to another phase of the game.
    WrongPhase,
    /// The ships are side by side; the guns are of no use.
    AlreadyBoarded,
    /// The player was asked to confirm and did not.
    Declined,
    /// A count would leave the range the state can hold.
    LimitReached,
}

/// What became of a command.
#[derive(Clone, Copy, Debug, PartialEq, Eq, Structural)]
pub enum Outcome {
    /// The command took effect.
    Applied,
    /// The command changed nothing.
    Rejected(Reason),
}

/// What the player must be asked before a command is applied.
#[derive(Clone, Copy, Debug, PartialEq, Eq, Structural)]
pub enum Prompt {
    /// Whether to throw the game away and start again.
    ConfirmReset,
    /// Whether to buy a ship of the class.
    ConfirmPurchase(ShipClass),
}

} // verus!
