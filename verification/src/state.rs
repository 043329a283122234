//! The captain, the enemy, and the whole state of a game.

use vstd::prelude::*;
use vstd::string::StringExecFns;
use crate::model::{
    count_floor, count_limit, EnemyDistance, EnemyMovement, GameDate, GameLostReason, Nationality,
    PortLocation, Screen, ShipClass, ENEMY_FOOD_LIMIT, ENEMY_SUGAR_LIMIT, ENEMY_WOOD_LIMIT,
    MAXIMUM_PLAYER_AGE, MINIMUM_PLAYER_AGE, MINIMUM_SHIP_CREW, MINIMUM_SHIP_HULL,
};
use crate::port::{Port, Ports, PortsView};
use crate::ship::{Ship, ShipView};

verus! {

/// The coins a captain starts with.
pub const STARTING_COINS: i32 = 25_000;

/// The captain and what the captain owns.
#[derive(Debug, PartialEq, Eq)]
pub struct Player {
    pub name: String,
    pub age: i8,
    pub nationality: Nationality,
    pub coins: i32,
    pub ship: Ship,
}

/// A `Player` with unbounded counts and the name as a sequence of characters.
pub struct PlayerView {
    pub name: Seq<char>,
    pub age: int,
    pub nationality: Nationality,
    pub coins: int,
    pub ship: ShipView,
}

impl View for Player {
    type V = PlayerView;

    open spec fn view(&self) -> PlayerView {
        PlayerView {
            name: self.name@,
            age: self.age as int,
            nationality: self.nationality,
            coins: self.coins as int,
            ship: self.ship@,
        }
    }
}

impl Clone for Player {
    fn clone(&self) -> (r: Self)
        ensures
            r == *self,
    {
        Player {
            name: self.name.clone(),
            age: self.age,
            nationality: self.nationality,
            coins: self.coins,
            ship: self.ship.clone(),
        }
    }
}

impl PlayerView {
    /// The captain is of age and solvent, with no more coins than the state
    /// can hold; the ship is of its class, afloat, manned, and not
    /// overloaded.
    pub open spec fn wf(self) -> bool {
        &&& MINIMUM_PLAYER_AGE <= self.age <= MAXIMUM_PLAYER_AGE
        &&& 0 <= self.coins <= count_limit()
        &&& self.ship.fitted()
        &&& self.ship.afloat()
        &&& self.ship.manned()
        &&& self.ship.stowed()
    }

    /// The captain as a game starts.
    pub open spec fn opening() -> PlayerView {
        PlayerView {
            name: "Player"@,
            age: MINIMUM_PLAYER_AGE as int,
            nationality: Nationality::British,
            coins: STARTING_COINS as int,
            ship: ShipClass::Sloop.template().named("Luna"@),
        }
    }
}

impl Default for Player {
    fn default() -> (r: Self)
        ensures
            r@ == (PlayerView {
                name: Seq::empty(),
                age: 0,
                nationality: Nationality::British,
                coins: 0,
                ship: ShipView::blank(),
            }),
    {
        Player {
            name: String::new(),
            age: 0,
            nationality: Nationality::British,
            coins: 0,
            ship: Ship::default(),
        }
    }
}

impl Player {
    /// The captain as a game starts.
    pub fn opening() -> (r: Player)
        ensures
            r@ == PlayerView::opening(),
    {
        let mut ship = Ship::of_class(ShipClass::Sloop);
        ship.name = String::from_str("Luna");
        Player {
            name: String::from_str("Player"),
            age: MINIMUM_PLAYER_AGE,
            nationality: Nationality::British,
            coins: STARTING_COINS,
            ship,
        }
    }
}

/// The ship met at sea.
#[derive(Debug, PartialEq, Eq)]
pub struct Enemy {
    pub ship: Ship,
    pub nationality: Nationality,
    pub movement: EnemyMovement,
    pub distance: EnemyDistance,
}

/// An `Enemy` with the view of its ship.
pub struct EnemyView {
    pub ship: ShipView,
    pub nationality: Nationality,
    pub movement: EnemyMovement,
    pub distance: EnemyDistance,
}

impl View for Enemy {
    type V = EnemyView;

    open spec fn view(&self) -> EnemyView {
        EnemyView {
            ship: self.ship@,
            nationality: self.nationality,
            movement: self.movement,
            distance: self.distance,
        }
    }
}

impl Clone for Enemy {
    fn clone(&self) -> (r: Self)
        ensures
            r == *self,
    {
        Enemy {
            ship: self.ship.clone(),
            nationality: self.nationality,
            movement: self.movement,
            distance: self.distance,
        }
    }
}

impl Default for Enemy {
    fn default() -> (r: Self)
        ensures
            r@ == (EnemyView {
                ship: ShipView::blank(),
                nationality: Nationality::British,
                movement: EnemyMovement::Idle,
                distance: EnemyDistance::Far,
            }),
    {
        Enemy {
            ship: Ship::default(),
            nationality: Nationality::British,
            movement: EnemyMovement::Idle,
            distance: EnemyDistance::Far,
        }
    }
}

impl EnemyView {
    /// The enemy's ship is of its class and afloat, with no more hands than
    /// the class allows and no fewer than the state can hold. Its hold has no
    /// more of a commodity than an enemy is sighted with, and in total owes
    /// nothing. (One entry may be in debt: the rules let a captain take a
    /// commodity the enemy has none of.)
    pub open spec fn wf(self) -> bool {
        &&& self.ship.fitted()
        &&& self.ship.afloat()
        &&& count_floor() <= self.ship.crew <= self.ship.crew_capacity
        &&& self.ship.cargos.food.unit <= ENEMY_FOOD_LIMIT
        &&& self.ship.cargos.wood.unit <= ENEMY_WOOD_LIMIT
        &&& self.ship.cargos.sugar.unit <= ENEMY_SUGAR_LIMIT
        &&& self.ship.cargos.total_unit() >= 0
    }
}

/// The whole state of a game.
#[derive(Debug, PartialEq, Eq)]
pub struct Model {
    pub date: GameDate,
    pub current_screen: Screen,
    pub player: Player,
    pub ports: Ports,
    pub current_port_location: PortLocation,
    pub enemy: Option<Enemy>,
}

/// A `Model` of views.
pub struct ModelView {
    pub date: GameDate,
    pub current_screen: Screen,
    pub player: PlayerView,
    pub ports: PortsView,
    pub current_port_location: PortLocation,
    pub enemy: Option<EnemyView>,
}

/// The view of an enemy that may not be there.
pub open spec fn enemy_view(enemy: Option<Enemy>) -> Option<EnemyView> {
    match enemy {
        Some(e) => Some(e@),
        None => None,
    }
}

impl View for Model {
    type V = ModelView;

    open spec fn view(&self) -> ModelView {
        ModelView {
            date: self.date,
            current_screen: self.current_screen,
            player: self.player@,
            ports: self.ports@,
            current_port_location: self.current_port_location,
            enemy: enemy_view(self.enemy),
        }
    }
}

impl Clone for Model {
    fn clone(&self) -> (r: Self)
        ensures
            r == *self,
    {
        Model {
            date: self.date,
            current_screen: self.current_screen,
            player: self.player.clone(),
            ports: self.ports.clone(),
            current_port_location: self.current_port_location,
            enemy: match &self.enemy {
                Some(e) => Some(e.clone()),
                None => None,
            },
        }
    }
}

/// The day on which every game starts.
pub open spec fn opening_date() -> GameDate {
    GameDate { year: 1680, month: 1, day: 1 }
}

impl ModelView {
    /// What holds of every state that a game can reach: the captain, the
    /// ports and the enemy, if there is one, are well formed.
    pub open spec fn wf(self) -> bool {
        &&& self.player.wf()
        &&& self.ports.wf()
        &&& self.enemy matches Some(e) ==> e.wf()
    }

    /// The state in which every game starts.
    pub open spec fn opening() -> ModelView {
        ModelView {
            date: opening_date(),
            current_screen: Screen::MainMenu,
            player: PlayerView::opening(),
            ports: PortsView::opening(),
            current_port_location: PortLocation::PortRoyal,
            enemy: None,
        }
    }

    /// The state after a game was lost: the start of a game, but for the
    /// phase, which tells why it was lost.
    pub open spec fn lost(reason: GameLostReason) -> ModelView {
        ModelView { current_screen: Screen::GameLost(reason), ..ModelView::opening() }
    }
}

impl Ship {
    /// Whether the fixed figures of the ship are those of its class.
    pub fn is_fitted(&self) -> (r: bool)
        ensures
            r == self@.fitted(),
    {
        let t = Ship::of_class(self.class);
        self.cargos_capacity == t.cargos_capacity && self.crew_capacity == t.crew_capacity
            && self.hull_capacity == t.hull_capacity && self.cannons == t.cannons
            && self.cannons_capacity == t.cannons_capacity && self.price == t.price
    }
}

impl Player {
    /// Whether the captain is well formed.
    pub fn is_well_formed(&self) -> (r: bool)
        ensures
            r == self@.wf(),
    {
        let ship = &self.ship;
        let hold = &ship.cargos;
        MINIMUM_PLAYER_AGE <= self.age && self.age <= MAXIMUM_PLAYER_AGE && self.coins >= 0
            && ship.is_fitted() && MINIMUM_SHIP_HULL as i16 <= ship.hull && ship.hull
            <= ship.hull_capacity && MINIMUM_SHIP_CREW as i32 <= ship.crew && ship.crew
            <= ship.crew_capacity && hold.food.unit >= 0 && hold.wood.unit >= 0 && hold.sugar.unit
            >= 0 && hold.total_unit_wide() <= ship.cargos_capacity as i64
    }
}

impl Port {
    /// Whether the port is well formed.
    pub fn is_well_formed(&self) -> (r: bool)
        ensures
            r == self@.wf(),
    {
        let stock = &self.cargos;
        stock.food.unit >= 0 && stock.wood.unit >= 0 && stock.sugar.unit >= 0 && stock.food.price
            >= 0 && stock.wood.price >= 0 && stock.sugar.price >= 0
    }
}

impl Enemy {
    /// Whether the enemy is well formed.
    pub fn is_well_formed(&self) -> (r: bool)
        ensures
            r == self@.wf(),
    {
        let ship = &self.ship;
        let hold = &ship.cargos;
        ship.is_fitted() && MINIMUM_SHIP_HULL as i16 <= ship.hull && ship.hull
            <= ship.hull_capacity && ship.crew <= ship.crew_capacity && hold.food.unit
            <= ENEMY_FOOD_LIMIT && hold.wood.unit <= ENEMY_WOOD_LIMIT && hold.sugar.unit
            <= ENEMY_SUGAR_LIMIT && hold.total_unit_wide() >= 0
    }
}

impl Model {
    /// Whether the state is well formed. The reducer asks this of the state
    /// it is given.
    pub fn is_well_formed(&self) -> (r: bool)
        ensures
            r == self@.wf(),
    {
        self.player.is_well_formed() && self.ports.barbados.is_well_formed()
            && self.ports.port_royal.is_well_formed() && self.ports.nassau.is_well_formed()
            && match &self.enemy {
            Some(e) => e.is_well_formed(),
            None => true,
        }
    }

    /// Ends the game: everything goes back to the start of a game, but for
    /// the phase, which tells why the game was lost.
    pub fn lose(&mut self, reason: GameLostReason)
        ensures
            final(self)@ == ModelView::lost(reason),
            final(self)@.wf(),
    {
        *self = Model::default();
        self.current_screen = Screen::GameLost(reason);
    }
}

impl Default for Model {
    /// The state in which every game starts.
    fn default() -> (r: Self)
        ensures
            r@ == ModelView::opening(),
            r@.wf(),
    {
        Model {
            date: GameDate { year: 1680, month: 1, day: 1 },
            current_screen: Screen::MainMenu,
            player: Player::opening(),
            ports: Ports::opening(),
            current_port_location: PortLocation::PortRoyal,
            enemy: None,
        }
    }
}

} // verus!
