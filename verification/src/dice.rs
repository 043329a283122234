//! Where chance comes from: the draws that a command needs, made with the
//! thread's random number generator.

use vstd::prelude::*;
use vstd::string::StringExecFns;
use rand::seq::SliceRandom;
use rand::Rng;
use crate::calendar::{days_later, ymd_of};
use crate::chance::{
    enemy_names, least_damage, most_damage, Chance, Maneuver, Melee, Sighting, Volley, Voyage,
    Weapon, LONGEST_VOYAGE, SHORTEST_VOYAGE,
};
use crate::command::Msg;
use crate::model::{
    EnemyDistance, GameDate, Nationality, Screen, ShipClass, ENEMY_FOOD_LIMIT, ENEMY_SUGAR_LIMIT,
    ENEMY_WOOD_LIMIT,
};
use crate::port::Restock;
use crate::rules;
use crate::state::Model;

verus! {

/// Calls `rand::Rng::gen_range` on `rand::thread_rng()` with the inclusive
/// range from `low` to `high`. The contract claims that the result lies in
/// that range, and nothing about which number it is. The range must not be
/// empty: the outside function panics on an empty one.
#[verifier::external_body]
fn random_between(low: i32, high: i32) -> (r: i32)
    requires
        low <= high,
    ensures
        low <= r <= high,
{
    rand::thread_rng().gen_range(low..=high)
}

/// Calls `rand::seq::SliceRandom::choose` on `items` with
/// `rand::thread_rng()`. The contract claims that an empty slice gives
/// `None` and any other slice one of its elements, and nothing about which.
#[verifier::external_body]
fn random_element<'a, T>(items: &'a [T]) -> (r: Option<&'a T>)
    ensures
        items@.len() == 0 ==> r is None,
        items@.len() > 0 ==> r is Some && items@.contains(*r->0),
{
    items.choose(&mut rand::thread_rng())
}

/// One of `sequence`, picked at random; `default` if there is none to pick.
pub fn choice_of<T: Copy>(sequence: &[T], default: &T) -> (r: T)
    ensures
        sequence@.len() == 0 ==> r == *default,
        sequence@.len() > 0 ==> sequence@.contains(r),
{
    match random_element(sequence) {
        Some(item) => *item,
        None => *default,
    }
}

impl ShipClass {
    /// Every class of ship.
    pub fn all() -> (r: Vec<ShipClass>)
        ensures
            r@ == seq![
                ShipClass::Cutter,
                ShipClass::Sloop,
                ShipClass::Brig,
                ShipClass::Junk,
                ShipClass::Galleon,
                ShipClass::Frigate,
            ],
    {
        vec![
            ShipClass::Cutter,
            ShipClass::Sloop,
            ShipClass::Brig,
            ShipClass::Junk,
            ShipClass::Galleon,
            ShipClass::Frigate,
        ]
    }
}

impl Nationality {
    /// Every flag.
    pub fn all() -> (r: Vec<Nationality>)
        ensures
            r@ == seq![Nationality::British, Nationality::Spanish, Nationality::French],
    {
        vec![Nationality::British, Nationality::Spanish, Nationality::French]
    }
}

/// Draws the new wood and sugar of one port.
pub fn draw_restock() -> (r: Restock)
    ensures
        r.in_range(),
{
    let wood_unit = random_between(200, 250);
    let sugar_unit = random_between(120, 200);
    let wood_price = random_between(18, 60);
    let sugar_price = random_between(18, 90);
    Restock { wood_unit, sugar_unit, wood_price, sugar_price }
}

/// Draws a voyage that starts on `date`: it takes between one and nine days.
pub fn draw_voyage(date: GameDate) -> (r: Voyage)
    ensures
        r.in_range(),
        exists|days: int|
            SHORTEST_VOYAGE <= days <= LONGEST_VOYAGE && #[trigger] date.after(days) == ymd_of(
                r.arrival,
            ),
{
    let days = random_between(SHORTEST_VOYAGE as i32, LONGEST_VOYAGE as i32) as i64;
    let arrival = days_later(date, days);
    assert(date.after(days as int) == ymd_of(arrival));
    let barbados = draw_restock();
    let port_royal = draw_restock();
    let nassau = draw_restock();
    let food_eaten = random_between(0, 1);
    Voyage { arrival, barbados, port_royal, nassau, food_eaten }
}

/// Draws the name of an enemy ship.
pub fn draw_enemy_name() -> (r: String)
    ensures
        enemy_names().contains(r@),
{
    let names: [&'static str; 5] = [
        "Shady Wave",
        "Palm West",
        "Southern Seas",
        "Morning Star",
        "Blue Ocean",
    ];
    let name = choice_of(names.as_slice(), &names[0]);
    let ghost i = choose|i: int| 0 <= i < 5 && names@[i] == name;
    assert(enemy_names()[i] == name@);
    String::from_str(name)
}

/// Draws the enemy that comes into sight.
pub fn draw_sighting() -> (r: Sighting)
    ensures
        r.in_range(),
{
    let classes = ShipClass::all();
    let flags = Nationality::all();
    let class = choice_of(classes.as_slice(), &ShipClass::Sloop);
    let nationality = choice_of(flags.as_slice(), &Nationality::British);
    let name = draw_enemy_name();
    let food = random_between(1, ENEMY_FOOD_LIMIT);
    let wood = random_between(1, ENEMY_WOOD_LIMIT);
    let sugar = random_between(1, ENEMY_SUGAR_LIMIT);
    Sighting { class, nationality, name, food, wood, sugar }
}

/// Draws the hull that a ship loses under `cannons` cannons.
fn draw_damage(maneuver: Maneuver, tier: EnemyDistance, cannons: i16) -> (r: i16)
    requires
        4 <= cannons,
    ensures
        least_damage(tier) <= r <= most_damage(maneuver, tier, cannons as int),
{
    let low: i32 = match tier {
        EnemyDistance::Close => 1,
        _ => 0,
    };
    let spared: i32 = match tier {
        EnemyDistance::Close => 2,
        EnemyDistance::Escape => match maneuver {
            Maneuver::Broadside => 4,
            _ => 3,
        },
        _ => 3,
    };
    random_between(low, cannons as i32 - spared) as i16
}

/// Draws one exchange of fire between ships of at least four cannons each.
pub fn draw_volley(
    maneuver: Maneuver,
    tier: EnemyDistance,
    player_cannons: i16,
    enemy_cannons: i16,
) -> (r: Volley)
    requires
        4 <= player_cannons,
        4 <= enemy_cannons,
    ensures
        r.in_range(maneuver, tier, player_cannons as int, enemy_cannons as int),
{
    let player_loss = draw_damage(maneuver, tier, enemy_cannons);
    let enemy_loss = draw_damage(maneuver, tier, player_cannons);
    Volley { player_loss, enemy_loss }
}

/// Draws one round of the boarding fight.
pub fn draw_melee(weapon: Weapon) -> (r: Melee)
    ensures
        r.in_range(weapon),
{
    match weapon {
        Weapon::Sword => Melee {
            player_loss: random_between(1, 2),
            enemy_loss: random_between(1, 2),
        },
        Weapon::Falconet => Melee {
            player_loss: random_between(1, 4),
            enemy_loss: random_between(1, 5),
        },
    }
}

impl Msg {
    /// The maneuver that a chase command stands for.
    pub fn maneuver(&self) -> (r: Option<Maneuver>)
        ensures
            r == rules::maneuver_of(*self),
    {
        match self {
            Msg::SkirmishChaseClose => Some(Maneuver::Close),
            Msg::SkirmishChaseDistant => Some(Maneuver::Distant),
            Msg::SkirmishChaseBroadside => Some(Maneuver::Broadside),
            _ => None,
        }
    }

    /// The weapon that a command of the boarding fight stands for.
    pub fn weapon(&self) -> (r: Option<Weapon>)
        ensures
            r == rules::weapon_of(*self),
    {
        match self {
            Msg::SkirmishBattleSwingSword => Some(Weapon::Sword),
            Msg::SkirmishBattleShootFalconet => Some(Weapon::Falconet),
            _ => None,
        }
    }
}

impl Msg {
    /// Draws what the command leaves to chance in `state`.
    pub fn draw(&self, state: &Model) -> (r: Chance)
        requires
            state@.wf(),
        ensures
            rules::suits(r, *self, state@),
            r matches Chance::Voyage(v) ==> exists|days: int|
                SHORTEST_VOYAGE <= days <= LONGEST_VOYAGE && #[trigger] state.date.after(days)
                    == ymd_of(v.arrival),
    {
        if let Some(maneuver) = self.maneuver() {
            match &state.enemy {
                Some(e) => {
                    if state.current_screen == Screen::SkirmishChase && maneuver.exchanges_fire(
                        e.distance,
                    ) {
                        Chance::Volley(
                            draw_volley(
                                maneuver,
                                e.distance,
                                state.player.ship.cannons,
                                e.ship.cannons,
                            ),
                        )
                    } else {
                        Chance::Nothing
                    }
                },
                None => Chance::Nothing,
            }
        } else if let Some(weapon) = self.weapon() {
            if state.current_screen == Screen::SkirmishBattle && state.enemy.is_some() {
                Chance::Melee(draw_melee(weapon))
            } else {
                Chance::Nothing
            }
        } else {
            match self {
                Msg::SwitchPlayerLocation(to) => {
                    if *to == state.current_port_location {
                        Chance::Nothing
                    } else {
                        Chance::Voyage(draw_voyage(state.date))
                    }
                },
                Msg::SwitchScreen(Screen::Skirmish) => Chance::Sighting(draw_sighting()),
                _ => Chance::Nothing,
            }
        }
    }
}

} // verus!
