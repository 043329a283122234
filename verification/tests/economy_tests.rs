use lunar::{
    Cargo, CargoKind, GameDate, GameLostReason, Model, Outcome, PortLocation, Reason, Restock,
    Screen, ShipClass, Voyage,
};

fn restock(wood_unit: i32, sugar_unit: i32, wood_price: i32, sugar_price: i32) -> Restock {
    Restock { wood_unit, sugar_unit, wood_price, sugar_price }
}

fn voyage(day: u32, food_eaten: i32) -> Voyage {
    Voyage {
        arrival: Some(GameDate { year: 1680, month: 1, day }),
        barbados: restock(200, 120, 18, 18),
        port_royal: restock(250, 200, 60, 90),
        nassau: restock(225, 160, 39, 54),
        food_eaten,
    }
}

fn food(price: i32) -> Cargo {
    Cargo { price, unit: 250, kind: CargoKind::Food }
}

fn wood(price: i32) -> Cargo {
    Cargo { price, unit: 210, kind: CargoKind::Wood }
}

fn sugar(price: i32) -> Cargo {
    Cargo { price, unit: 120, kind: CargoKind::Sugar }
}

#[test]
fn a_voyage_moves_the_ship_and_the_market() {
    let mut m = Model::default();
    let outcome = m.travel(PortLocation::Nassau, &voyage(6, 1));
    assert_eq!(outcome, Outcome::Applied);

    let mut e = Model::default();
    e.date = GameDate { year: 1680, month: 1, day: 6 };
    e.current_port_location = PortLocation::Nassau;
    e.player.ship.cargos.food.unit = 18;
    e.ports.barbados.cargos.wood.unit = 200;
    e.ports.barbados.cargos.sugar.unit = 120;
    e.ports.barbados.cargos.wood.price = 18;
    e.ports.barbados.cargos.sugar.price = 18;
    e.ports.port_royal.cargos.wood.unit = 250;
    e.ports.port_royal.cargos.sugar.unit = 200;
    e.ports.port_royal.cargos.wood.price = 60;
    e.ports.port_royal.cargos.sugar.price = 90;
    e.ports.nassau.cargos.wood.unit = 225;
    e.ports.nassau.cargos.sugar.unit = 160;
    e.ports.nassau.cargos.wood.price = 39;
    e.ports.nassau.cargos.sugar.price = 54;
    assert_eq!(m, e);
}

#[test]
fn a_voyage_leaves_food_stock_and_prices_of_food_alone() {
    let mut m = Model::default();
    m.travel(PortLocation::Barbados, &voyage(2, 0));
    assert_eq!(m.player.ship.cargos.food.unit, 19);
    assert_eq!(m.ports.barbados.cargos.food, food(8));
    assert_eq!(m.ports.port_royal.cargos.food, food(5));
    assert_eq!(m.ports.nassau.cargos.food, food(10));
    assert_eq!(m.current_screen, Screen::MainMenu);
}

#[test]
fn sailing_to_the_port_one_is_in_changes_nothing() {
    let mut m = Model::default();
    let outcome = m.travel(PortLocation::PortRoyal, &voyage(9, 1));
    assert_eq!(outcome, Outcome::Rejected(Reason::AlreadyThere));
    assert_eq!(m, Model::default());
}

#[test]
fn a_voyage_past_the_calendar_changes_nothing() {
    let mut m = Model::default();
    let mut v = voyage(3, 1);
    v.arrival = None;
    let outcome = m.travel(PortLocation::Nassau, &v);
    assert_eq!(outcome, Outcome::Rejected(Reason::LimitReached));
    assert_eq!(m, Model::default());
}

#[test]
fn food_at_the_minimum_after_the_voyage_is_enough() {
    let mut m = Model::default();
    m.player.ship.cargos.food.unit = 5;
    assert_eq!(m.travel(PortLocation::Nassau, &voyage(3, 1)), Outcome::Applied);
    assert_eq!(m.player.ship.cargos.food.unit, 4);
    assert_eq!(m.current_port_location, PortLocation::Nassau);
    assert_eq!(m.current_screen, Screen::MainMenu);
}

#[test]
fn food_below_the_minimum_after_the_voyage_is_a_mutiny() {
    let mut m = Model::default();
    m.player.ship.cargos.food.unit = 4;
    m.player.coins = 77;
    m.ports.nassau.cargos.food.unit = 3;
    assert_eq!(m.travel(PortLocation::Nassau, &voyage(3, 1)), Outcome::Applied);
    let mut e = Model::default();
    e.current_screen = Screen::GameLost(GameLostReason::FoodMutiny);
    assert_eq!(m, e);
}

#[test]
fn food_below_the_minimum_before_the_voyage_is_a_mutiny_too() {
    let mut m = Model::default();
    m.player.ship.cargos.food.unit = 3;
    assert_eq!(m.travel(PortLocation::Barbados, &voyage(3, 0)), Outcome::Applied);
    assert_eq!(m.current_screen, Screen::GameLost(GameLostReason::FoodMutiny));
    assert_eq!(m.player.ship.cargos.food.unit, 19);
    assert_eq!(m.current_port_location, PortLocation::PortRoyal);
    assert_eq!(m.date, GameDate { year: 1680, month: 1, day: 1 });
}

#[test]
fn a_quote_is_what_the_port_offers_now() {
    let mut m = Model::default();
    assert_eq!(m.quote(PortLocation::PortRoyal, CargoKind::Sugar), sugar(50));
    assert_eq!(
        m.quote(PortLocation::Nassau, CargoKind::Wood),
        Cargo { price: 32, unit: 150, kind: CargoKind::Wood }
    );
    m.travel(PortLocation::Nassau, &voyage(4, 0));
    assert_eq!(
        m.quote(PortLocation::Nassau, CargoKind::Wood),
        Cargo { price: 39, unit: 225, kind: CargoKind::Wood }
    );
    let quoted = m.quote(PortLocation::Nassau, CargoKind::Wood);
    assert_eq!(m.buy_cargo(PortLocation::Nassau, quoted), Outcome::Applied);
    assert_eq!(m.player.coins, 25_000 - 39);
}

#[test]
fn buying_moves_one_unit_and_the_price() {
    let mut m = Model::default();
    assert_eq!(m.buy_cargo(PortLocation::PortRoyal, sugar(50)), Outcome::Applied);
    let mut e = Model::default();
    e.player.coins = 24_950;
    e.player.ship.cargos.sugar.unit = 1;
    e.ports.port_royal.cargos.sugar.unit = 119;
    assert_eq!(m, e);
}

#[test]
fn buying_pays_the_price_the_command_carries() {
    let mut m = Model::default();
    assert_eq!(m.buy_cargo(PortLocation::Nassau, wood(7)), Outcome::Applied);
    assert_eq!(m.player.coins, 24_993);
    assert_eq!(m.ports.nassau.cargos.wood.unit, 149);
    assert_eq!(m.ports.nassau.cargos.wood.price, 32);
    assert_eq!(m.player.ship.cargos.wood.unit, 1);
}

#[test]
fn buying_needs_more_coins_than_the_price() {
    let mut m = Model::default();
    m.player.coins = 50;
    let before = m.clone();
    assert_eq!(
        m.buy_cargo(PortLocation::PortRoyal, sugar(50)),
        Outcome::Rejected(Reason::InsufficientFunds)
    );
    assert_eq!(m, before);
    m.player.coins = 51;
    assert_eq!(m.buy_cargo(PortLocation::PortRoyal, sugar(50)), Outcome::Applied);
    assert_eq!(m.player.coins, 1);
}

#[test]
fn buying_needs_room_in_the_hold() {
    let mut m = Model::default();
    m.player.ship.cargos.wood.unit = 27;
    let before = m.clone();
    assert_eq!(
        m.buy_cargo(PortLocation::PortRoyal, food(5)),
        Outcome::Rejected(Reason::InsufficientCargoSpace)
    );
    assert_eq!(m, before);
    m.player.ship.cargos.wood.unit = 26;
    assert_eq!(m.buy_cargo(PortLocation::PortRoyal, food(5)), Outcome::Applied);
    assert_eq!(m.player.ship.cargos.total_unit(), 46);
}

#[test]
fn buying_needs_stock_in_the_port() {
    let mut m = Model::default();
    m.ports.barbados.cargos.wood.unit = 0;
    let before = m.clone();
    assert_eq!(
        m.buy_cargo(PortLocation::Barbados, wood(22)),
        Outcome::Rejected(Reason::InsufficientStock)
    );
    assert_eq!(m, before);
}

#[test]
fn buying_stops_where_the_purse_would_burst() {
    let mut m = Model::default();
    m.player.coins = i32::MAX;
    let before = m.clone();
    assert_eq!(
        m.buy_cargo(PortLocation::Barbados, wood(-1)),
        Outcome::Rejected(Reason::LimitReached)
    );
    assert_eq!(m, before);
}

#[test]
fn lack_of_funds_is_told_before_lack_of_room() {
    let mut m = Model::default();
    m.player.coins = 0;
    m.player.ship.cargos.wood.unit = 27;
    m.ports.port_royal.cargos.food.unit = 0;
    assert_eq!(
        m.buy_cargo(PortLocation::PortRoyal, food(5)),
        Outcome::Rejected(Reason::InsufficientFunds)
    );
    m.player.coins = 6;
    assert_eq!(
        m.buy_cargo(PortLocation::PortRoyal, food(5)),
        Outcome::Rejected(Reason::InsufficientCargoSpace)
    );
}

#[test]
fn selling_moves_one_unit_and_the_price() {
    let mut m = Model::default();
    assert_eq!(m.sell_cargo(PortLocation::Barbados, food(8)), Outcome::Applied);
    let mut e = Model::default();
    e.player.coins = 25_008;
    e.player.ship.cargos.food.unit = 18;
    e.ports.barbados.cargos.food.unit = 251;
    assert_eq!(m, e);
}

#[test]
fn selling_needs_a_unit_in_the_hold() {
    let mut m = Model::default();
    let before = m.clone();
    assert_eq!(
        m.sell_cargo(PortLocation::PortRoyal, wood(18)),
        Outcome::Rejected(Reason::InsufficientStock)
    );
    assert_eq!(m, before);
}

#[test]
fn selling_the_last_unit_empties_the_entry() {
    let mut m = Model::default();
    m.player.ship.cargos.sugar.unit = 1;
    assert_eq!(m.sell_cargo(PortLocation::PortRoyal, sugar(50)), Outcome::Applied);
    assert_eq!(m.player.ship.cargos.sugar.unit, 0);
    assert_eq!(
        m.sell_cargo(PortLocation::PortRoyal, sugar(50)),
        Outcome::Rejected(Reason::InsufficientStock)
    );
}

#[test]
fn selling_never_leaves_a_debt() {
    let mut m = Model::default();
    m.player.coins = 3;
    let before = m.clone();
    assert_eq!(
        m.sell_cargo(PortLocation::PortRoyal, food(-4)),
        Outcome::Rejected(Reason::InsufficientFunds)
    );
    assert_eq!(m, before);
    assert_eq!(m.sell_cargo(PortLocation::PortRoyal, food(-3)), Outcome::Applied);
    assert_eq!(m.player.coins, 0);
}

#[test]
fn selling_stops_where_the_purse_would_burst() {
    let mut m = Model::default();
    m.player.coins = i32::MAX - 4;
    let before = m.clone();
    assert_eq!(
        m.sell_cargo(PortLocation::PortRoyal, food(5)),
        Outcome::Rejected(Reason::LimitReached)
    );
    assert_eq!(m, before);
    assert_eq!(m.sell_cargo(PortLocation::PortRoyal, food(4)), Outcome::Applied);
    assert_eq!(m.player.coins, i32::MAX);
}

#[test]
fn selling_stops_where_the_stock_would_burst() {
    let mut m = Model::default();
    m.ports.nassau.cargos.food.unit = i32::MAX;
    let before = m.clone();
    assert_eq!(
        m.sell_cargo(PortLocation::Nassau, food(10)),
        Outcome::Rejected(Reason::LimitReached)
    );
    assert_eq!(m, before);
}

#[test]
fn buying_then_selling_at_one_price_restores_the_state() {
    for (location, cargo) in [
        (PortLocation::PortRoyal, sugar(50)),
        (PortLocation::Barbados, wood(22)),
        (PortLocation::Nassau, food(10)),
    ] {
        let mut m = Model::default();
        assert_eq!(m.buy_cargo(location, cargo), Outcome::Applied);
        assert_ne!(m, Model::default());
        assert_eq!(m.sell_cargo(location, cargo), Outcome::Applied);
        assert_eq!(m, Model::default());
    }
}

#[test]
fn a_new_ship_is_paid_with_coins_and_cargo() {
    let mut m = Model::default();
    m.player.ship.name = String::from("Queen Anne");
    m.player.ship.cargos.wood.unit = 10;
    m.player.ship.cargos.sugar.unit = 3;
    m.player.ship.hull = 20;
    m.player.ship.crew = 5;
    assert_eq!(m.replace_ship(ShipClass::Brig, true), Outcome::Applied);
    // 25000 + 19 * 5 + 10 * 18 + 3 * 50 - 5000
    assert_eq!(m.player.coins, 20_425);
    let ship = &m.player.ship;
    assert_eq!(ship.name, "Queen Anne");
    assert_eq!(ship.class, ShipClass::Brig);
    assert_eq!((ship.crew, ship.crew_capacity), (18, 18));
    assert_eq!((ship.hull, ship.hull_capacity), (70, 70));
    assert_eq!((ship.cannons, ship.cannons_capacity), (10, 10));
    assert_eq!((ship.cargos_capacity, ship.price), (70, 5000));
    assert_eq!(ship.cargos.food.unit, 32);
    assert_eq!(ship.cargos.wood.unit, 0);
    assert_eq!(ship.cargos.sugar.unit, 0);
    assert_eq!(m.ports, Model::default().ports);
}

#[test]
fn the_cargo_is_sold_at_the_prices_of_the_port_the_ship_lies_in() {
    let mut m = Model::default();
    m.current_port_location = PortLocation::Nassau;
    m.player.ship.cargos.sugar.unit = 2;
    assert_eq!(m.replace_ship(ShipClass::Cutter, true), Outcome::Applied);
    // 25000 + 19 * 10 + 2 * 20 - 2100
    assert_eq!(m.player.coins, 23_130);
}

#[test]
fn a_new_ship_needs_its_price_in_coins() {
    let mut m = Model::default();
    m.player.coins = 9_999;
    m.player.ship.cargos.sugar.unit = 20;
    let before = m.clone();
    assert_eq!(
        m.replace_ship(ShipClass::Galleon, true),
        Outcome::Rejected(Reason::InsufficientFunds)
    );
    assert_eq!(m, before);
    m.player.coins = 10_000;
    assert_eq!(m.replace_ship(ShipClass::Galleon, true), Outcome::Applied);
    // 10000 + 19 * 5 + 20 * 50 - 10000
    assert_eq!(m.player.coins, 1_095);
}

#[test]
fn a_new_ship_needs_a_yes() {
    let mut m = Model::default();
    assert_eq!(m.replace_ship(ShipClass::Cutter, false), Outcome::Rejected(Reason::Declined));
    assert_eq!(m, Model::default());
}

#[test]
fn a_frigate_is_out_of_reach_at_the_start() {
    let mut m = Model::default();
    assert_eq!(
        m.replace_ship(ShipClass::Frigate, false),
        Outcome::Rejected(Reason::InsufficientFunds)
    );
    assert_eq!(m, Model::default());
}

#[test]
fn a_new_ship_is_not_bought_where_the_purse_would_burst() {
    let mut m = Model::default();
    m.player.coins = i32::MAX - 2_000;
    m.ports.port_royal.cargos.food.price = 1_000;
    let before = m.clone();
    assert_eq!(m.replace_ship(ShipClass::Cutter, true), Outcome::Rejected(Reason::LimitReached));
    assert_eq!(m, before);
}

#[test]
fn a_repair_restores_the_hull_and_takes_the_cost() {
    let mut m = Model::default();
    m.player.ship.hull = 40;
    assert_eq!(m.repair_ship(25_000), Outcome::Applied);
    let mut e = Model::default();
    e.player.coins = 25_000 - 22 * 25;
    assert_eq!(m, e);
}

#[test]
fn a_repair_needs_the_funds_offered_to_cover_it() {
    let mut m = Model::default();
    m.player.ship.hull = 40;
    let before = m.clone();
    assert_eq!(m.repair_ship(549), Outcome::Rejected(Reason::InsufficientFunds));
    assert_eq!(m, before);
    assert_eq!(m.repair_ship(550), Outcome::Applied);
    assert_eq!(m.player.ship.hull, 62);
    assert_eq!(m.player.coins, 24_450);
}

#[test]
fn a_repair_needs_the_coins_at_hand_to_cover_it() {
    let mut m = Model::default();
    m.player.ship.hull = 40;
    m.player.coins = 549;
    let before = m.clone();
    assert_eq!(m.repair_ship(25_000), Outcome::Rejected(Reason::InsufficientFunds));
    assert_eq!(m, before);
}

#[test]
fn a_sound_hull_is_repaired_for_nothing() {
    let mut m = Model::default();
    assert_eq!(m.repair_ship(0), Outcome::Applied);
    assert_eq!(m, Model::default());
}

#[test]
fn hiring_completes_the_crew_of_the_ship_one_has() {
    let mut m = Model::default();
    m.player.choose_ship(ShipClass::Junk);
    m.player.ship.crew = 4;
    assert_eq!(m.hire_crew(25_000), Outcome::Applied);
    assert_eq!(m.player.ship.crew, 24);
    assert_eq!(m.player.coins, 25_000 - 20 * 8);
}

#[test]
fn hiring_needs_funds_and_coins() {
    let mut m = Model::default();
    m.player.ship.crew = 4;
    let before = m.clone();
    assert_eq!(m.hire_crew(79), Outcome::Rejected(Reason::InsufficientFunds));
    assert_eq!(m, before);
    m.player.coins = 79;
    let before = m.clone();
    assert_eq!(m.hire_crew(80), Outcome::Rejected(Reason::InsufficientFunds));
    assert_eq!(m, before);
    m.player.coins = 80;
    assert_eq!(m.hire_crew(80), Outcome::Applied);
    assert_eq!(m.player.coins, 0);
    assert_eq!(m.player.ship.crew, 14);
}

#[test]
fn the_hold_has_room_below_its_capacity() {
    let mut m = Model::default();
    assert!(m.player.has_cargo_space());
    m.player.ship.cargos.sugar.unit = 27;
    assert!(!m.player.has_cargo_space());
}
