use lunar::{
    Cargo, CargoKind, Cargos, Enemy, EnemyDistance, EnemyMovement, GameDate, GameLostReason, Model,
    Nationality, Player, Port, PortLocation, PortPopulation, Ports, Screen, Ship, ShipClass,
    MAXIMUM_PLAYER_AGE, MINIMUM_PLAYER_AGE, MINIMUM_PLAYER_FOOD, MINIMUM_SHIP_CREW,
    MINIMUM_SHIP_HULL,
};

#[test]
fn thresholds_have_their_values() {
    assert_eq!(MINIMUM_PLAYER_FOOD, 4);
    assert_eq!(MINIMUM_SHIP_HULL, 2);
    assert_eq!(MINIMUM_SHIP_CREW, 2);
    assert_eq!(MINIMUM_PLAYER_AGE, 18);
    assert_eq!(MAXIMUM_PLAYER_AGE, 65);
}

#[test]
fn enum_defaults() {
    assert_eq!(Screen::default(), Screen::MainMenu);
    assert_eq!(GameLostReason::default(), GameLostReason::ShipSunk);
    assert_eq!(Nationality::default(), Nationality::British);
    assert_eq!(CargoKind::default(), CargoKind::Food);
    assert_eq!(ShipClass::default(), ShipClass::Sloop);
    assert_eq!(EnemyMovement::default(), EnemyMovement::Idle);
    assert_eq!(EnemyDistance::default(), EnemyDistance::Far);
    assert_eq!(PortPopulation::default(), PortPopulation::Medium);
    assert_eq!(PortLocation::default(), PortLocation::PortRoyal);
}

#[test]
fn struct_defaults_are_blank() {
    assert_eq!(Cargo::default(), Cargo { price: 0, unit: 0, kind: CargoKind::Food });
    let hold = Cargos::default();
    assert_eq!(hold.total_unit(), 0);
    assert_eq!(hold.wood.kind, CargoKind::Wood);
    assert_eq!(hold.sugar.kind, CargoKind::Sugar);
    let ship = Ship::default();
    assert_eq!(ship.name, "");
    assert_eq!(ship.class, ShipClass::Sloop);
    assert_eq!((ship.crew, ship.hull, ship.cannons, ship.price), (0, 0, 0, 0));
    let player = Player::default();
    assert_eq!((player.name.as_str(), player.age, player.coins), ("", 0, 0));
    let port = Port::default();
    assert_eq!(port.population, PortPopulation::Medium);
    assert_eq!(port.cargos, Cargos::default());
    let enemy = Enemy::default();
    assert_eq!(enemy.distance, EnemyDistance::Far);
    assert_eq!(enemy.movement, EnemyMovement::Idle);
    assert_eq!(enemy.ship, Ship::default());
}

#[test]
fn total_unit_adds_the_three_entries() {
    let mut hold = Cargos::default();
    hold.food.unit = 7;
    hold.wood.unit = 11;
    hold.sugar.unit = 13;
    assert_eq!(hold.total_unit(), 31);
}

#[test]
fn total_unit_counts_a_debt() {
    let mut hold = Cargos::default();
    hold.food.unit = 5;
    hold.wood.unit = -2;
    assert_eq!(hold.total_unit(), 3);
}

#[test]
fn the_wide_total_holds_any_hold() {
    let mut hold = Cargos::default();
    hold.food.unit = i32::MAX;
    hold.wood.unit = i32::MAX;
    hold.sugar.unit = i32::MAX;
    assert_eq!(hold.total_unit_wide(), 3 * (i32::MAX as i64));
    hold.food.unit = i32::MIN;
    hold.wood.unit = i32::MIN;
    hold.sugar.unit = i32::MIN;
    assert_eq!(hold.total_unit_wide(), 3 * (i32::MIN as i64));
}

#[test]
fn total_unit_does_not_overflow_on_the_way() {
    let mut hold = Cargos::default();
    hold.food.unit = i32::MAX;
    hold.wood.unit = 1;
    hold.sugar.unit = -1;
    assert_eq!(hold.total_unit(), i32::MAX);
}

#[test]
fn entry_and_shift_work_by_kind() {
    let mut hold = Cargos::default();
    hold.shift(CargoKind::Sugar, 4);
    hold.shift(CargoKind::Sugar, -1);
    hold.set_unit(CargoKind::Wood, 9);
    assert_eq!(hold.entry(CargoKind::Sugar).unit, 3);
    assert_eq!(hold.entry(CargoKind::Wood).unit, 9);
    assert_eq!(hold.entry(CargoKind::Food).unit, 0);
}

fn figures(class: ShipClass) -> (i32, i16, i16, i32, i32, i32) {
    let s = Ship::of_class(class);
    assert_eq!(s.class, class);
    assert_eq!(s.name, "");
    assert_eq!(s.crew, s.crew_capacity);
    assert_eq!(s.hull, s.hull_capacity);
    assert_eq!(s.cannons, s.cannons_capacity);
    assert_eq!(s.cargos.wood.unit, 0);
    assert_eq!(s.cargos.sugar.unit, 0);
    assert!(s.is_fitted());
    (s.crew, s.hull, s.cannons, s.cargos_capacity, s.price, s.cargos.food.unit)
}

#[test]
fn every_class_has_its_figures() {
    assert_eq!(figures(ShipClass::Cutter), (8, 40, 8, 32, 2100, 12));
    assert_eq!(figures(ShipClass::Sloop), (14, 62, 8, 46, 3200, 19));
    assert_eq!(figures(ShipClass::Brig), (18, 70, 10, 70, 5000, 32));
    assert_eq!(figures(ShipClass::Junk), (24, 70, 6, 80, 5500, 36));
    assert_eq!(figures(ShipClass::Galleon), (32, 90, 10, 210, 10_000, 60));
    assert_eq!(figures(ShipClass::Frigate), (40, 140, 14, 150, 35_000, 42));
}

#[test]
fn all_classes_and_flags_are_listed() {
    assert_eq!(
        ShipClass::all(),
        vec![
            ShipClass::Cutter,
            ShipClass::Sloop,
            ShipClass::Brig,
            ShipClass::Junk,
            ShipClass::Galleon,
            ShipClass::Frigate
        ]
    );
    assert_eq!(
        Nationality::all(),
        vec![Nationality::British, Nationality::Spanish, Nationality::French]
    );
}

#[test]
fn a_repair_costs_25_a_point() {
    let mut ship = Ship::of_class(ShipClass::Sloop);
    assert_eq!(ship.cost_to_repair(), 0);
    ship.hull = 50;
    assert_eq!(ship.cost_to_repair(), 300);
    ship.hull = 2;
    assert_eq!(ship.cost_to_repair(), 1500);
}

#[test]
fn a_repair_cost_fits_for_any_hull() {
    let mut ship = Ship::of_class(ShipClass::Frigate);
    ship.hull = i16::MIN;
    ship.hull_capacity = i16::MAX;
    assert_eq!(ship.cost_to_repair(), 25 * 65_535);
}

#[test]
fn a_hand_costs_8_to_hire() {
    let mut ship = Ship::of_class(ShipClass::Frigate);
    assert_eq!(ship.cost_to_hire(), 0);
    ship.crew = 37;
    assert_eq!(ship.cost_to_hire(), 24);
    ship.crew = 2;
    assert_eq!(ship.cost_to_hire(), 304);
}

#[test]
fn a_game_starts_as_it_should() {
    let m = Model::default();
    assert_eq!(m.date, GameDate { year: 1680, month: 1, day: 1 });
    assert_eq!(m.current_screen, Screen::MainMenu);
    assert_eq!(m.current_port_location, PortLocation::PortRoyal);
    assert!(m.enemy.is_none());
    assert_eq!(m.player.name, "Player");
    assert_eq!(m.player.age, 18);
    assert_eq!(m.player.nationality, Nationality::British);
    assert_eq!(m.player.coins, 25_000);
    assert_eq!(m.player.ship.name, "Luna");
    assert_eq!(m.player.ship.class, ShipClass::Sloop);
    assert_eq!(m.player.ship.cargos.food.unit, 19);
    assert_eq!(m.player.ship.cargos.total_unit(), 19);
    assert!(m.is_well_formed());
}

fn stock(port: &Port) -> [(i32, i32, CargoKind); 3] {
    let c = &port.cargos;
    [
        (c.food.price, c.food.unit, c.food.kind),
        (c.wood.price, c.wood.unit, c.wood.kind),
        (c.sugar.price, c.sugar.unit, c.sugar.kind),
    ]
}

#[test]
fn the_ports_open_with_their_stock() {
    let ports = Ports::opening();
    assert_eq!(ports.barbados.name, "Barbados");
    assert_eq!(ports.barbados.description, "");
    assert_eq!(ports.barbados.population, PortPopulation::Large);
    assert_eq!(ports.barbados.nationality, Nationality::British);
    assert_eq!(
        stock(&ports.barbados),
        [(8, 250, CargoKind::Food), (22, 250, CargoKind::Wood), (30, 250, CargoKind::Sugar)]
    );
    assert_eq!(ports.port_royal.name, "Port Royal");
    assert_eq!(ports.port_royal.population, PortPopulation::Huge);
    assert_eq!(
        stock(&ports.port_royal),
        [(5, 250, CargoKind::Food), (18, 210, CargoKind::Wood), (50, 120, CargoKind::Sugar)]
    );
    assert_eq!(ports.nassau.name, "Nassau");
    assert_eq!(ports.nassau.population, PortPopulation::Medium);
    assert_eq!(
        stock(&ports.nassau),
        [(10, 250, CargoKind::Food), (32, 150, CargoKind::Wood), (20, 180, CargoKind::Sugar)]
    );
    assert_eq!(Model::default().ports, ports);
}

#[test]
fn ports_are_found_by_location() {
    let ports = Ports::opening();
    assert_eq!(ports.get(PortLocation::Barbados).name, "Barbados");
    assert_eq!(ports.get(PortLocation::PortRoyal).name, "Port Royal");
    assert_eq!(ports.get(PortLocation::Nassau).name, "Nassau");
}

#[test]
fn a_clone_equals_its_source() {
    let mut m = Model::default();
    m.player.name = String::from("Anne");
    m.enemy = Some(Enemy::default());
    let c = m.clone();
    assert_eq!(c, m);
}

#[test]
fn ill_formed_states_are_told_apart() {
    let mut m = Model::default();
    m.player.coins = -1;
    assert!(!m.is_well_formed());

    let mut m = Model::default();
    m.player.ship.cargos.wood.unit = 28;
    assert!(!m.is_well_formed());
    m.player.ship.cargos.wood.unit = 27;
    assert!(m.is_well_formed());

    let mut m = Model::default();
    m.player.ship.hull = 1;
    assert!(!m.is_well_formed());

    let mut m = Model::default();
    m.player.ship.cannons = 9;
    assert!(!m.is_well_formed());

    let mut m = Model::default();
    m.player.age = 17;
    assert!(!m.is_well_formed());

    let mut m = Model::default();
    m.ports.nassau.cargos.sugar.unit = -1;
    assert!(!m.is_well_formed());

    let mut m = Model::default();
    m.enemy = Some(Enemy::default());
    assert!(!m.is_well_formed());
}

#[test]
fn losing_goes_back_to_the_start() {
    let mut m = Model::default();
    m.player.coins = 3;
    m.current_port_location = PortLocation::Nassau;
    m.enemy = Some(Enemy::default());
    m.lose(GameLostReason::FoodMutiny);
    let mut expected = Model::default();
    expected.current_screen = Screen::GameLost(GameLostReason::FoodMutiny);
    assert_eq!(m, expected);
}
