use lunar::{CargoKind, EnemyDistance, Nationality, PortLocation, ShipClass};
use std::str::FromStr;

#[test]
fn flags_are_read_by_name() {
    assert_eq!(Nationality::from_str("Spanish"), Ok(Nationality::Spanish));
    assert_eq!(Nationality::from_str("French"), Ok(Nationality::French));
    assert_eq!(Nationality::from_str("British"), Ok(Nationality::British));
}

#[test]
fn an_unknown_flag_is_british() {
    assert_eq!(Nationality::from_str("Dutch"), Ok(Nationality::British));
    assert_eq!(Nationality::from_str(""), Ok(Nationality::British));
    assert_eq!(Nationality::from_str("spanish"), Ok(Nationality::British));
    assert_eq!(Nationality::from_name(" French"), Nationality::British);
}

#[test]
fn classes_are_read_by_name() {
    assert_eq!(ShipClass::from_str("Cutter"), Ok(ShipClass::Cutter));
    assert_eq!(ShipClass::from_str("Sloop"), Ok(ShipClass::Sloop));
    assert_eq!(ShipClass::from_str("Brig"), Ok(ShipClass::Brig));
    assert_eq!(ShipClass::from_str("Junk"), Ok(ShipClass::Junk));
    assert_eq!(ShipClass::from_str("Galleon"), Ok(ShipClass::Galleon));
    assert_eq!(ShipClass::from_str("Frigate"), Ok(ShipClass::Frigate));
}

#[test]
fn an_unknown_class_is_a_sloop() {
    assert_eq!(ShipClass::from_str("Raft"), Ok(ShipClass::Sloop));
    assert_eq!(ShipClass::from_str(""), Ok(ShipClass::Sloop));
    assert_eq!(ShipClass::from_name("frigate"), ShipClass::Sloop);
}

#[test]
fn names_are_written_as_the_variants_are_spelt() {
    assert_eq!(Nationality::British.to_string(), "British");
    assert_eq!(Nationality::Spanish.to_string(), "Spanish");
    assert_eq!(Nationality::French.to_string(), "French");
    assert_eq!(CargoKind::Food.to_string(), "Food");
    assert_eq!(CargoKind::Wood.to_string(), "Wood");
    assert_eq!(CargoKind::Sugar.to_string(), "Sugar");
    assert_eq!(EnemyDistance::Escape.to_string(), "Escape");
    assert_eq!(EnemyDistance::Far.to_string(), "Far");
    assert_eq!(EnemyDistance::Close.to_string(), "Close");
    assert_eq!(EnemyDistance::Board.to_string(), "Board");
    assert_eq!(PortLocation::Barbados.to_string(), "Barbados");
    assert_eq!(PortLocation::PortRoyal.to_string(), "PortRoyal");
    assert_eq!(PortLocation::Nassau.to_string(), "Nassau");
}

#[test]
fn every_name_reads_back_as_what_wrote_it() {
    for class in ShipClass::all() {
        assert_eq!(ShipClass::from_name(&class.to_string()), class);
    }
    for flag in Nationality::all() {
        assert_eq!(Nationality::from_name(&flag.to_string()), flag);
    }
}
