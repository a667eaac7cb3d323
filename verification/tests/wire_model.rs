use digging::models::simplify_digging::{Facing, Fuel, FuelWire, Position, SimplifyPacket, States};

#[test]
fn facing_numbers_round_trip() {
    for f in [Facing::North, Facing::East, Facing::South, Facing::West] {
        assert_eq!(Facing::try_from(f.to_u8()), Ok(f));
    }
    assert_eq!(Facing::North.to_u8(), 0);
    assert_eq!(Facing::East.to_u8(), 1);
    assert_eq!(Facing::South.to_u8(), 2);
    assert_eq!(Facing::West.to_u8(), 3);
}

#[test]
fn facing_rejects_numbers_above_three() {
    assert_eq!(Facing::try_from(4), Err("Facing must be 0..=3"));
    assert_eq!(Facing::try_from(255), Err("Facing must be 0..=3"));
    assert_eq!(Facing::try_from(2), Ok(Facing::South));
}

#[test]
fn fuel_text_only_unlimited() {
    assert_eq!(Fuel::from_name("unlimited"), Ok(Fuel::Unlimited));
    assert_eq!(
        Fuel::from_name("lots"),
        Err("Invalid fuel value: lots".to_string())
    );
    assert_eq!(
        Fuel::from_name("Unlimited"),
        Err("Invalid fuel value: Unlimited".to_string())
    );
    assert_eq!(Fuel::from_name(""), Err("Invalid fuel value: ".to_string()));
}

#[test]
fn wire_defaults() {
    assert_eq!(Fuel::default(), Fuel::Limited(0));
    assert_eq!(Facing::default(), Facing::North);
    assert_eq!(States::default(), States::Init);
    assert_eq!(Position::default(), Position { x: 0, y: 0, z: 0 });
}

#[test]
fn packets_compare_by_content() {
    let a = SimplifyPacket::Status {
        pos: Position { x: 1, y: -2, z: 3 },
        facing: Facing::West,
        fuel: Fuel::Unlimited,
    };
    assert_eq!(a.clone(), a);
    assert_ne!(a, SimplifyPacket::Keepalive);
}

#[test]
fn fuel_wire_forms_read_back() {
    assert_eq!(Fuel::Limited(-5).to_wire(), FuelWire::Amount(-5));
    assert_eq!(Fuel::Unlimited.to_wire(), FuelWire::Text("unlimited"));
    for f in [Fuel::Limited(0), Fuel::Limited(i32::MAX), Fuel::Unlimited] {
        let back = match f.to_wire() {
            FuelWire::Amount(a) => Fuel::Limited(a),
            FuelWire::Text(t) => Fuel::from_name(t).unwrap(),
        };
        assert_eq!(back, f);
    }
}
