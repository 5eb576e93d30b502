use generator_manager::lci::{get_generator, DeviceLookupError, ThingSummary};

fn thing(is_generator: bool, label: &str) -> ThingSummary {
    ThingSummary { is_generator, label: label.to_string() }
}

#[test]
fn finds_generator_and_fuel_tank() {
    let things = vec![
        thing(false, "Gateway"),
        thing(false, "Fresh Water"),
        thing(false, "Generator Fuel Tank"),
        thing(true, "Generator"),
    ];
    assert_eq!(get_generator(&things), Ok((3, 2)));
}

#[test]
fn first_generator_and_first_fuel_tank_win() {
    let things = vec![
        thing(true, "Generator"),
        thing(false, "Generator Fuel Tank"),
        thing(true, "Second Generator"),
        thing(false, "Generator Fuel Tank"),
    ];
    assert_eq!(get_generator(&things), Ok((0, 1)));
}

#[test]
fn generator_itself_is_not_its_fuel_tank() {
    let things = vec![thing(true, "Generator Fuel Tank"), thing(false, "Generator Fuel Tank")];
    assert_eq!(get_generator(&things), Ok((0, 1)));
    let alone = vec![thing(true, "Generator Fuel Tank")];
    assert_eq!(get_generator(&alone), Err(DeviceLookupError::NoFuelTank));
}

#[test]
fn missing_generator() {
    let things = vec![thing(false, "Generator Fuel Tank")];
    assert_eq!(get_generator(&things), Err(DeviceLookupError::NoGenerator));
    assert_eq!(get_generator(&Vec::new()), Err(DeviceLookupError::NoGenerator));
}

#[test]
fn missing_fuel_tank() {
    let things = vec![thing(true, "Generator"), thing(false, "generator fuel tank")];
    assert_eq!(get_generator(&things), Err(DeviceLookupError::NoFuelTank));
}
