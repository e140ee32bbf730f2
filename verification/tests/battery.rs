use powerctl::battery::get_battery_status;
use powerctl::query::QueryOutcome;

fn output(text: &str) -> QueryOutcome {
    QueryOutcome::Output(text.to_string())
}

#[test]
fn well_formed_percent_is_parsed() {
    let r = get_battery_status(output("87\n"), output(" Charging\n"));
    let b = r.unwrap();
    assert_eq!(b.capacity, 87);
    assert_eq!(b.status, "Charging");
}

#[test]
fn surrounding_whitespace_is_stripped_before_parsing() {
    let r = get_battery_status(output(" \t100 \n"), output("Full"));
    assert_eq!(r.unwrap().capacity, 100);
}

#[test]
fn leading_plus_sign_is_accepted() {
    let r = get_battery_status(output("+42"), output("Discharging"));
    assert_eq!(r.unwrap().capacity, 42);
}

#[test]
fn non_numeric_capacity_defaults_to_zero() {
    for text in ["abc", "12x", "4 2", "-5", "+", "1.5"] {
        let r = get_battery_status(output(text), output("Discharging"));
        assert_eq!(r.unwrap().capacity, 0, "capacity text {:?}", text);
    }
}

#[test]
fn empty_capacity_defaults_to_zero() {
    let r = get_battery_status(output(""), output("Discharging"));
    assert_eq!(r.unwrap().capacity, 0);
    let r = get_battery_status(output(" \n"), output("Discharging"));
    assert_eq!(r.unwrap().capacity, 0);
}

#[test]
fn capacity_above_byte_range_defaults_to_zero() {
    let r = get_battery_status(output("256"), output("Charging"));
    assert_eq!(r.unwrap().capacity, 0);
    let r = get_battery_status(output("999999999999999999999999"), output("Charging"));
    assert_eq!(r.unwrap().capacity, 0);
}

#[test]
fn largest_capacity_value_is_kept() {
    let r = get_battery_status(output("255"), output("Charging"));
    assert_eq!(r.unwrap().capacity, 255);
}

#[test]
fn capacity_spawn_failure_fails_the_call() {
    let r = get_battery_status(
        QueryOutcome::SpawnFailed("capacity query failed".to_string()),
        QueryOutcome::SpawnFailed("status query failed".to_string()),
    );
    assert_eq!(r.unwrap_err(), "capacity query failed");
}

#[test]
fn status_spawn_failure_fails_the_call() {
    let r = get_battery_status(
        output("50"),
        QueryOutcome::SpawnFailed("status query failed".to_string()),
    );
    assert_eq!(r.unwrap_err(), "status query failed");
}

#[test]
fn empty_status_text_is_accepted_as_is() {
    let r = get_battery_status(output("50"), output(""));
    let b = r.unwrap();
    assert_eq!(b.capacity, 50);
    assert_eq!(b.status, "");
}
