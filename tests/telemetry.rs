use battery_status::discovery::{is_battery_name, keep_flagged, select_batteries};
use battery_status::telemetry::{
    get_status, parse_attribute, read_batteries, read_battery, status_from_text, Attribute,
    BatteryStatus, RawTelemetry,
};
use battery_status::text::parse_decimal_u32;

#[test]
fn numeric_attributes_are_trimmed() {
    assert_eq!(parse_attribute("5000\n"), Some(5000));
    assert_eq!(parse_attribute("  42 \t\n"), Some(42));
    assert_eq!(parse_attribute("+7"), Some(7));
    assert_eq!(parse_attribute("4294967295"), Some(u32::MAX));
}

#[test]
fn malformed_numbers_are_rejected() {
    assert_eq!(parse_attribute(""), None);
    assert_eq!(parse_attribute("\n"), None);
    assert_eq!(parse_attribute("abc"), None);
    assert_eq!(parse_attribute("-1"), None);
    assert_eq!(parse_attribute("+"), None);
    assert_eq!(parse_attribute("4294967296"), None);
    assert_eq!(parse_attribute("12 34"), None);
    assert_eq!(parse_decimal_u32(" 12"), None);
    assert_eq!(parse_decimal_u32("0012"), Some(12));
}

#[test]
fn status_table() {
    assert_eq!(get_status("Charging\n"), Some(BatteryStatus::Charging));
    assert_eq!(get_status("Discharging\n"), Some(BatteryStatus::Discharging));
    assert_eq!(get_status("Unknown\n"), Some(BatteryStatus::Unknown));
    assert_eq!(get_status(" Full "), Some(BatteryStatus::Unknown));
    assert_eq!(get_status("Not charging"), None);
    assert_eq!(get_status("charging"), None);
    assert_eq!(status_from_text("Full\n"), None);
}

#[test]
fn reading_from_raw_files() {
    let r = read_battery("BAT0".to_string(), "5000\n", "10000\n", "1000\n", "Discharging\n").unwrap();
    assert_eq!(r.name, "BAT0");
    assert_eq!(r.current_charge, 5000);
    assert_eq!(r.max_charge, 10000);
    assert_eq!(r.power_draw, 1000);
    assert_eq!(r.status, BatteryStatus::Discharging);
}

#[test]
fn unrecognized_status_aborts_reading() {
    let r = read_battery("BAT0".to_string(), "5000\n", "10000\n", "1000\n", "Idle\n");
    assert_eq!(r.unwrap_err().attribute, Attribute::Status);
}

#[test]
fn malformed_attribute_is_named() {
    let e = read_battery("BAT0".to_string(), "x", "10000", "1000", "Full").unwrap_err();
    assert_eq!(e.attribute, Attribute::EnergyNow);
    let e = read_battery("BAT0".to_string(), "1", "", "1000", "Full").unwrap_err();
    assert_eq!(e.attribute, Attribute::EnergyFull);
    let e = read_battery("BAT0".to_string(), "1", "2", "1.5", "Full").unwrap_err();
    assert_eq!(e.attribute, Attribute::PowerNow);
}

#[test]
fn battery_names_are_anchored() {
    assert_eq!(is_battery_name("BAT0"), Ok(true));
    assert_eq!(is_battery_name("BAT12"), Ok(true));
    assert_eq!(is_battery_name("BAT"), Ok(false));
    assert_eq!(is_battery_name("BAT0x"), Ok(false));
    assert_eq!(is_battery_name("xBAT0"), Ok(false));
    assert_eq!(is_battery_name("bat0"), Ok(false));
    assert_eq!(is_battery_name("AC"), Ok(false));
}

#[test]
fn discovery_keeps_batteries_in_order() {
    let names: Vec<String> = ["AC", "BAT1", "BATT", "BAT0", "hidpp_battery_0"]
        .iter()
        .map(|s| s.to_string())
        .collect();
    assert_eq!(select_batteries(&names).unwrap(), vec!["BAT1".to_string(), "BAT0".to_string()]);
}

#[test]
fn flags_select_names() {
    let names = vec!["a".to_string(), "b".to_string(), "c".to_string()];
    assert_eq!(keep_flagged(&names, &vec![true, false, true]), vec!["a".to_string(), "c".to_string()]);
    assert_eq!(keep_flagged(&names, &vec![false, false, false]), Vec::<String>::new());
}

fn raw(name: &str, now: &str, full: &str, draw: &str, status: &str) -> RawTelemetry {
    RawTelemetry {
        name: name.to_string(),
        energy_now: now.to_string(),
        energy_full: full.to_string(),
        power_now: draw.to_string(),
        status: status.to_string(),
    }
}

#[test]
fn all_devices_read_in_order() {
    let raws = vec![
        raw("BAT0", "3000\n", "6000\n", "500\n", "Discharging\n"),
        raw("BAT1", "2000\n", "4000\n", "500\n", "Full\n"),
    ];
    let readings = read_batteries(&raws).unwrap();
    assert_eq!(readings.len(), 2);
    assert_eq!(readings[0].name, "BAT0");
    assert_eq!(readings[0].status, BatteryStatus::Discharging);
    assert_eq!(readings[1].current_charge, 2000);
    assert_eq!(readings[1].status, BatteryStatus::Unknown);
}

#[test]
fn one_unrecognized_status_aborts_all() {
    let raws = vec![
        raw("BAT0", "3000", "6000", "500", "Discharging"),
        raw("BAT1", "2000", "4000", "500", "Bogus"),
        raw("BAT2", "x", "4000", "500", "Full"),
    ];
    let e = read_batteries(&raws).unwrap_err();
    assert_eq!(e.index, 1);
    assert_eq!(e.error.attribute, Attribute::Status);
}

#[test]
fn no_devices_read_as_empty() {
    assert!(read_batteries(&Vec::new()).unwrap().is_empty());
}

#[test]
fn other_entries_do_not_change_selection() {
    let names: Vec<String> = ["BAT0", "BAT1"].iter().map(|s| s.to_string()).collect();
    let more: Vec<String> = ["AC", "BAT0", "ADP1", "BAT", "bat0", "BATT0", "BAT1", "BAT0a", "xBAT1"]
        .iter()
        .map(|s| s.to_string())
        .collect();
    assert_eq!(select_batteries(&names).unwrap(), select_batteries(&more).unwrap());
    assert_eq!(select_batteries(&Vec::new()).unwrap(), Vec::<String>::new());
}
