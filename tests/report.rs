use battery_status::aggregate::{calc_percentage, calc_time, get_configuration, resolve_status, FULL_THRESHOLD};
use battery_status::display::{calc_display_time, status_line};
use battery_status::telemetry::{BatteryReading, BatteryStatus};

fn reading(name: &str, current: u32, max: u32, draw: u32, status: BatteryStatus) -> BatteryReading {
    BatteryReading {
        name: name.to_string(),
        current_charge: current,
        max_charge: max,
        power_draw: draw,
        status,
    }
}

fn line(bats: &Vec<BatteryReading>, threshold: u32) -> String {
    status_line(&get_configuration(bats, threshold))
}

#[test]
fn one_battery_discharging() {
    let bats = vec![reading("BAT0", 5000, 10000, 1000, BatteryStatus::Discharging)];
    let config = get_configuration(&bats, FULL_THRESHOLD);
    assert_eq!(config.percentage, 5000);
    assert_eq!(config.status, BatteryStatus::Discharging);
    assert_eq!(config.time_to_completion, 5 * 3600);
    assert_eq!(status_line(&config), "50.00% (-5:00)");
}

#[test]
fn one_battery_charging_to_full() {
    let bats = vec![reading("BAT0", 8000, 10000, 2000, BatteryStatus::Charging)];
    let config = get_configuration(&bats, FULL_THRESHOLD);
    assert_eq!(config.time_to_completion, 3600);
    assert_eq!(status_line(&config), "80.00% (+1:00)");
}

#[test]
fn two_batteries_discharging() {
    let bats = vec![
        reading("BAT0", 3000, 6000, 500, BatteryStatus::Discharging),
        reading("BAT1", 2000, 4000, 500, BatteryStatus::Discharging),
    ];
    assert_eq!(calc_percentage(&bats), 5000);
    assert_eq!(line(&bats, FULL_THRESHOLD), "50.00% (-5:00)");
}

#[test]
fn no_batteries() {
    let bats: Vec<BatteryReading> = Vec::new();
    let config = get_configuration(&bats, FULL_THRESHOLD);
    assert_eq!(config.percentage, 0);
    assert_eq!(config.status, BatteryStatus::Unknown);
    assert_eq!(config.time_to_completion, 0);
    assert_eq!(status_line(&config), "0.00%");
}

#[test]
fn minutes_are_truncated() {
    assert_eq!(calc_display_time(BatteryStatus::Discharging, 21596), " (-5:59)");
    assert_eq!(calc_display_time(BatteryStatus::Discharging, 21599), " (-5:59)");
    let bats = vec![reading("BAT0", 5999, 10000, 1000, BatteryStatus::Discharging)];
    assert_eq!(calc_time(&bats, BatteryStatus::Discharging, FULL_THRESHOLD), 21596);
    assert_eq!(line(&bats, FULL_THRESHOLD), "59.99% (-5:59)");
}

#[test]
fn status_first_match() {
    let mixed = vec![
        reading("BAT0", 1, 2, 0, BatteryStatus::Unknown),
        reading("BAT1", 1, 2, 0, BatteryStatus::Discharging),
        reading("BAT2", 1, 2, 0, BatteryStatus::Charging),
    ];
    assert_eq!(resolve_status(&mixed), BatteryStatus::Discharging);
    let idle = vec![
        reading("BAT0", 1, 2, 0, BatteryStatus::Unknown),
        reading("BAT1", 1, 2, 0, BatteryStatus::Unknown),
    ];
    assert_eq!(resolve_status(&idle), BatteryStatus::Unknown);
    let charging = vec![reading("BAT0", 1, 2, 0, BatteryStatus::Charging)];
    assert_eq!(resolve_status(&charging), BatteryStatus::Charging);
}

#[test]
fn annotation_sign_follows_status() {
    assert_eq!(calc_display_time(BatteryStatus::Discharging, 3660), " (-1:01)");
    assert_eq!(calc_display_time(BatteryStatus::Charging, 3660), " (+1:01)");
    assert_eq!(calc_display_time(BatteryStatus::Unknown, 3660), "");
}

#[test]
fn hours_are_unpadded_and_unbounded() {
    assert_eq!(calc_display_time(BatteryStatus::Charging, 0), " (+0:00)");
    assert_eq!(calc_display_time(BatteryStatus::Charging, 125 * 3600 + 9 * 60 + 59), " (+125:09)");
}

#[test]
fn percentage_rounds_to_hundredths() {
    let third = vec![reading("BAT0", 1, 3, 0, BatteryStatus::Unknown)];
    assert_eq!(calc_percentage(&third), 3333);
    assert_eq!(line(&third, FULL_THRESHOLD), "33.33%");
    let two_thirds = vec![reading("BAT0", 2, 3, 0, BatteryStatus::Unknown)];
    assert_eq!(calc_percentage(&two_thirds), 6667);
    let half_hundredth = vec![reading("BAT0", 1, 20000, 0, BatteryStatus::Unknown)];
    assert_eq!(calc_percentage(&half_hundredth), 1);
    assert_eq!(line(&half_hundredth, FULL_THRESHOLD), "0.01%");
}

#[test]
fn percentage_over_full_is_kept() {
    let bats = vec![reading("BAT0", 10100, 10000, 0, BatteryStatus::Unknown)];
    assert_eq!(line(&bats, FULL_THRESHOLD), "101.00%");
}

#[test]
fn zero_capacity_gives_zero_percent() {
    let bats = vec![reading("BAT0", 0, 0, 0, BatteryStatus::Unknown)];
    assert_eq!(calc_percentage(&bats), 0);
}

#[test]
fn zero_draw_gives_zero_time() {
    let bats = vec![reading("BAT0", 5000, 10000, 0, BatteryStatus::Discharging)];
    assert_eq!(line(&bats, FULL_THRESHOLD), "50.00% (-0:00)");
    let charging = vec![reading("BAT0", 5000, 10000, 0, BatteryStatus::Charging)];
    assert_eq!(line(&charging, FULL_THRESHOLD), "50.00% (+0:00)");
}

#[test]
fn charge_threshold_shortens_charging() {
    let bats = vec![reading("BAT0", 6000, 10000, 1000, BatteryStatus::Charging)];
    assert_eq!(calc_time(&bats, BatteryStatus::Charging, 8000), 2 * 3600);
    assert_eq!(line(&bats, 8000), "60.00% (+2:00)");
    let above = vec![reading("BAT0", 9000, 10000, 1000, BatteryStatus::Charging)];
    assert_eq!(calc_time(&above, BatteryStatus::Charging, 8000), 0);
}

#[test]
fn unknown_status_gives_no_time() {
    let bats = vec![reading("BAT0", 5000, 10000, 1000, BatteryStatus::Unknown)];
    assert_eq!(calc_time(&bats, BatteryStatus::Unknown, FULL_THRESHOLD), 0);
    assert_eq!(line(&bats, FULL_THRESHOLD), "50.00%");
}

#[test]
fn large_totals_do_not_overflow() {
    let bats = vec![
        reading("BAT0", u32::MAX, u32::MAX, 1, BatteryStatus::Discharging),
        reading("BAT1", u32::MAX, u32::MAX, 0, BatteryStatus::Discharging),
    ];
    let config = get_configuration(&bats, FULL_THRESHOLD);
    assert_eq!(config.percentage, 10000);
    assert_eq!(config.time_to_completion, 2 * (u32::MAX as u64) * 3600);
}

#[test]
fn line_sign_marks() {
    let charging = vec![reading("BAT0", 8000, 10000, 2000, BatteryStatus::Charging)];
    let discharging = vec![reading("BAT0", 8000, 10000, 2000, BatteryStatus::Discharging)];
    let idle = vec![reading("BAT0", 8000, 10000, 2000, BatteryStatus::Unknown)];
    let c = line(&charging, FULL_THRESHOLD);
    let d = line(&discharging, FULL_THRESHOLD);
    let u = line(&idle, FULL_THRESHOLD);
    assert!(c.contains("(+") && !c.contains("(-"));
    assert!(d.contains("(-") && !d.contains("(+"));
    assert!(!u.contains('(') && u.ends_with('%'));
}
