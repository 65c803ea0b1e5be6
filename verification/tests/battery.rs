use powerctl::battery::{
    compute_health, estimate_time_remaining, find_battery, format_duration, parse_capacity,
    parse_energy, parse_power, read_battery_info, BatteryReadings,
};

fn text(s: &str) -> Option<String> {
    Some(s.to_string())
}

fn readings() -> BatteryReadings {
    BatteryReadings {
        capacity: text("85\n"),
        status: text("Discharging\n"),
        energy_full: text("8000\n"),
        energy_full_design: text("10000\n"),
        power_now: text("1500\n"),
        energy_now: text("3000\n"),
    }
}

#[test]
fn health_is_full_over_design_in_percent() {
    assert_eq!(compute_health(8000, 10000), Some(80));
}

#[test]
fn health_rounds_to_the_nearest_percent() {
    assert_eq!(compute_health(8765, 10000), Some(88));
    assert_eq!(compute_health(8749, 10000), Some(87));
    assert_eq!(compute_health(8750, 10000), Some(88));
    assert_eq!(compute_health(1, 3), Some(33));
    assert_eq!(compute_health(2, 3), Some(67));
    assert_eq!(compute_health(0, 10000), Some(0));
    assert_eq!(compute_health(49, 10000), Some(0));
    assert_eq!(compute_health(50, 10000), Some(1));
    assert_eq!(compute_health(10000, 10000), Some(100));
    assert_eq!(compute_health(10300, 10000), Some(103));
}

#[test]
fn health_stops_at_the_ceiling() {
    assert_eq!(compute_health(25500, 10000), Some(255));
    assert_eq!(compute_health(25549, 10000), Some(255));
    assert_eq!(compute_health(30000, 10000), Some(255));
    assert_eq!(compute_health(u64::MAX, 1), Some(255));
    assert_eq!(compute_health(u64::MAX, u64::MAX), Some(100));
}

#[test]
fn health_needs_a_design_charge() {
    assert_eq!(compute_health(8000, 0), None);
    assert_eq!(compute_health(0, 0), None);
}

#[test]
fn time_remaining_discharging() {
    let t = estimate_time_remaining("Discharging", Some(1500), None, Some(3000));
    assert_eq!(t.as_deref(), Some("2h 0m remaining"));
}

#[test]
fn time_remaining_charging() {
    let t = estimate_time_remaining("Charging", Some(1000), Some(6000), Some(3000));
    assert_eq!(t.as_deref(), Some("3h 0m until full"));
}

#[test]
fn time_remaining_absent_without_power() {
    let statuses = ["Charging", "Discharging", "Unknown", "Full", ""];
    let energies = [None, Some(0), Some(3000), Some(u64::MAX)];
    for status in statuses {
        for full in energies {
            for now in energies {
                assert_eq!(estimate_time_remaining(status, Some(0), full, now), None);
                assert_eq!(estimate_time_remaining(status, Some(-1500), full, now), None);
                assert_eq!(estimate_time_remaining(status, Some(i64::MIN), full, now), None);
                assert_eq!(estimate_time_remaining(status, None, full, now), None);
            }
        }
    }
}

#[test]
fn time_remaining_needs_the_energy_figures() {
    assert_eq!(estimate_time_remaining("Discharging", Some(1500), Some(6000), None), None);
    assert_eq!(estimate_time_remaining("Charging", Some(1500), None, Some(3000)), None);
    assert_eq!(estimate_time_remaining("Charging", Some(1500), Some(6000), None), None);
    assert_eq!(estimate_time_remaining("Charging", Some(1500), None, None), None);
}

#[test]
fn time_remaining_splits_hours_and_rounded_minutes() {
    let t = |energy: u64, power: i64| {
        estimate_time_remaining("Discharging", Some(power), None, Some(energy)).unwrap()
    };
    assert_eq!(t(0, 1500), "0h 0m remaining");
    assert_eq!(t(1500, 1500), "1h 0m remaining");
    assert_eq!(t(2250, 1500), "1h 30m remaining");
    assert_eq!(t(1000, 3000), "0h 20m remaining");
    assert_eq!(t(100, 7), "14h 17m remaining");
    assert_eq!(t(3601, 3600), "1h 0m remaining");
    assert_eq!(t(3630, 3600), "1h 1m remaining");
    assert_eq!(t(3629, 3600), "1h 0m remaining");
    assert_eq!(t(119, 120), "0h 60m remaining");
    assert_eq!(t(u64::MAX, 1), "18446744073709551615h 0m remaining");
    assert_eq!(t(u64::MAX, i64::MAX), "2h 0m remaining");
}

#[test]
fn time_remaining_other_statuses_count_down() {
    let t = estimate_time_remaining("Not charging", Some(1000), Some(6000), Some(3000));
    assert_eq!(t.as_deref(), Some("3h 0m remaining"));
    let t = estimate_time_remaining("charging", Some(1000), Some(6000), Some(3000));
    assert_eq!(t.as_deref(), Some("3h 0m remaining"));
    let t = estimate_time_remaining("Unknown", Some(2000), None, Some(3000));
    assert_eq!(t.as_deref(), Some("1h 30m remaining"));
}

#[test]
fn time_remaining_charging_past_full_is_zero() {
    let t = estimate_time_remaining("Charging", Some(1000), Some(6000), Some(6100));
    assert_eq!(t.as_deref(), Some("0h 0m until full"));
    let t = estimate_time_remaining("Charging", Some(1000), Some(6000), Some(6000));
    assert_eq!(t.as_deref(), Some("0h 0m until full"));
}

#[test]
fn format_duration_picks_the_suffix_by_direction() {
    assert_eq!(format_duration(90, 60, true), "1h 30m until full");
    assert_eq!(format_duration(90, 60, false), "1h 30m remaining");
    assert_eq!(format_duration(0, 1, true), "0h 0m until full");
    assert_eq!(format_duration(59, 60, false), "0h 59m remaining");
}

#[test]
fn capacity_is_a_percentage() {
    assert_eq!(parse_capacity("0"), Some(0));
    assert_eq!(parse_capacity("85\n"), Some(85));
    assert_eq!(parse_capacity(" 100 "), Some(100));
    assert_eq!(parse_capacity("+7"), Some(7));
    assert_eq!(parse_capacity("101"), None);
    assert_eq!(parse_capacity("255"), None);
    assert_eq!(parse_capacity("256"), None);
    assert_eq!(parse_capacity("-1"), None);
    assert_eq!(parse_capacity(""), None);
    assert_eq!(parse_capacity("full"), None);
    assert_eq!(parse_capacity("85%"), None);
    assert_eq!(parse_capacity("8 5"), None);
}

#[test]
fn energy_and_power_readings() {
    assert_eq!(parse_energy("8000\n"), Some(8000));
    assert_eq!(parse_energy("  0"), Some(0));
    assert_eq!(parse_energy("-8000"), None);
    assert_eq!(parse_energy("8000.5"), None);
    assert_eq!(parse_energy("\n"), None);
    assert_eq!(parse_power("1500\n"), Some(1500));
    assert_eq!(parse_power("-1500\n"), Some(-1500));
    assert_eq!(parse_power("0"), Some(0));
    assert_eq!(parse_power("watts"), None);
}

#[test]
fn find_battery_takes_the_first_battery() {
    let kinds = vec![text("Mains\n"), None, text("Battery\n"), text("Battery\n")];
    assert_eq!(find_battery(&kinds), Some(2));
    let kinds = vec![text(" Battery ")];
    assert_eq!(find_battery(&kinds), Some(0));
}

#[test]
fn find_battery_finds_none() {
    assert_eq!(find_battery(&Vec::new()), None);
    let kinds = vec![text("Mains\n"), text("USB\n"), None, text("battery\n"), text("Batteries")];
    assert_eq!(find_battery(&kinds), None);
}

#[test]
fn snapshot_from_full_readings() {
    let info = read_battery_info(&readings()).unwrap();
    assert_eq!(info.capacity(), 85);
    assert_eq!(info.status(), "Discharging");
    assert_eq!(info.health(), Some(80));
    assert_eq!(info.time_remaining(), Some("2h 0m remaining"));
}

#[test]
fn snapshot_while_charging() {
    let r = BatteryReadings {
        status: text("Charging\n"),
        energy_full: text("6000\n"),
        energy_full_design: text("6000\n"),
        power_now: text("1000\n"),
        energy_now: text("3000\n"),
        ..readings()
    };
    let info = read_battery_info(&r).unwrap();
    assert_eq!(info.status(), "Charging");
    assert_eq!(info.health(), Some(100));
    assert_eq!(info.time_remaining(), Some("3h 0m until full"));
}

#[test]
fn snapshot_needs_a_capacity() {
    assert!(read_battery_info(&BatteryReadings { capacity: None, ..readings() }).is_none());
    assert!(read_battery_info(&BatteryReadings { capacity: text("n/a"), ..readings() }).is_none());
    assert!(read_battery_info(&BatteryReadings { capacity: text(""), ..readings() }).is_none());
    assert!(read_battery_info(&BatteryReadings { capacity: text("150"), ..readings() }).is_none());
}

#[test]
fn snapshot_status_defaults_to_unknown() {
    let info = read_battery_info(&BatteryReadings { status: None, ..readings() }).unwrap();
    assert_eq!(info.status(), "Unknown");
    assert_eq!(info.capacity(), 85);
    assert_eq!(info.health(), Some(80));
    assert_eq!(info.time_remaining(), Some("2h 0m remaining"));
}

#[test]
fn snapshot_fields_fail_alone() {
    let info =
        read_battery_info(&BatteryReadings { energy_full_design: None, ..readings() }).unwrap();
    assert_eq!(info.health(), None);
    assert_eq!(info.time_remaining(), Some("2h 0m remaining"));

    let info =
        read_battery_info(&BatteryReadings { energy_full: text("?"), ..readings() }).unwrap();
    assert_eq!(info.health(), None);
    assert_eq!(info.time_remaining(), Some("2h 0m remaining"));

    let info = read_battery_info(&BatteryReadings { energy_now: None, ..readings() }).unwrap();
    assert_eq!(info.health(), Some(80));
    assert_eq!(info.time_remaining(), None);

    let info = read_battery_info(&BatteryReadings { power_now: None, ..readings() }).unwrap();
    assert_eq!(info.health(), Some(80));
    assert_eq!(info.time_remaining(), None);

    let info = read_battery_info(&BatteryReadings {
        capacity: text("42"),
        status: None,
        energy_full: None,
        energy_full_design: None,
        power_now: None,
        energy_now: None,
    })
    .unwrap();
    assert_eq!(info.capacity(), 42);
    assert_eq!(info.status(), "Unknown");
    assert_eq!(info.health(), None);
    assert_eq!(info.time_remaining(), None);
}

#[test]
fn snapshot_without_power_draw_has_no_estimate() {
    for power in ["0", "0\n", "-0", "-1500", "+0", "", "idle"] {
        for status in ["Charging", "Discharging", "Full"] {
            let r = BatteryReadings { power_now: text(power), status: text(status), ..readings() };
            let info = read_battery_info(&r).unwrap();
            assert_eq!(info.time_remaining(), None);
            assert_eq!(info.health(), Some(80));
        }
    }
}

#[test]
fn snapshot_charging_needs_full_charge_for_the_estimate() {
    let r = BatteryReadings { status: text("Charging"), energy_full: None, ..readings() };
    let info = read_battery_info(&r).unwrap();
    assert_eq!(info.time_remaining(), None);
    assert_eq!(info.health(), None);
}

#[test]
fn snapshot_status_is_trimmed_before_it_is_compared() {
    let r = BatteryReadings {
        status: text("  Charging \n"),
        energy_full: text("6000"),
        power_now: text("1000"),
        energy_now: text("3000"),
        ..readings()
    };
    let info = read_battery_info(&r).unwrap();
    assert_eq!(info.status(), "Charging");
    assert_eq!(info.time_remaining(), Some("3h 0m until full"));
}
