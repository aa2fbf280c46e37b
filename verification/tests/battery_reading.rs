use aurora::battery::{probe, read, Reading, SupplyEntry};

fn entry(name: &str, capacity: Option<&str>, status: Option<&str>) -> SupplyEntry {
    SupplyEntry { name: name.to_string(), reading: read(capacity, status) }
}

#[test]
fn a_discharging_battery_reads_its_charge() {
    let entries = vec![entry("BAT0", Some("12\n"), Some("Discharging\n"))];

    assert_eq!(probe(&entries).as_deref(), Some("BAT0"));
    let reading = read(Some("12\n"), Some("Discharging\n")).expect("readable");
    assert_eq!(reading.percent, 12);
    assert!(reading.discharging);
}

#[test]
fn not_charging_is_not_discharging() {
    let reading = read(Some("76\n"), Some("Not charging\n")).expect("readable");

    assert_eq!(reading.percent, 76);
    assert!(!reading.discharging);
}

#[test]
fn charging_is_not_discharging() {
    let reading = read(Some("40\n"), Some("Charging\n")).expect("readable");

    assert!(!reading.discharging);
}

#[test]
fn a_machine_without_a_battery_finds_none() {
    let entries = vec![entry("ADP0", None, None), entry("ucsi-source-psy-USBC000:001", None, None)];

    assert!(probe(&entries).is_none());
}

#[test]
fn a_missing_power_supply_directory_finds_none() {
    assert!(probe(&Vec::new()).is_none());
}

#[test]
fn a_battery_missing_its_capacity_is_skipped_for_one_that_reads() {
    let entries = vec![entry("BAT0", None, Some("Discharging\n")), entry("BAT1", Some("55\n"), Some("Discharging\n"))];

    assert_eq!(probe(&entries).as_deref(), Some("BAT1"));
}

#[test]
fn a_charge_above_one_hundred_is_rejected() {
    assert!(read(Some("140\n"), Some("Discharging\n")).is_none());
}

#[test]
fn an_unparseable_charge_is_rejected() {
    assert!(read(Some("full\n"), Some("Discharging\n")).is_none());
}

#[test]
fn the_first_battery_by_name_is_watched_whatever_the_listing_order() {
    let entries = vec![
        entry("BAT1", Some("80\n"), Some("Charging\n")),
        entry("AC", None, None),
        entry("BAT0", Some("55\n"), Some("Discharging\n")),
    ];

    assert_eq!(probe(&entries).as_deref(), Some("BAT0"));
}

#[test]
fn a_missing_status_gives_no_reading() {
    assert_eq!(read(Some("50"), None), None::<Reading>);
}

#[test]
fn a_value_longer_than_the_limit_is_rejected_not_parsed() {
    let long_capacity = format!("{}50\n", " ".repeat(63));
    assert_eq!(long_capacity.len(), 66);
    assert_eq!(aurora::battery::read(Some(long_capacity.as_str()), Some("Discharging")), None);
    let fits = format!("{}50\n", " ".repeat(61));
    assert_eq!(fits.len(), 64);
    assert!(aurora::battery::read(Some(fits.as_str()), Some("Discharging")).is_some());
    let long_status = format!("Discharging{}", " ".repeat(60));
    assert_eq!(aurora::battery::read(Some("50"), Some(long_status.as_str())), None);
}
