use aurora::client::ClientError;
use aurora::daemon::Core;
use aurora::doctor::{
    check_access, check_aurora, check_battery, check_controller, check_daemon, check_service, check_system, check_udev,
    describe_keyboard, os_release_field, report_lines, Check, DaemonContact, Health, Palette, Report, RuleFile,
    VendorDevice,
};
use aurora::driver::{DriverError, RangeErrorKind};
use aurora::ipc::{KeyboardStatus, Response};
use aurora::settings::Settings;

fn rule(dir: &str, name: &str) -> RuleFile {
    RuleFile { dir: dir.to_string(), name: name.to_string() }
}

#[test]
fn a_report_counts_only_the_failed_checks() {
    let checks = vec![
        Check::new("a", Health::Good, "fine".to_string()),
        Check::new("b", Health::Fail, "broken".to_string()),
        Check::new("c", Health::Warn, "odd".to_string()),
        Check::new("d", Health::Fail, "broken too".to_string()),
    ];
    let report = Report::new("1.0.0", checks);
    assert_eq!(report.problems, 2);
    assert_eq!(report.checks.len(), 4);
}

#[test]
fn the_aurora_check_names_version_arch_and_protocol() {
    let check = check_aurora("0.30.0", "x86_64");
    assert_eq!(check.summary, "aurora 0.30.0 on x86_64");
    assert_eq!(check.detail, vec!["protocol version 2".to_string()]);
    assert_eq!(check.health, Health::Good);
}

#[test]
fn the_system_check_fills_in_what_it_could_not_read() {
    let check = check_system(Some("Fedora Linux 41".to_string()), None, None, Some("GNOME".to_string()));
    assert_eq!(check.summary, "Fedora Linux 41, kernel unknown kernel");
    assert_eq!(check.detail, vec!["session unknown, desktop GNOME".to_string()]);
}

#[test]
fn a_supported_controller_is_listed_in_hex() {
    let check = check_controller(Ok(vec![
        VendorDevice { product_id: 0xc103, supported: false },
        VendorDevice { product_id: 0xc985, supported: true },
    ]));
    assert_eq!(check.health, Health::Good);
    assert_eq!(check.summary, "lighting controller 048d:c985 on the USB bus");
}

#[test]
fn an_empty_bus_fails_with_the_reboot_fix() {
    let check = check_controller(Ok(Vec::new()));
    assert_eq!(check.health, Health::Fail);
    assert_eq!(check.summary, "no Lenovo device on the USB bus at all");
    assert!(check.fix.expect("a fix").contains("only a reboot brings it back"));
}

#[test]
fn other_lenovo_devices_are_reported_by_id() {
    let check = check_controller(Ok(vec![VendorDevice { product_id: 0xc103, supported: false }]));
    assert_eq!(check.health, Health::Fail);
    assert_eq!(check.summary, "Lenovo devices on the bus, but no lighting controller among them: 048d:c103");
    assert_eq!(check.detail.len(), 1);
}

#[test]
fn an_unreadable_bus_is_unknown() {
    let check = check_controller(Err("no usb".to_string()));
    assert_eq!(check.health, Health::Unknown);
    assert_eq!(check.summary, "could not read the USB bus: no usb");
}

#[test]
fn refused_access_names_the_udev_fix_whatever_the_case() {
    let check = check_access(Err(DriverError::Hid { message: "PERMISSION DENIED".to_string() }));
    assert_eq!(check.health, Health::Fail);
    assert_eq!(check.summary, "the controller is on the bus but Aurora may not open it");
    assert_eq!(check.detail, vec!["PERMISSION DENIED".to_string()]);
    assert!(check.fix.is_some());
}

#[test]
fn other_open_failures_carry_the_readable_reason() {
    let check = check_access(Err(DriverError::Hid { message: "hidapi error: hid_error is not implemented yet".to_string() }));
    assert_eq!(check.summary, "the controller is on the bus but did not open");
    assert_eq!(
        check.detail,
        vec!["the keyboard did not answer, and the HID backend does not report why".to_string()]
    );
    assert!(check.fix.is_none());
}

#[test]
fn access_is_good_or_unknown_without_a_failure() {
    assert_eq!(check_access(Ok(())).health, Health::Good);
    assert_eq!(check_access(Err(DriverError::DeviceNotFound)).health, Health::Unknown);
    assert_eq!(check_access(Err(DriverError::Range { kind: RangeErrorKind::Zone })).health, Health::Fail);
}

#[test]
fn a_late_rule_is_a_warning_naming_its_path() {
    let check = check_udev(&vec![rule("/etc/udev/rules.d", "99-aurora.rules"), rule("/etc/udev/rules.d", "50-other.rules")]);
    assert_eq!(check.health, Health::Warn);
    assert_eq!(check.summary, "udev rule sorts too late to grant access: /etc/udev/rules.d/99-aurora.rules");
    assert!(check.detail[0].starts_with("systemd's 73-seat-late.rules"));
}

#[test]
fn an_early_rule_is_good_and_a_missing_one_warns() {
    let good = check_udev(&vec![rule("/usr/lib/udev/rules.d", "70-aurora.rules")]);
    assert_eq!(good.health, Health::Good);
    assert_eq!(good.summary, "udev rule /usr/lib/udev/rules.d/70-aurora.rules");

    let missing = check_udev(&vec![rule("/etc/udev/rules.d", "60-other.rules")]);
    assert_eq!(missing.health, Health::Warn);
    assert_eq!(missing.summary, "no Aurora udev rule found");
}

#[test]
fn the_service_check_reads_systemctls_answer() {
    assert_eq!(check_service(Some("active\n".to_string())).health, Health::Good);
    let inactive = check_service(Some("inactive\n".to_string()));
    assert_eq!(inactive.health, Health::Warn);
    assert_eq!(inactive.summary, "aurora.service is inactive");
    assert!(inactive.fix.is_some());
    assert_eq!(check_service(None).health, Health::Unknown);
}

#[test]
fn the_battery_check_names_the_battery() {
    assert_eq!(
        check_battery(Some(Some("BAT0".to_string()))).summary,
        "BAT0 found, so the low battery alert and Battery effect work"
    );
    assert_eq!(check_battery(Some(None)).summary, "battery found, so the low battery alert and Battery effect work");
    assert_eq!(check_battery(None).health, Health::Warn);
}

fn daemon_state(version: &str, keyboard: KeyboardStatus) -> Response {
    let mut core = Core::new(Settings::default_settings(), false, version.to_string());
    core.keyboard_status = keyboard;
    Response::State { state: core.state_snapshot() }
}

#[test]
fn the_daemon_check_compares_versions_and_the_keyboard() {
    let same = check_daemon("1.2.3", DaemonContact::Answered(daemon_state("1.2.3", KeyboardStatus::Connected)));
    assert_eq!(same.health, Health::Good);
    assert_eq!(same.summary, "daemon running v1.2.3, keyboard connected");

    let older = check_daemon("1.2.4", DaemonContact::Answered(daemon_state("1.2.3", KeyboardStatus::Searching)));
    assert_eq!(older.health, Health::Warn);
    assert_eq!(older.summary, "daemon running v1.2.3, but this build is v1.2.4, keyboard searching");

    let lost = check_daemon("1.2.3", DaemonContact::Answered(daemon_state("1.2.3", KeyboardStatus::Lost)));
    assert_eq!(lost.health, Health::Fail);
}

#[test]
fn the_daemon_check_tells_a_mismatch_from_no_daemon() {
    let mismatch = check_daemon("1", DaemonContact::ConnectFailed(ClientError::Protocol("v1 vs v2".to_string())));
    assert_eq!(mismatch.health, Health::Fail);
    assert_eq!(mismatch.detail, vec!["v1 vs v2".to_string()]);

    let absent = check_daemon("1", DaemonContact::ConnectFailed(ClientError::Io("No such file".to_string())));
    assert_eq!(absent.health, Health::Warn);
    assert_eq!(absent.summary, "daemon not running");

    let silent = check_daemon("1", DaemonContact::RequestFailed(ClientError::Io("timed out".to_string())));
    assert_eq!(silent.summary, "daemon running, but did not answer: io error talking to daemon: timed out");

    let odd = check_daemon("1", DaemonContact::Answered(Response::Done));
    assert_eq!(odd.summary, "daemon running, but sent something other than state");
}

#[test]
fn keyboard_states_read_as_words() {
    assert_eq!(describe_keyboard(&KeyboardStatus::Error { message: "boom".to_string() }), "error (boom)");
    assert_eq!(describe_keyboard(&KeyboardStatus::PermissionDenied { message: "x".to_string() }), "access denied");
}

#[test]
fn os_release_values_are_unquoted() {
    let contents = "NAME=\"Fedora Linux\"\nPRETTY_NAME=\"Fedora Linux 41 (Workstation Edition)\"\nID=fedora\n";
    assert_eq!(
        os_release_field(contents, "PRETTY_NAME").as_deref(),
        Some("Fedora Linux 41 (Workstation Edition)")
    );
    assert_eq!(os_release_field(contents, "ID").as_deref(), Some("fedora"));
    assert_eq!(os_release_field(contents, "VERSION"), None);
}

#[test]
fn a_leading_number_of_any_length_is_compared_whole() {
    assert!(aurora::doctor::rule_sorts_too_late("99999999999-aurora.rules"));
    assert!(!aurora::doctor::rule_sorts_too_late("00000000000000000000072-aurora.rules"));
    assert!(aurora::doctor::rule_sorts_too_late("0073-aurora.rules"));
}

#[test]
fn the_human_report_marks_each_check_and_counts_problems() {
    let report = Report::new(
        "1.0.0",
        vec![
            Check::new("a", Health::Good, "all fine".to_string()),
            Check::new("b", Health::Fail, "broken".to_string()).with_detail("why".to_string()).with_fix("do this"),
        ],
    );
    let lines = report_lines(&report, &Palette::plain());
    assert_eq!(
        lines,
        vec![
            "Aurora doctor".to_string(),
            "".to_string(),
            "  ok    all fine".to_string(),
            "  fail  broken".to_string(),
            "        why".to_string(),
            "        fix: do this".to_string(),
            "".to_string(),
            "1 problem found. Paste this into a bug report if the fix does not help:".to_string(),
            "https://github.com/HughScott2002/Aurora-Legion/issues/new/choose".to_string(),
        ]
    );
}

#[test]
fn colour_is_only_for_a_willing_terminal() {
    assert_eq!(Palette::for_terminal(true, None, None).ok, "\x1b[32m");
    assert_eq!(Palette::for_terminal(false, None, None).ok, "");
    assert_eq!(Palette::for_terminal(true, Some("1".to_string()), None).ok, "");
    assert_eq!(Palette::for_terminal(true, Some(String::new()), None).ok, "\x1b[32m");
    assert_eq!(Palette::for_terminal(true, None, Some("dumb".to_string())).reset, "");
}

#[test]
fn wrapping_counts_bytes_and_splits_on_any_whitespace() {
    assert_eq!(aurora::doctor::wrap("aa\tbb\ncc", 5), vec!["aa bb".to_string(), "cc".to_string()]);
    assert_eq!(aurora::doctor::wrap("ééé x", 7), vec!["ééé".to_string(), "x".to_string()]);
    assert!(aurora::doctor::wrap("   ", 10).is_empty());
}
