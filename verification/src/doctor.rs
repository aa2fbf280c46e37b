//! `aurora doctor`: what this machine looks like to Aurora, and what is
//! stopping it working.
//!
//! Each check here decides from the facts the program gathered (files,
//! the USB bus, the daemon's answer, `systemctl`); gathering and printing
//! are the program's. One line per check, with a health marker; a report
//! counts the failed checks, and a non-zero count is the failure a script
//! branches on.
use vstd::prelude::*;

use crate::client::ClientError;
use crate::driver::{DriverError, VENDOR_ID};
use crate::ipc::{KeyboardStatus, KeyboardStatusView, Response, PROTOCOL_VERSION};
use crate::keyboard::{readable_error, spec_readable_error};
use crate::battery::{spec_digit_value, spec_digits_value, spec_is_digit};
use crate::text::{
    join, lowercase, owned, push_decimal, push_hex4, push_str, same_text, spec_contains, spec_decimal,
    spec_hex4, spec_join, spec_texts, spec_trim, str_contains, to_lowercase, trim_str, chars_of, seq_equal,
};

verus! {

/// What one check found.
#[derive(Clone, Copy, Debug, PartialEq, Eq, Structural)]
pub enum Health {
    /// Working.
    Good,
    /// Working, or not needed, but worth knowing about.
    Warn,
    /// Broken, and Aurora cannot do its job until it is fixed.
    Fail,
    /// Could not be determined on this machine.
    Unknown,
}

/// One line of the report.
#[derive(Clone, Debug)]
pub struct Check {
    pub name: &'static str,
    pub health: Health,
    pub summary: String,
    /// Facts a maintainer reading a bug report wants, printed under the
    /// summary. Never required to understand the summary.
    pub detail: Vec<String>,
    /// What the user should do about it, where there is something to do.
    pub fix: Option<String>,
}

/// A check as contracts see it.
pub struct CheckView {
    pub name: Seq<char>,
    pub health: Health,
    pub summary: Seq<char>,
    pub detail: Seq<Seq<char>>,
    pub fix: Option<Seq<char>>,
}

/// The characters of an optional text.
pub open spec fn spec_opt_text(t: Option<String>) -> Option<Seq<char>> {
    match t {
        Some(s) => Some(s@),
        None => None,
    }
}

impl View for Check {
    type V = CheckView;

    open spec fn view(&self) -> CheckView {
        CheckView {
            name: self.name@,
            health: self.health,
            summary: self.summary@,
            detail: spec_texts(self.detail@),
            fix: spec_opt_text(self.fix),
        }
    }
}

/// A check with no detail and no fix.
pub open spec fn spec_plain_check(name: Seq<char>, health: Health, summary: Seq<char>) -> CheckView {
    CheckView { name, health, summary, detail: seq![], fix: None }
}

impl Check {
    pub fn new(name: &'static str, health: Health, summary: String) -> (c: Check)
        ensures
            c@ == spec_plain_check(name@, health, summary@),
    {
        let c = Check { name, health, summary, detail: Vec::new(), fix: None };
        assert(spec_texts(c.detail@) =~= seq![]);
        c
    }

    /// The check with one more line of detail.
    pub fn with_detail(self, line: String) -> (c: Check)
        ensures
            c@ == (CheckView { detail: self@.detail.push(line@), ..self@ }),
    {
        let mut c = self;
        let ghost before = c.detail@;
        c.detail.push(line);
        assert(spec_texts(c.detail@) =~= spec_texts(before).push(line@));
        c
    }

    /// The check with what to do about it.
    pub fn with_fix(self, fix: &str) -> (c: Check)
        ensures
            c@ == (CheckView { fix: Some(fix@), ..self@ }),
    {
        let mut c = self;
        c.fix = Some(owned(fix));
        c
    }
}

/// The checks as contracts see them.
pub open spec fn spec_check_views(v: Seq<Check>) -> Seq<CheckView> {
    v.map_values(|c: Check| c@)
}

/// How many checks failed.
pub open spec fn spec_problems(checks: Seq<CheckView>) -> nat
    decreases checks.len(),
{
    if checks.len() == 0 {
        0
    } else {
        spec_problems(checks.drop_last()) + if checks.last().health == Health::Fail {
            1nat
        } else {
            0nat
        }
    }
}

proof fn lemma_problems_bounded(checks: Seq<CheckView>)
    ensures
        spec_problems(checks) <= checks.len(),
    decreases checks.len(),
{
    if checks.len() > 0 {
        lemma_problems_bounded(checks.drop_last());
    }
}

/// The whole report, as `--json` prints it.
#[derive(Clone, Debug)]
pub struct Report {
    pub aurora: &'static str,
    pub checks: Vec<Check>,
    /// How many checks failed. Zero means nothing needs fixing.
    pub problems: usize,
}

impl Report {
    /// The report on `checks` from aurora version `aurora`.
    pub fn new(aurora: &'static str, checks: Vec<Check>) -> (r: Report)
        ensures
            r.aurora == aurora,
            r.checks@ == checks@,
            r.problems == spec_problems(spec_check_views(checks@)),
    {
        let ghost views = spec_check_views(checks@);
        let mut problems: usize = 0;
        let mut i: usize = 0;
        while i < checks.len()
            invariant
                0 <= i <= checks@.len(),
                views == spec_check_views(checks@),
                views.len() == checks@.len(),
                problems == spec_problems(views.take(i as int)),
                problems <= i,
            decreases checks@.len() - i,
        {
            proof {
                assert(views.take(i as int + 1).drop_last() =~= views.take(i as int));
                assert(views.take(i as int + 1).last() == checks@[i as int]@);
            }
            if checks[i].health == Health::Fail {
                problems = problems + 1;
            }
            i = i + 1;
        }
        assert(views.take(checks@.len() as int) =~= views);
        Report { aurora, checks, problems }
    }
}

/// How a keyboard status reads in the daemon check's summary.
pub open spec fn spec_describe_keyboard(status: KeyboardStatusView) -> Seq<char> {
    match status {
        KeyboardStatusView::Connected => "connected"@,
        KeyboardStatusView::Searching => "searching"@,
        KeyboardStatusView::Lost => "lost"@,
        KeyboardStatusView::PermissionDenied { .. } => "access denied"@,
        KeyboardStatusView::Error { message } => "error ("@ + message + ")"@,
    }
}

pub fn describe_keyboard(status: &KeyboardStatus) -> (r: String)
    ensures
        r@ == spec_describe_keyboard(status@),
{
    match status {
        KeyboardStatus::Connected => owned("connected"),
        KeyboardStatus::Searching => owned("searching"),
        KeyboardStatus::Lost => owned("lost"),
        KeyboardStatus::PermissionDenied { .. } => owned("access denied"),
        KeyboardStatus::Error { message } => {
            let mut r = owned("error (");
            push_str(&mut r, message.as_str());
            push_str(&mut r, ")");
            r
        },
    }
}

/// systemd's `73-seat-late.rules` turns a `uaccess` tag into an ACL, so a
/// rule sorting after it tags the device too late to matter.
pub const UDEV_SEAT_RULE_PREFIX: u32 = 73;

/// How many of the leading characters of `s` are ASCII digits.
pub open spec fn spec_digit_prefix_len(s: Seq<char>) -> nat
    decreases s.len(),
{
    if s.len() == 0 || !spec_is_digit(s[0]) {
        0
    } else {
        1 + spec_digit_prefix_len(s.drop_first())
    }
}

/// Whether a rule file's leading number sorts at or after the seat rule,
/// however many digits it has. A name with no leading number is sorted by
/// udev by its name, which this check is not about, so it is not.
pub open spec fn spec_rule_sorts_too_late(file_name: Seq<char>) -> bool {
    let digits = file_name.take(spec_digit_prefix_len(file_name) as int);
    digits.len() > 0 && spec_digits_value(digits) >= UDEV_SEAT_RULE_PREFIX
}

/// True where a rule file's leading number sorts at or after the seat rule,
/// which is where a `uaccess` tag stops turning into an ACL.
pub fn rule_sorts_too_late(file_name: &str) -> (r: bool)
    ensures
        r == spec_rule_sorts_too_late(file_name@),
{
    let chars = chars_of(file_name);
    let cap: u64 = 4294967296;
    let mut value: u64 = 0;
    let mut i: usize = 0;
    assert(chars@.subrange(0, chars@.len() as int) =~= chars@);
    assert(chars@.take(0) =~= seq![]);
    while i < chars.len() && '0' <= chars[i] && chars[i] <= '9'
        invariant
            chars@ == file_name@,
            0 <= i <= chars@.len(),
            value <= cap,
            cap == 4294967296,
            spec_digit_prefix_len(chars@) == i + spec_digit_prefix_len(chars@.subrange(i as int, chars@.len() as int)),
            value as nat == (if spec_digits_value(chars@.take(i as int)) > cap { cap as nat } else {
                spec_digits_value(chars@.take(i as int))
            }),
        decreases chars@.len() - i,
    {
        let ghost rest = chars@.subrange(i as int, chars@.len() as int);
        assert(rest.drop_first() =~= chars@.subrange(i as int + 1, chars@.len() as int));
        assert(rest[0] == chars@[i as int]);
        let ghost next = chars@.take(i as int + 1);
        assert(next.drop_last() =~= chars@.take(i as int));
        assert(next.last() == chars@[i as int]);
        let digit: u64 = chars[i] as u64 - '0' as u64;
        let candidate: u64 = value * 10 + digit;
        value = if candidate > cap { cap } else { candidate };
        i = i + 1;
    }
    proof {
        let rest = chars@.subrange(i as int, chars@.len() as int);
        if i < chars@.len() {
            assert(rest[0] == chars@[i as int]);
        }
        assert(spec_digit_prefix_len(rest) == 0);
    }
    i > 0 && value >= 73
}

/// ANSI colour for the human report, used only where the conventions allow
/// it.
#[derive(Clone, Copy, Debug)]
pub struct Palette {
    pub ok: &'static str,
    pub warn: &'static str,
    pub fail: &'static str,
    pub dim: &'static str,
    pub reset: &'static str,
}

impl Palette {
    /// Whether every sequence of the palette is empty.
    pub open spec fn spec_is_plain(self) -> bool {
        self.ok@ == ""@ && self.warn@ == ""@ && self.fail@ == ""@ && self.dim@ == ""@ && self.reset@ == ""@
    }

    /// Whether the palette holds the ANSI colours.
    pub open spec fn spec_is_coloured(self) -> bool {
        self.ok@ == "\x1b[32m"@ && self.warn@ == "\x1b[33m"@ && self.fail@ == "\x1b[31m"@ && self.dim@
            == "\x1b[2m"@ && self.reset@ == "\x1b[0m"@
    }

    /// No colour at all.
    pub fn plain() -> (p: Palette)
        ensures
            p.spec_is_plain(),
    {
        Palette { ok: "", warn: "", fail: "", dim: "", reset: "" }
    }

    /// Colour only for an interactive terminal that has not asked to go
    /// without: `NO_COLOR` set to anything non-empty turns it off, and so
    /// does `TERM=dumb`. The arguments are what the environment holds
    /// (`None` where a variable is unset or not Unicode).
    pub fn for_terminal(is_terminal: bool, no_color: Option<String>, term: Option<String>) -> (p: Palette)
        ensures
            (!is_terminal || (no_color matches Some(v) && v@.len() > 0) || (term matches Some(t) && t@
                == "dumb"@)) ==> p.spec_is_plain(),
            !(!is_terminal || (no_color matches Some(v) && v@.len() > 0) || (term matches Some(t) && t@
                == "dumb"@)) ==> p.spec_is_coloured(),
    {
        let no_colour_asked = match &no_color {
            Some(value) => !chars_of(value.as_str()).is_empty(),
            None => false,
        };
        let dumb_terminal = match &term {
            Some(value) => same_text(value.as_str(), "dumb"),
            None => false,
        };
        if !is_terminal || no_colour_asked || dumb_terminal {
            return Palette::plain();
        }
        Palette { ok: "\x1b[32m", warn: "\x1b[33m", fail: "\x1b[31m", dim: "\x1b[2m", reset: "\x1b[0m" }
    }
}

/// A text, or `fallback` where there is none.
pub open spec fn spec_text_or(t: Option<Seq<char>>, fallback: Seq<char>) -> Seq<char> {
    match t {
        Some(s) => s,
        None => fallback,
    }
}

fn text_or(t: Option<String>, fallback: &str) -> (r: String)
    ensures
        r@ == spec_text_or(spec_opt_text(t), fallback@),
{
    match t {
        Some(s) => s,
        None => owned(fallback),
    }
}

/// The version check: this build's version and architecture, and the
/// protocol version it speaks.
pub open spec fn spec_check_aurora(version: Seq<char>, arch: Seq<char>) -> CheckView {
    CheckView {
        name: "aurora"@,
        health: Health::Good,
        summary: "aurora "@ + version + " on "@ + arch,
        detail: seq!["protocol version "@ + spec_decimal(PROTOCOL_VERSION as nat)],
        fix: None,
    }
}

pub fn check_aurora(version: &str, arch: &str) -> (c: Check)
    ensures
        c@ == spec_check_aurora(version@, arch@),
{
    let mut summary = owned("aurora ");
    push_str(&mut summary, version);
    push_str(&mut summary, " on ");
    push_str(&mut summary, arch);
    let mut detail = owned("protocol version ");
    push_decimal(&mut detail, PROTOCOL_VERSION as u64);
    let c = Check::new("aurora", Health::Good, summary).with_detail(detail);
    assert(c@.detail =~= seq!["protocol version "@ + spec_decimal(PROTOCOL_VERSION as nat)]);
    c
}

/// The system check: distribution and kernel, then the session type and
/// desktop, each `unknown` where it could not be read.
pub open spec fn spec_check_system(
    distro: Option<Seq<char>>,
    kernel: Option<Seq<char>>,
    session: Option<Seq<char>>,
    desktop: Option<Seq<char>>,
) -> CheckView {
    CheckView {
        name: "system"@,
        health: Health::Good,
        summary: spec_text_or(distro, "unknown distro"@) + ", kernel "@ + spec_text_or(kernel, "unknown kernel"@),
        detail: seq![
            "session "@ + spec_text_or(session, "unknown"@) + ", desktop "@ + spec_text_or(desktop, "unknown"@),
        ],
        fix: None,
    }
}

pub fn check_system(
    distro: Option<String>,
    kernel: Option<String>,
    session: Option<String>,
    desktop: Option<String>,
) -> (c: Check)
    ensures
        c@ == spec_check_system(spec_opt_text(distro), spec_opt_text(kernel), spec_opt_text(session), spec_opt_text(desktop)),
{
    let distro = text_or(distro, "unknown distro");
    let kernel = text_or(kernel, "unknown kernel");
    let session = text_or(session, "unknown");
    let desktop = text_or(desktop, "unknown");
    let mut summary = distro;
    push_str(&mut summary, ", kernel ");
    push_str(&mut summary, kernel.as_str());
    let mut detail = owned("session ");
    push_str(&mut detail, session.as_str());
    push_str(&mut detail, ", desktop ");
    push_str(&mut detail, desktop.as_str());
    let ghost line = detail@;
    let c = Check::new("system", Health::Good, summary).with_detail(detail);
    assert(c@.detail =~= seq![line]);
    c
}

/// The service check on what `systemctl --user is-active aurora.service`
/// printed, or `None` where it did not answer in time.
pub open spec fn spec_check_service(output: Option<Seq<char>>) -> CheckView {
    match output {
        None => spec_plain_check("service"@, Health::Unknown, "systemctl did not answer, so the unit state is unknown"@),
        Some(out) => if spec_trim(out) == "active"@ {
            spec_plain_check("service"@, Health::Good, "aurora.service is "@ + spec_trim(out))
        } else {
            CheckView {
                fix: Some(
                    "Aurora runs without systemd, but nothing will start it at login. Enable it with: systemctl --user enable --now aurora"@,
                ),
                ..spec_plain_check("service"@, Health::Warn, "aurora.service is "@ + spec_trim(out))
            }
        },
    }
}

pub fn check_service(output: Option<String>) -> (c: Check)
    ensures
        c@ == spec_check_service(spec_opt_text(output)),
{
    match output {
        None => Check::new(
            "service",
            Health::Unknown,
            owned("systemctl did not answer, so the unit state is unknown"),
        ),
        Some(out) => {
            let state = trim_str(out.as_str());
            let active = same_text(state.as_str(), "active");
            let mut summary = owned("aurora.service is ");
            push_str(&mut summary, state.as_str());
            if active {
                Check::new("service", Health::Good, summary)
            } else {
                Check::new("service", Health::Warn, summary).with_fix(
                    "Aurora runs without systemd, but nothing will start it at login. Enable it with: systemctl --user enable --now aurora",
                )
            }
        },
    }
}

/// The battery check: `None` where the machine has no battery, else the
/// battery directory's name (`None` where it has none, read as `battery`).
pub open spec fn spec_check_battery(battery: Option<Option<Seq<char>>>) -> CheckView {
    match battery {
        None => spec_plain_check(
            "battery"@,
            Health::Warn,
            "no battery, so the low battery alert and Battery effect are hidden"@,
        ),
        Some(name) => spec_plain_check(
            "battery"@,
            Health::Good,
            spec_text_or(name, "battery"@) + " found, so the low battery alert and Battery effect work"@,
        ),
    }
}

pub fn check_battery(battery: Option<Option<String>>) -> (c: Check)
    ensures
        c@ == spec_check_battery(match battery {
            Some(name) => Some(spec_opt_text(name)),
            None => None,
        }),
{
    match battery {
        None => Check::new(
            "battery",
            Health::Warn,
            owned("no battery, so the low battery alert and Battery effect are hidden"),
        ),
        Some(name) => {
            let mut summary = text_or(name, "battery");
            push_str(&mut summary, " found, so the low battery alert and Battery effect work");
            Check::new("battery", Health::Good, summary)
        },
    }
}

/// One device of the vendor on the USB bus, as a scan reports it.
#[derive(Clone, Copy, Debug)]
pub struct VendorDevice {
    pub product_id: u16,
    /// Whether it is a lighting controller Aurora drives.
    pub supported: bool,
}

/// How a device reads in a report: `vvvv:pppp` in lowercase hexadecimal.
pub open spec fn spec_device_id(product_id: u16) -> Seq<char> {
    spec_hex4(VENDOR_ID) + ":"@ + spec_hex4(product_id)
}

/// The ids of the devices that are (`supported`) or are not controllers,
/// in scan order.
pub open spec fn spec_device_ids(devices: Seq<VendorDevice>, supported: bool) -> Seq<Seq<char>>
    decreases devices.len(),
{
    if devices.len() == 0 {
        seq![]
    } else if devices.last().supported == supported {
        spec_device_ids(devices.drop_last(), supported).push(spec_device_id(devices.last().product_id))
    } else {
        spec_device_ids(devices.drop_last(), supported)
    }
}

/// The controller check on a scan of the vendor's devices (or the reason
/// the bus could not be read): a supported controller is good; no device
/// of the vendor at all, or only other devices, is a failure.
pub open spec fn spec_check_controller(scan: Result<Seq<VendorDevice>, Seq<char>>) -> CheckView {
    match scan {
        Err(reason) => spec_plain_check("controller"@, Health::Unknown, "could not read the USB bus: "@ + reason),
        Ok(devices) => if spec_device_ids(devices, true).len() > 0 {
            spec_plain_check(
                "controller"@,
                Health::Good,
                "lighting controller "@ + spec_join(spec_device_ids(devices, true), ", "@) + " on the USB bus"@,
            )
        } else if spec_device_ids(devices, false).len() == 0 {
            CheckView {
                fix: Some(
                    "If the keyboard lit up earlier this boot, the controller stopped answering and only a reboot brings it back. On a machine that has never worked, Aurora does not support this model."@,
                ),
                ..spec_plain_check("controller"@, Health::Fail, "no Lenovo device on the USB bus at all"@)
            }
        } else {
            CheckView {
                name: "controller"@,
                health: Health::Fail,
                summary: "Lenovo devices on the bus, but no lighting controller among them: "@ + spec_join(
                    spec_device_ids(devices, false),
                    ", "@,
                ),
                detail: seq![
                    "048d:c103 is the plain HID keyboard interface, which every Legion has whether its lighting controller is present or not."@,
                ],
                fix: Some(
                    "If the keyboard lit up earlier this boot, the controller stopped answering and only a reboot brings it back. If it has never worked, report these IDs at https://github.com/HughScott2002/Aurora-Legion/issues so the model can be added."@,
                ),
            }
        },
    }
}

pub fn check_controller(scan: Result<Vec<VendorDevice>, String>) -> (c: Check)
    ensures
        c@ == spec_check_controller(match scan {
            Ok(devices) => Ok(devices@),
            Err(reason) => Err(reason@),
        }),
{
    let devices = match scan {
        Ok(devices) => devices,
        Err(reason) => {
            let mut summary = owned("could not read the USB bus: ");
            push_str(&mut summary, reason.as_str());
            return Check::new("controller", Health::Unknown, summary);
        },
    };
    let mut supported: Vec<String> = Vec::new();
    let mut others: Vec<String> = Vec::new();
    let mut i: usize = 0;
    assert(devices@.take(0) =~= seq![]);
    while i < devices.len()
        invariant
            0 <= i <= devices@.len(),
            spec_texts(supported@) == spec_device_ids(devices@.take(i as int), true),
            spec_texts(others@) == spec_device_ids(devices@.take(i as int), false),
        decreases devices@.len() - i,
    {
        let device = devices[i];
        let mut id = String::new();
        push_hex4(&mut id, VENDOR_ID);
        push_str(&mut id, ":");
        push_hex4(&mut id, device.product_id);
        proof {
            assert(id@ =~= spec_device_id(device.product_id));
            assert(devices@.take(i as int + 1).drop_last() =~= devices@.take(i as int));
            assert(devices@.take(i as int + 1).last() == device);
        }
        let ghost s0 = supported@;
        let ghost o0 = others@;
        let ghost idv = id@;
        if device.supported {
            supported.push(id);
            assert(spec_texts(supported@) =~= spec_texts(s0).push(idv));
        } else {
            others.push(id);
            assert(spec_texts(others@) =~= spec_texts(o0).push(idv));
        }
        i = i + 1;
    }
    assert(devices@.take(devices@.len() as int) =~= devices@);
    if supported.len() > 0 {
        let mut summary = owned("lighting controller ");
        let ids = join(&supported, ", ");
        push_str(&mut summary, ids.as_str());
        push_str(&mut summary, " on the USB bus");
        return Check::new("controller", Health::Good, summary);
    }
    if others.len() == 0 {
        return Check::new("controller", Health::Fail, owned("no Lenovo device on the USB bus at all")).with_fix(
            "If the keyboard lit up earlier this boot, the controller stopped answering and only a reboot brings it back. On a machine that has never worked, Aurora does not support this model.",
        );
    }
    let mut summary = owned("Lenovo devices on the bus, but no lighting controller among them: ");
    let ids = join(&others, ", ");
    push_str(&mut summary, ids.as_str());
    let detail = owned(
        "048d:c103 is the plain HID keyboard interface, which every Legion has whether its lighting controller is present or not.",
    );
    let ghost line = detail@;
    let c = Check::new("controller", Health::Fail, summary).with_detail(detail).with_fix(
        "If the keyboard lit up earlier this boot, the controller stopped answering and only a reboot brings it back. If it has never worked, report these IDs at https://github.com/HughScott2002/Aurora-Legion/issues so the model can be added.",
    );
    assert(c@.detail =~= seq![line]);
    c
}

/// The access check on an attempt to open the controller: opening is
/// good; no controller is unknown; any other failure fails, with the
/// readable reason as detail, and the udev fix where access was refused.
pub open spec fn spec_check_access(opened: Result<(), DriverError>) -> CheckView {
    match opened {
        Ok(()) => spec_plain_check("access"@, Health::Good, "the controller opens, so the udev rule is in effect"@),
        Err(DriverError::DeviceNotFound) => spec_plain_check(
            "access"@,
            Health::Unknown,
            "no controller to open; see the controller check above"@,
        ),
        Err(error) => {
            let reason = spec_readable_error(error.spec_describe());
            spec_open_failure(reason, lowercase(reason))
        },
    }
}

/// The access check for a controller that would not open, given the
/// readable reason and its lowercase form: a refusal of access names the
/// udev fix; any other failure just reports the reason.
pub open spec fn spec_open_failure(reason: Seq<char>, lower: Seq<char>) -> CheckView {
    if crate::keyboard::spec_says_denied(lower) {
        CheckView {
            name: "access"@,
            health: Health::Fail,
            summary: "the controller is on the bus but Aurora may not open it"@,
            detail: seq![reason],
            fix: Some(
                "Install the udev rule: https://github.com/HughScott2002/Aurora-Legion/blob/main/docs/how-to/install-linux.md#grant-keyboard-access"@,
            ),
        }
    } else {
        CheckView {
            name: "access"@,
            health: Health::Fail,
            summary: "the controller is on the bus but did not open"@,
            detail: seq![reason],
            fix: None,
        }
    }
}

pub fn open_failure_check(reason: String, lower: &str) -> (c: Check)
    ensures
        c@ == spec_open_failure(reason@, lower@),
{
    let denied = str_contains(lower, "permission denied") || str_contains(lower, "not permitted");
    let ghost line = reason@;
    if denied {
        let c = Check::new("access", Health::Fail, owned("the controller is on the bus but Aurora may not open it"))
            .with_detail(reason).with_fix(
            "Install the udev rule: https://github.com/HughScott2002/Aurora-Legion/blob/main/docs/how-to/install-linux.md#grant-keyboard-access",
        );
        assert(c@.detail =~= seq![line]);
        c
    } else {
        let c = Check::new("access", Health::Fail, owned("the controller is on the bus but did not open")).with_detail(
            reason,
        );
        assert(c@.detail =~= seq![line]);
        c
    }
}

pub fn check_access(opened: Result<(), DriverError>) -> (c: Check)
    ensures
        c@ == spec_check_access(opened),
{
    match opened {
        Ok(()) => Check::new("access", Health::Good, owned("the controller opens, so the udev rule is in effect")),
        Err(DriverError::DeviceNotFound) => Check::new(
            "access",
            Health::Unknown,
            owned("no controller to open; see the controller check above"),
        ),
        Err(error) => {
            let reason = readable_error(error.describe());
            let lower = to_lowercase(reason.as_str());
            open_failure_check(reason, lower.as_str())
        },
    }
}

/// A file found in one of udev's rule directories.
#[derive(Clone, Debug)]
pub struct RuleFile {
    pub dir: String,
    pub name: String,
}

/// Where a rule file lives.
pub open spec fn spec_rule_path(rule: RuleFile) -> Seq<char> {
    rule.dir@ + "/"@ + rule.name@
}

/// The paths of Aurora's rules among `rules` (those whose name mentions
/// `aurora`), in order; with `only_too_late`, just those that sort too late.
pub open spec fn spec_aurora_rules(rules: Seq<RuleFile>, only_too_late: bool) -> Seq<Seq<char>>
    decreases rules.len(),
{
    if rules.len() == 0 {
        seq![]
    } else {
        let r = rules.last();
        let earlier = spec_aurora_rules(rules.drop_last(), only_too_late);
        if spec_contains(r.name@, "aurora"@) && (!only_too_late || spec_rule_sorts_too_late(r.name@)) {
            earlier.push(spec_rule_path(r))
        } else {
            earlier
        }
    }
}

/// The udev check on the files in udev's rule directories, in the order
/// udev reads them: no Aurora rule is a warning, and so is a rule that
/// sorts too late; otherwise the rules found are listed.
pub open spec fn spec_check_udev(rules: Seq<RuleFile>) -> CheckView {
    let found = spec_aurora_rules(rules, false);
    let too_late = spec_aurora_rules(rules, true);
    if found.len() == 0 {
        CheckView {
            name: "udev"@,
            health: Health::Warn,
            summary: "no Aurora udev rule found"@,
            detail: seq!["Only a problem if the access check failed: some setups grant the device another way."@],
            fix: Some(
                "Install the rule: https://github.com/HughScott2002/Aurora-Legion/blob/main/docs/how-to/install-linux.md#grant-keyboard-access"@,
            ),
        }
    } else if too_late.len() > 0 {
        CheckView {
            name: "udev"@,
            health: Health::Warn,
            summary: "udev rule sorts too late to grant access: "@ + spec_join(too_late, ", "@),
            detail: seq![
                "systemd's "@ + spec_decimal(UDEV_SEAT_RULE_PREFIX as nat)
                    + "-seat-late.rules is what turns the uaccess tag into an ACL, so a rule numbered above it tags the device and never gets the ACL applied."@,
            ],
            fix: Some("Upgrade Aurora, or renumber the rule below 73 (#20)."@),
        }
    } else {
        spec_plain_check("udev"@, Health::Good, "udev rule "@ + spec_join(found, ", "@))
    }
}

pub fn check_udev(rules: &Vec<RuleFile>) -> (c: Check)
    ensures
        c@ == spec_check_udev(rules@),
{
    let mut found: Vec<String> = Vec::new();
    let mut too_late: Vec<String> = Vec::new();
    let mut i: usize = 0;
    assert(rules@.take(0) =~= seq![]);
    while i < rules.len()
        invariant
            0 <= i <= rules@.len(),
            spec_texts(found@) == spec_aurora_rules(rules@.take(i as int), false),
            spec_texts(too_late@) == spec_aurora_rules(rules@.take(i as int), true),
        decreases rules@.len() - i,
    {
        let rule = &rules[i];
        proof {
            assert(rules@.take(i as int + 1).drop_last() =~= rules@.take(i as int));
            assert(rules@.take(i as int + 1).last() == rules@[i as int]);
        }
        if str_contains(rule.name.as_str(), "aurora") {
            let mut path = rule.dir.clone();
            push_str(&mut path, "/");
            push_str(&mut path, rule.name.as_str());
            assert(path@ =~= spec_rule_path(rules@[i as int]));
            let ghost pv = path@;
            let ghost f0 = found@;
            if rule_sorts_too_late(rule.name.as_str()) {
                let ghost t0 = too_late@;
                too_late.push(path.clone());
                assert(spec_texts(too_late@) =~= spec_texts(t0).push(pv));
            }
            found.push(path);
            assert(spec_texts(found@) =~= spec_texts(f0).push(pv));
        }
        i = i + 1;
    }
    assert(rules@.take(rules@.len() as int) =~= rules@);
    if found.len() == 0 {
        let detail = owned("Only a problem if the access check failed: some setups grant the device another way.");
        let ghost line = detail@;
        let c = Check::new("udev", Health::Warn, owned("no Aurora udev rule found")).with_detail(detail).with_fix(
            "Install the rule: https://github.com/HughScott2002/Aurora-Legion/blob/main/docs/how-to/install-linux.md#grant-keyboard-access",
        );
        assert(c@.detail =~= seq![line]);
        return c;
    }
    if too_late.len() > 0 {
        let mut summary = owned("udev rule sorts too late to grant access: ");
        let paths = join(&too_late, ", ");
        push_str(&mut summary, paths.as_str());
        let mut detail = owned("systemd's ");
        push_decimal(&mut detail, UDEV_SEAT_RULE_PREFIX as u64);
        push_str(
            &mut detail,
            "-seat-late.rules is what turns the uaccess tag into an ACL, so a rule numbered above it tags the device and never gets the ACL applied.",
        );
        let ghost line = detail@;
        let c = Check::new("udev", Health::Warn, summary).with_detail(detail).with_fix(
            "Upgrade Aurora, or renumber the rule below 73 (#20).",
        );
        assert(c@.detail =~= seq![line]);
        return c;
    }
    let mut summary = owned("udev rule ");
    let paths = join(&found, ", ");
    push_str(&mut summary, paths.as_str());
    Check::new("udev", Health::Good, summary)
}

/// How far talking to the daemon got.
pub enum DaemonContact {
    /// Connecting (socket and handshake) failed.
    ConnectFailed(ClientError),
    /// Connected, but the state request failed.
    RequestFailed(ClientError),
    /// The daemon's answer to the state request.
    Answered(Response),
}

/// The daemon check against this build's version `own_version`: a daemon
/// of another protocol fails, no daemon is a warning, a silent or odd
/// daemon fails; a running one of another version is a warning, and one
/// that lost its keyboard fails.
pub open spec fn spec_check_daemon(own_version: Seq<char>, contact: DaemonContact) -> CheckView {
    match contact {
        DaemonContact::ConnectFailed(ClientError::Protocol(message)) => CheckView {
            name: "daemon"@,
            health: Health::Fail,
            summary: "daemon running, but it speaks a different protocol version"@,
            detail: seq![message@],
            fix: Some(
                "Both sides have to come from the same install. Restart the daemon with: systemctl --user restart aurora"@,
            ),
        },
        DaemonContact::ConnectFailed(ClientError::Io(message)) => CheckView {
            name: "daemon"@,
            health: Health::Warn,
            summary: "daemon not running"@,
            detail: seq![message@],
            fix: Some("Start it with: systemctl --user start aurora   (or: aurora daemon)"@),
        },
        DaemonContact::RequestFailed(error) => spec_plain_check(
            "daemon"@,
            Health::Fail,
            "daemon running, but did not answer: "@ + error.spec_describe(),
        ),
        DaemonContact::Answered(Response::State { state }) => {
            let keyboard = spec_describe_keyboard(state.keyboard@);
            if state.version@ != own_version {
                CheckView {
                    fix: Some(
                        "An upgrade replaced the binaries without restarting the daemon. Restart it with: systemctl --user restart aurora"@,
                    ),
                    ..spec_plain_check(
                        "daemon"@,
                        Health::Warn,
                        "daemon running v"@ + state.version@ + ", but this build is v"@ + own_version + ", keyboard "@
                            + keyboard,
                    )
                }
            } else if state.keyboard@ is Lost {
                CheckView {
                    fix: Some(
                        "The controller stopped answering after Aurora had it. Restarting the daemon cannot reopen it; reboot."@,
                    ),
                    ..spec_plain_check("daemon"@, Health::Fail, "daemon running v"@ + state.version@ + ", keyboard "@ + keyboard)
                }
            } else {
                spec_plain_check("daemon"@, Health::Good, "daemon running v"@ + state.version@ + ", keyboard "@ + keyboard)
            }
        },
        DaemonContact::Answered(_) => spec_plain_check(
            "daemon"@,
            Health::Fail,
            "daemon running, but sent something other than state"@,
        ),
    }
}

pub fn check_daemon(own_version: &str, contact: DaemonContact) -> (c: Check)
    ensures
        c@ == spec_check_daemon(own_version@, contact),
{
    match contact {
        DaemonContact::ConnectFailed(ClientError::Protocol(message)) => {
            let ghost line = message@;
            let c = Check::new(
                "daemon",
                Health::Fail,
                owned("daemon running, but it speaks a different protocol version"),
            ).with_detail(message).with_fix(
                "Both sides have to come from the same install. Restart the daemon with: systemctl --user restart aurora",
            );
            assert(c@.detail =~= seq![line]);
            c
        },
        DaemonContact::ConnectFailed(ClientError::Io(message)) => {
            let ghost line = message@;
            let c = Check::new("daemon", Health::Warn, owned("daemon not running")).with_detail(message).with_fix(
                "Start it with: systemctl --user start aurora   (or: aurora daemon)",
            );
            assert(c@.detail =~= seq![line]);
            c
        },
        DaemonContact::RequestFailed(error) => {
            let mut summary = owned("daemon running, but did not answer: ");
            let described = error.describe();
            push_str(&mut summary, described.as_str());
            Check::new("daemon", Health::Fail, summary)
        },
        DaemonContact::Answered(Response::State { state }) => {
            let keyboard = describe_keyboard(&state.keyboard);
            let same_version = same_text(state.version.as_str(), own_version);
            let mut summary = owned("daemon running v");
            push_str(&mut summary, state.version.as_str());
            if !same_version {
                push_str(&mut summary, ", but this build is v");
                push_str(&mut summary, own_version);
                push_str(&mut summary, ", keyboard ");
                push_str(&mut summary, keyboard.as_str());
                return Check::new("daemon", Health::Warn, summary).with_fix(
                    "An upgrade replaced the binaries without restarting the daemon. Restart it with: systemctl --user restart aurora",
                );
            }
            push_str(&mut summary, ", keyboard ");
            push_str(&mut summary, keyboard.as_str());
            match state.keyboard {
                KeyboardStatus::Lost => Check::new("daemon", Health::Fail, summary).with_fix(
                    "The controller stopped answering after Aurora had it. Restarting the daemon cannot reopen it; reboot.",
                ),
                _ => Check::new("daemon", Health::Good, summary),
            }
        },
        DaemonContact::Answered(_) => Check::new(
            "daemon",
            Health::Fail,
            owned("daemon running, but sent something other than state"),
        ),
    }
}

/// How wide the report's wrapped lines may run, in bytes.
pub const WRAP_COLUMNS: usize = 76;

/// The bytes a character takes in UTF-8.
pub open spec fn spec_utf8_width(c: char) -> nat {
    if (c as u32) < 0x80 {
        1
    } else if (c as u32) < 0x800 {
        2
    } else if (c as u32) < 0x10000 {
        3
    } else {
        4
    }
}

/// The bytes a text takes in UTF-8 (what `str::len` counts).
pub open spec fn spec_utf8_len(s: Seq<char>) -> nat
    decreases s.len(),
{
    if s.len() == 0 {
        0
    } else {
        spec_utf8_len(s.drop_last()) + spec_utf8_width(s.last())
    }
}

proof fn lemma_utf8_len_concat(a: Seq<char>, b: Seq<char>)
    ensures
        spec_utf8_len(a + b) == spec_utf8_len(a) + spec_utf8_len(b),
    decreases b.len(),
{
    if b.len() > 0 {
        assert((a + b).drop_last() =~= a + b.drop_last());
        assert((a + b).last() == b.last());
        lemma_utf8_len_concat(a, b.drop_last());
    } else {
        assert(a + b =~= a);
    }
}

proof fn lemma_utf8_len_bounded(s: Seq<char>)
    ensures
        spec_utf8_len(s) <= 4 * s.len(),
    decreases s.len(),
{
    if s.len() > 0 {
        lemma_utf8_len_bounded(s.drop_last());
    }
}

fn utf8_width(c: char) -> (w: u128)
    ensures
        w == spec_utf8_width(c),
{
    let v = c as u32;
    if v < 0x80 {
        1
    } else if v < 0x800 {
        2
    } else if v < 0x10000 {
        3
    } else {
        4
    }
}

fn utf8_len(s: &Vec<char>) -> (n: u128)
    ensures
        n == spec_utf8_len(s@),
{
    let mut n: u128 = 0;
    let mut i: usize = 0;
    while i < s.len()
        invariant
            0 <= i <= s@.len(),
            n == spec_utf8_len(s@.take(i as int)),
            n <= 4 * i,
        decreases s@.len() - i,
    {
        proof {
            assert(s@.take(i as int + 1).drop_last() =~= s@.take(i as int));
        }
        n = n + utf8_width(s[i]);
        i = i + 1;
    }
    assert(s@.take(s@.len() as int) =~= s@);
    n
}

/// The words of a text so far, and the word being read, scanning from the
/// start: whitespace ends a word.
pub open spec fn spec_split_words(t: Seq<char>) -> (Seq<Seq<char>>, Seq<char>)
    decreases t.len(),
{
    if t.len() == 0 {
        (seq![], seq![])
    } else {
        let (words, part) = spec_split_words(t.drop_last());
        if crate::text::spec_is_whitespace(t.last()) {
            if part.len() > 0 {
                (words.push(part), seq![])
            } else {
                (words, seq![])
            }
        } else {
            (words, part.push(t.last()))
        }
    }
}

/// The maximal runs of non-whitespace characters of `t`, in order, as
/// `str::split_whitespace` yields them.
pub open spec fn spec_words(t: Seq<char>) -> Seq<Seq<char>> {
    let (words, part) = spec_split_words(t);
    if part.len() > 0 {
        words.push(part)
    } else {
        words
    }
}

/// Lines wrapped so far and the line being filled, word by word: a word
/// joins the line with one space while the line stays within `width`
/// bytes, and starts a new line otherwise.
pub open spec fn spec_wrap_state(words: Seq<Seq<char>>, width: nat) -> (Seq<Seq<char>>, Seq<char>)
    decreases words.len(),
{
    if words.len() == 0 {
        (seq![], seq![])
    } else {
        let (lines, line) = spec_wrap_state(words.drop_last(), width);
        let word = words.last();
        if line.len() == 0 {
            (lines, word)
        } else if spec_utf8_len(line) + 1 + spec_utf8_len(word) > width {
            (lines.push(line), word)
        } else {
            (lines, line + seq![' '] + word)
        }
    }
}

/// `text` broken into lines no longer than `width` bytes, splitting on
/// whitespace; a word longer than `width` gets a line of its own.
pub open spec fn spec_wrap(text: Seq<char>, width: nat) -> Seq<Seq<char>> {
    let (lines, line) = spec_wrap_state(spec_words(text), width);
    if line.len() > 0 {
        lines.push(line)
    } else {
        lines
    }
}

/// The vectors' characters.
pub open spec fn spec_char_rows(v: Seq<Vec<char>>) -> Seq<Seq<char>> {
    v.map_values(|r: Vec<char>| r@)
}

fn split_words(text: &str) -> (words: Vec<Vec<char>>)
    ensures
        spec_char_rows(words@) == spec_words(text@),
{
    let chars = chars_of(text);
    let mut words: Vec<Vec<char>> = Vec::new();
    let mut part: Vec<char> = Vec::new();
    let mut i: usize = 0;
    assert(chars@.take(0) =~= seq![]);
    while i < chars.len()
        invariant
            chars@ == text@,
            0 <= i <= chars@.len(),
            (spec_char_rows(words@), part@) == spec_split_words(chars@.take(i as int)),
        decreases chars@.len() - i,
    {
        proof {
            assert(chars@.take(i as int + 1).drop_last() =~= chars@.take(i as int));
            assert(chars@.take(i as int + 1).last() == chars@[i as int]);
        }
        let c = chars[i];
        if crate::text::is_whitespace(c) {
            if part.len() > 0 {
                let ghost w0 = words@;
                let ghost pv = part@;
                let done = part;
                words.push(done);
                part = Vec::new();
                assert(spec_char_rows(words@) =~= spec_char_rows(w0).push(pv));
                assert(part@ =~= seq![]);
            } else {
                assert(part@ =~= seq![]);
            }
        } else {
            part.push(c);
        }
        i = i + 1;
    }
    assert(chars@.take(chars@.len() as int) =~= chars@);
    if part.len() > 0 {
        let ghost w0 = words@;
        let ghost pv = part@;
        words.push(part);
        assert(spec_char_rows(words@) =~= spec_char_rows(w0).push(pv));
    }
    words
}

/// Breaks `text` into lines no longer than `width` bytes, splitting on
/// whitespace. A word longer than `width` gets a line of its own rather
/// than being cut: the long words here are URLs, and a broken URL is not
/// clickable.
pub fn wrap(text: &str, width: usize) -> (lines: Vec<String>)
    ensures
        spec_texts(lines@) == spec_wrap(text@, width as nat),
{
    let words = split_words(text);
    let ghost wv = spec_char_rows(words@);
    let mut lines: Vec<String> = Vec::new();
    let mut line: Vec<char> = Vec::new();
    let mut line_bytes: u128 = 0;
    let mut i: usize = 0;
    assert(wv.take(0) =~= seq![]);
    while i < words.len()
        invariant
            wv == spec_char_rows(words@),
            wv == spec_words(text@),
            wv.len() == words@.len(),
            0 <= i <= words@.len(),
            (spec_texts(lines@), line@) == spec_wrap_state(wv.take(i as int), width as nat),
            line_bytes == spec_utf8_len(line@),
            line_bytes <= 4 * usize::MAX,
        decreases words@.len() - i,
    {
        proof {
            assert(wv.take(i as int + 1).drop_last() =~= wv.take(i as int));
            assert(wv.take(i as int + 1).last() == words@[i as int]@);
        }
        let word = &words[i];
        let word_bytes = utf8_len(word);
        let word_chars = word.len();
        proof {
            lemma_utf8_len_bounded(word@);
        }
        if line.len() == 0 {
            line = word.clone();
            line_bytes = word_bytes;
        } else if line_bytes + 1 + word_bytes > width as u128 {
            let ghost l0 = lines@;
            let ghost lv = line@;
            lines.push(crate::text::string_from_chars(line.as_slice()));
            assert(spec_texts(lines@) =~= spec_texts(l0).push(lv));
            line = word.clone();
            line_bytes = word_bytes;
        } else {
            let ghost lv = line@;
            line.push(' ');
            let mut k: usize = 0;
            while k < word.len()
                invariant
                    0 <= k <= word@.len(),
                    line@ == lv + seq![' '] + word@.take(k as int),
                decreases word@.len() - k,
            {
                line.push(word[k]);
                proof {
                    assert(word@.take(k as int + 1) =~= word@.take(k as int).push(word@[k as int]));
                }
                k = k + 1;
            }
            proof {
                assert(word@.take(word@.len() as int) =~= word@);
                lemma_utf8_len_concat(lv, seq![' ']);
                lemma_utf8_len_concat(lv + seq![' '], word@);
                assert(spec_utf8_len(seq![' ']) == 1) by {
                    let sp = seq![' '];
                    assert(sp.len() == 1);
                    assert(sp.drop_last() =~= Seq::<char>::empty());
                    assert(sp.last() == ' ');
                    assert(spec_utf8_len(Seq::<char>::empty()) == 0);
                    assert((' ' as u32) < 0x80);
                }
            }
            line_bytes = line_bytes + 1 + word_bytes;
        }
        i = i + 1;
    }
    assert(wv.take(words@.len() as int) =~= wv);
    if line.len() > 0 {
        let ghost l0 = lines@;
        let ghost lv = line@;
        lines.push(crate::text::string_from_chars(line.as_slice()));
        assert(spec_texts(lines@) =~= spec_texts(l0).push(lv));
    }
    lines
}

proof fn lemma_split_words_nonempty(t: Seq<char>)
    ensures
        forall|k: int| 0 <= k < spec_split_words(t).0.len() ==> (#[trigger] spec_split_words(t).0[k]).len() > 0,
    decreases t.len(),
{
    if t.len() > 0 {
        lemma_split_words_nonempty(t.drop_last());
        let (ws, part) = spec_split_words(t.drop_last());
        if crate::text::spec_is_whitespace(t.last()) && part.len() > 0 {
            let next = ws.push(part);
            assert(spec_split_words(t).0 == next);
            assert forall|k: int| 0 <= k < next.len() implies (#[trigger] next[k]).len() > 0 by {
                if k < ws.len() {
                    assert(next[k] == ws[k]);
                }
            }
        }
    }
}

/// Every word is at least one character long.
pub proof fn lemma_words_nonempty(t: Seq<char>)
    ensures
        forall|k: int| 0 <= k < spec_words(t).len() ==> (#[trigger] spec_words(t)[k]).len() > 0,
{
    lemma_split_words_nonempty(t);
}

proof fn lemma_join_two_or_more(parts: Seq<Seq<char>>, x: Seq<char>, sep: Seq<char>)
    requires
        parts.len() > 0,
    ensures
        spec_join(parts.push(x), sep) == spec_join(parts, sep) + sep + x,
{
    assert(parts.push(x).drop_last() =~= parts);
}

proof fn lemma_join_extend_last(lines: Seq<Seq<char>>, line: Seq<char>, word: Seq<char>)
    ensures
        spec_join(lines.push(line + seq![' '] + word), seq![' ']) == spec_join(lines.push(line), seq![' ']) + seq![' ']
            + word,
{
    if lines.len() == 0 {
        assert(lines.push(line + seq![' '] + word) =~= seq![line + seq![' '] + word]);
        assert(lines.push(line) =~= seq![line]);
    } else {
        lemma_join_two_or_more(lines, line + seq![' '] + word, seq![' ']);
        lemma_join_two_or_more(lines, line, seq![' ']);
        assert(spec_join(lines, seq![' ']) + seq![' '] + (line + seq![' '] + word) =~= spec_join(lines, seq![' '])
            + seq![' '] + line + seq![' '] + word);
    }
}

/// Filling lines keeps the words: the lines, with the one being filled,
/// joined by spaces, are the words joined by spaces.
pub proof fn lemma_wrap_state_keeps_words(words: Seq<Seq<char>>, width: nat)
    requires
        words.len() > 0,
        forall|k: int| 0 <= k < words.len() ==> (#[trigger] words[k]).len() > 0,
    ensures
        spec_wrap_state(words, width).1.len() > 0,
        spec_join(spec_wrap_state(words, width).0.push(spec_wrap_state(words, width).1), seq![' ']) == spec_join(
            words,
            seq![' '],
        ),
    decreases words.len(),
{
    let prev = words.drop_last();
    let word = words.last();
    assert(word == words[words.len() - 1]);
    if prev.len() == 0 {
        assert(spec_wrap_state(prev, width) == (Seq::<Seq<char>>::empty(), Seq::<char>::empty()));
        assert(Seq::<Seq<char>>::empty().push(word) =~= words);
    } else {
        assert forall|k: int| 0 <= k < prev.len() implies (#[trigger] prev[k]).len() > 0 by {
            assert(prev[k] == words[k]);
        }
        lemma_wrap_state_keeps_words(prev, width);
        let (lines, line) = spec_wrap_state(prev, width);
        lemma_join_two_or_more(prev, word, seq![' ']);
        assert(words =~= prev.push(word));
        if spec_utf8_len(line) + 1 + spec_utf8_len(word) > width {
            lemma_join_two_or_more(lines.push(line), word, seq![' ']);
        } else {
            lemma_join_extend_last(lines, line, word);
        }
    }
}

/// Filling lines keeps each line within the width, unless it is a single
/// word.
pub proof fn lemma_wrap_state_fits(words: Seq<Seq<char>>, width: nat)
    ensures
        forall|i: int|
            0 <= i < spec_wrap_state(words, width).0.len() ==> spec_utf8_len(
                #[trigger] spec_wrap_state(words, width).0[i],
            ) <= width || words.contains(spec_wrap_state(words, width).0[i]),
        spec_utf8_len(spec_wrap_state(words, width).1) <= width || words.contains(spec_wrap_state(words, width).1)
            || spec_wrap_state(words, width).1.len() == 0,
    decreases words.len(),
{
    if words.len() > 0 {
        let prev = words.drop_last();
        let word = words.last();
        lemma_wrap_state_fits(prev, width);
        let (lines, line) = spec_wrap_state(prev, width);
        assert(words.contains(word)) by {
            assert(words[words.len() - 1] == word);
        }
        assert forall|x: Seq<char>| prev.contains(x) implies words.contains(x) by {
            let k = choose|k: int| 0 <= k < prev.len() && prev[k] == x;
            assert(words[k] == x);
        }
        if line.len() == 0 {
        } else if spec_utf8_len(line) + 1 + spec_utf8_len(word) > width {
            let next = lines.push(line);
            assert forall|i: int| 0 <= i < next.len() implies spec_utf8_len(#[trigger] next[i]) <= width
                || words.contains(next[i]) by {
                if i < lines.len() {
                    assert(next[i] == lines[i]);
                }
            }
        } else {
            lemma_utf8_len_concat(line, seq![' ']);
            lemma_utf8_len_concat(line + seq![' '], word);
            assert(spec_utf8_len(seq![' ']) == 1) by {
                let sp = seq![' '];
                assert(sp.drop_last() =~= Seq::<char>::empty());
                assert(sp.last() == ' ');
                assert(spec_utf8_len(Seq::<char>::empty()) == 0);
                assert((' ' as u32) < 0x80);
            }
        }
    }
}

/// A line without the `\r` of a `\r\n` ending.
pub open spec fn spec_strip_cr(line: Seq<char>) -> Seq<char> {
    if line.len() > 0 && line.last() == '\r' {
        line.drop_last()
    } else {
        line
    }
}

/// The lines of a text so far and the line being read, scanning from the
/// start: `\n` ends a line, and a `\r` just before it is dropped.
pub open spec fn spec_split_lines(t: Seq<char>) -> (Seq<Seq<char>>, Seq<char>)
    decreases t.len(),
{
    if t.len() == 0 {
        (seq![], seq![])
    } else {
        let (done, current) = spec_split_lines(t.drop_last());
        if t.last() == '\n' {
            (done.push(spec_strip_cr(current)), seq![])
        } else {
            (done, current.push(t.last()))
        }
    }
}

/// The lines of `t` as `str::lines` yields them: the final line ending is
/// optional.
pub open spec fn spec_lines(t: Seq<char>) -> Seq<Seq<char>> {
    let (done, current) = spec_split_lines(t);
    if current.len() > 0 {
        done.push(current)
    } else {
        done
    }
}

/// Where `c` first occurs in `s`.
pub open spec fn spec_index_of(s: Seq<char>, c: char) -> Option<nat>
    decreases s.len(),
{
    if s.len() == 0 {
        None
    } else if s[0] == c {
        Some(0)
    } else {
        match spec_index_of(s.drop_first(), c) {
            Some(k) => Some(k + 1),
            None => None,
        }
    }
}

/// `s` without the `"` characters at its start.
pub open spec fn spec_strip_leading_quotes(s: Seq<char>) -> Seq<char>
    decreases s.len(),
{
    if s.len() > 0 && s[0] == '"' {
        spec_strip_leading_quotes(s.drop_first())
    } else {
        s
    }
}

/// `s` without the `"` characters at its end.
pub open spec fn spec_strip_trailing_quotes(s: Seq<char>) -> Seq<char>
    decreases s.len(),
{
    if s.len() > 0 && s.last() == '"' {
        spec_strip_trailing_quotes(s.drop_last())
    } else {
        s
    }
}

/// The value of an `os-release` assignment: trimmed, then without
/// surrounding quotes.
pub open spec fn spec_release_value(raw: Seq<char>) -> Seq<char> {
    spec_strip_trailing_quotes(spec_strip_leading_quotes(spec_trim(raw)))
}

/// The value of the first line `field=value` among `lines`.
pub open spec fn spec_field_in(lines: Seq<Seq<char>>, field: Seq<char>) -> Option<Seq<char>>
    decreases lines.len(),
{
    if lines.len() == 0 {
        None
    } else {
        match spec_index_of(lines[0], '=') {
            Some(k) => if lines[0].take(k as int) == field {
                Some(spec_release_value(lines[0].skip(k as int + 1)))
            } else {
                spec_field_in(lines.drop_first(), field)
            },
            None => spec_field_in(lines.drop_first(), field),
        }
    }
}

fn split_lines(t: &Vec<char>) -> (lines: Vec<Vec<char>>)
    ensures
        spec_char_rows(lines@) == spec_lines(t@),
{
    let mut lines: Vec<Vec<char>> = Vec::new();
    let mut current: Vec<char> = Vec::new();
    let mut i: usize = 0;
    assert(t@.take(0) =~= seq![]);
    while i < t.len()
        invariant
            0 <= i <= t@.len(),
            (spec_char_rows(lines@), current@) == spec_split_lines(t@.take(i as int)),
        decreases t@.len() - i,
    {
        proof {
            assert(t@.take(i as int + 1).drop_last() =~= t@.take(i as int));
            assert(t@.take(i as int + 1).last() == t@[i as int]);
        }
        let c = t[i];
        if c == '\n' {
            let ghost l0 = lines@;
            let ghost cv = current@;
            let mut line = current;
            if line.len() > 0 && line[line.len() - 1] == '\r' {
                line.pop();
                assert(line@ =~= cv.drop_last());
            }
            lines.push(line);
            current = Vec::new();
            assert(spec_char_rows(lines@) =~= spec_char_rows(l0).push(spec_strip_cr(cv)));
            assert(current@ =~= seq![]);
        } else {
            current.push(c);
        }
        i = i + 1;
    }
    assert(t@.take(t@.len() as int) =~= t@);
    if current.len() > 0 {
        let ghost l0 = lines@;
        let ghost cv = current@;
        lines.push(current);
        assert(spec_char_rows(lines@) =~= spec_char_rows(l0).push(cv));
    }
    lines
}

fn index_of(s: &Vec<char>, c: char) -> (r: Option<usize>)
    ensures
        match spec_index_of(s@, c) {
            Some(k) => k < s@.len() && r == Some(k as usize),
            None => r is None,
        },
{
    let mut i: usize = 0;
    assert(s@.skip(0) =~= s@);
    while i < s.len()
        invariant
            0 <= i <= s@.len(),
            spec_index_of(s@, c) == match spec_index_of(s@.skip(i as int), c) {
                Some(k) => Some((k + i) as nat),
                None => None::<nat>,
            },
        decreases s@.len() - i,
    {
        proof {
            assert(s@.skip(i as int).drop_first() =~= s@.skip(i as int + 1));
            assert(s@.skip(i as int)[0] == s@[i as int]);
        }
        if s[i] == c {
            return Some(i);
        }
        i = i + 1;
    }
    proof {
        assert(s@.skip(i as int).len() == 0);
    }
    None
}

fn release_value(raw: &[char]) -> (r: Vec<char>)
    ensures
        r@ == spec_release_value(raw@),
{
    let trimmed = crate::text::trim_chars(raw);
    let mut start: usize = 0;
    assert(trimmed@.skip(0) =~= trimmed@);
    while start < trimmed.len() && trimmed[start] == '"'
        invariant
            0 <= start <= trimmed@.len(),
            spec_strip_leading_quotes(trimmed@) == spec_strip_leading_quotes(trimmed@.skip(start as int)),
        decreases trimmed@.len() - start,
    {
        proof {
            assert(trimmed@.skip(start as int).drop_first() =~= trimmed@.skip(start as int + 1));
        }
        start = start + 1;
    }
    let ghost lead = trimmed@.skip(start as int);
    assert(spec_strip_leading_quotes(trimmed@) == lead) by {
        if lead.len() > 0 {
            assert(lead[0] == trimmed@[start as int]);
        }
    }
    let mut end: usize = trimmed.len();
    assert(trimmed@.subrange(start as int, end as int) =~= lead);
    while end > start && trimmed[end - 1] == '"'
        invariant
            start <= end <= trimmed@.len(),
            lead == trimmed@.skip(start as int),
            spec_strip_trailing_quotes(lead) == spec_strip_trailing_quotes(trimmed@.subrange(start as int, end as int)),
        decreases end - start,
    {
        proof {
            assert(trimmed@.subrange(start as int, end as int).drop_last() =~= trimmed@.subrange(
                start as int,
                end as int - 1,
            ));
        }
        end = end - 1;
    }
    let ghost done = trimmed@.subrange(start as int, end as int);
    assert(spec_strip_trailing_quotes(done) == done) by {
        if done.len() > 0 {
            assert(done.last() == trimmed@[end as int - 1]);
        }
    }
    let mut r: Vec<char> = Vec::new();
    let mut k: usize = start;
    while k < end
        invariant
            start <= k <= end <= trimmed@.len(),
            r@ == trimmed@.subrange(start as int, k as int),
        decreases end - k,
    {
        r.push(trimmed[k]);
        proof {
            assert(trimmed@.subrange(start as int, k as int + 1) =~= trimmed@.subrange(start as int, k as int).push(
                trimmed@[k as int],
            ));
        }
        k = k + 1;
    }
    r
}

fn slice_of(s: &Vec<char>, from: usize, to: usize) -> (r: Vec<char>)
    requires
        from <= to <= s@.len(),
    ensures
        r@ == s@.subrange(from as int, to as int),
{
    let mut r: Vec<char> = Vec::new();
    let mut k: usize = from;
    while k < to
        invariant
            from <= k <= to <= s@.len(),
            r@ == s@.subrange(from as int, k as int),
        decreases to - k,
    {
        r.push(s[k]);
        proof {
            assert(s@.subrange(from as int, k as int + 1) =~= s@.subrange(from as int, k as int).push(s@[k as int]));
        }
        k = k + 1;
    }
    r
}

/// The value of `field` in the contents of `/etc/os-release`: the first
/// line `field=value`, the value trimmed and unquoted. The contents are
/// trimmed first, as they are read.
pub fn os_release_field(contents: &str, field: &str) -> (r: Option<String>)
    ensures
        spec_opt_text(r) == spec_field_in(spec_lines(spec_trim(contents@)), field@),
{
    let chars = chars_of(contents);
    let text = crate::text::trim_chars(&chars);
    let lines = split_lines(&text);
    let field_chars = chars_of(field);
    let ghost lv = spec_char_rows(lines@);
    let mut i: usize = 0;
    assert(lv.skip(0) =~= lv);
    while i < lines.len()
        invariant
            lv == spec_char_rows(lines@),
            lv == spec_lines(spec_trim(contents@)),
            lv.len() == lines@.len(),
            field_chars@ == field@,
            0 <= i <= lines@.len(),
            spec_field_in(lv, field@) == spec_field_in(lv.skip(i as int), field@),
        decreases lines@.len() - i,
    {
        let line = &lines[i];
        proof {
            assert(lv.skip(i as int).drop_first() =~= lv.skip(i as int + 1));
            assert(lv.skip(i as int)[0] == line@);
        }
        match index_of(line, '=') {
            Some(k) => {
                assert(spec_index_of(line@, '=') == Some(k as nat));
                let key = slice_of(line, 0, k);
                assert(key@ =~= line@.take(k as int));
                if seq_equal(key.as_slice(), field_chars.as_slice()) {
                    let raw = slice_of(line, k + 1, line.len());
                    assert(raw@ =~= line@.skip(k as int + 1));
                    let value = release_value(raw.as_slice());
                    return Some(crate::text::string_from_chars(value.as_slice()));
                }
            },
            None => {
                assert(spec_index_of(line@, '=') is None);
            },
        }
        i = i + 1;
    }
    None
}

/// A check's health marker in the human report.
pub open spec fn spec_marker(h: Health) -> Seq<char> {
    match h {
        Health::Good => "ok  "@,
        Health::Warn => "warn"@,
        Health::Fail => "fail"@,
        Health::Unknown => "?   "@,
    }
}

/// The colour a health marker is drawn in.
pub open spec fn spec_colour(h: Health, p: Palette) -> Seq<char> {
    match h {
        Health::Good => p.ok@,
        Health::Warn => p.warn@,
        Health::Fail => p.fail@,
        Health::Unknown => p.dim@,
    }
}

/// A detail line, wrapped and dimmed under its check.
pub open spec fn spec_detail_lines(text: Seq<char>, p: Palette) -> Seq<Seq<char>> {
    spec_wrap(text, WRAP_COLUMNS as nat).map_values(|w: Seq<char>| "        "@ + p.dim@ + w + p.reset@)
}

/// All detail lines of a check, in order.
pub open spec fn spec_details_lines(detail: Seq<Seq<char>>, p: Palette) -> Seq<Seq<char>>
    decreases detail.len(),
{
    if detail.len() == 0 {
        seq![]
    } else {
        spec_details_lines(detail.drop_last(), p) + spec_detail_lines(detail.last(), p)
    }
}

/// The fix, wrapped, its first line labelled.
pub open spec fn spec_fix_lines(fix: Seq<char>, p: Palette) -> Seq<Seq<char>> {
    let wrapped = spec_wrap(fix, WRAP_COLUMNS as nat);
    Seq::new(
        wrapped.len(),
        |k: int|
            "        "@ + (if k == 0 {
                p.warn@ + "fix:"@ + p.reset@ + " "@
            } else {
                "     "@
            }) + wrapped[k],
    )
}

/// One check's lines in the human report: the marker and summary, the
/// detail, then the fix.
pub open spec fn spec_check_lines(c: CheckView, p: Palette) -> Seq<Seq<char>> {
    seq!["  "@ + spec_colour(c.health, p) + spec_marker(c.health) + p.reset@ + "  "@ + c.summary]
        + spec_details_lines(c.detail, p) + match c.fix {
        Some(f) => spec_fix_lines(f, p),
        None => Seq::<Seq<char>>::empty(),
    }
}

pub open spec fn spec_checks_lines(checks: Seq<CheckView>, p: Palette) -> Seq<Seq<char>>
    decreases checks.len(),
{
    if checks.len() == 0 {
        seq![]
    } else {
        spec_checks_lines(checks.drop_last(), p) + spec_check_lines(checks.last(), p)
    }
}

/// The report's closing lines: nothing to report, or how many problems
/// and where to report them.
pub open spec fn spec_closing_lines(problems: nat) -> Seq<Seq<char>> {
    if problems == 0 {
        seq!["Nothing to report."@]
    } else {
        seq![
            spec_decimal(problems) + " problem"@ + (if problems == 1 {
                ""@
            } else {
                "s"@
            }) + " found. Paste this into a bug report if the fix does not help:"@,
            "https://github.com/HughScott2002/Aurora-Legion/issues/new/choose"@,
        ]
    }
}

/// The human report, line by line.
pub open spec fn spec_report_lines(checks: Seq<CheckView>, problems: nat, p: Palette) -> Seq<Seq<char>> {
    seq!["Aurora doctor"@, ""@] + spec_checks_lines(checks, p) + seq![""@] + spec_closing_lines(problems)
}

fn push_line(lines: &mut Vec<String>, line: String)
    ensures
        spec_texts(final(lines)@) == spec_texts(old(lines)@).push(line@),
{
    let ghost before = lines@;
    lines.push(line);
    assert(spec_texts(lines@) =~= spec_texts(before).push(line@));
}

fn push_detail(lines: &mut Vec<String>, text: &str, p: &Palette)
    ensures
        spec_texts(final(lines)@) == spec_texts(old(lines)@) + spec_detail_lines(text@, *p),
{
    let wrapped = wrap(text, WRAP_COLUMNS);
    let ghost base = spec_texts(lines@);
    let ghost target = spec_detail_lines(text@, *p);
    let mut k: usize = 0;
    while k < wrapped.len()
        invariant
            0 <= k <= wrapped@.len(),
            spec_texts(wrapped@) == spec_wrap(text@, WRAP_COLUMNS as nat),
            target == spec_detail_lines(text@, *p),
            target.len() == wrapped@.len(),
            spec_texts(lines@) == base + target.take(k as int),
        decreases wrapped@.len() - k,
    {
        let mut line = owned("        ");
        push_str(&mut line, p.dim);
        push_str(&mut line, wrapped[k].as_str());
        push_str(&mut line, p.reset);
        proof {
            assert(wrapped@[k as int]@ == spec_texts(wrapped@)[k as int]);
            assert(line@ == target[k as int]);
            assert(target.take(k as int + 1) =~= target.take(k as int).push(line@));
        }
        push_line(lines, line);
        proof {
            assert(base + target.take(k as int).push(line@) =~= (base + target.take(k as int)).push(line@));
        }
        k = k + 1;
    }
    assert(target.take(wrapped@.len() as int) =~= target);
}

fn push_fix(lines: &mut Vec<String>, fix: &str, p: &Palette)
    ensures
        spec_texts(final(lines)@) == spec_texts(old(lines)@) + spec_fix_lines(fix@, *p),
{
    let wrapped = wrap(fix, WRAP_COLUMNS);
    let ghost base = spec_texts(lines@);
    let ghost target = spec_fix_lines(fix@, *p);
    let mut k: usize = 0;
    while k < wrapped.len()
        invariant
            0 <= k <= wrapped@.len(),
            spec_texts(wrapped@) == spec_wrap(fix@, WRAP_COLUMNS as nat),
            target == spec_fix_lines(fix@, *p),
            target.len() == wrapped@.len(),
            spec_texts(lines@) == base + target.take(k as int),
        decreases wrapped@.len() - k,
    {
        let mut line = owned("        ");
        if k == 0 {
            push_str(&mut line, p.warn);
            push_str(&mut line, "fix:");
            push_str(&mut line, p.reset);
            push_str(&mut line, " ");
        } else {
            push_str(&mut line, "     ");
        }
        push_str(&mut line, wrapped[k].as_str());
        proof {
            assert(wrapped@[k as int]@ == spec_texts(wrapped@)[k as int]);
            assert(line@ =~= target[k as int]);
            assert(target.take(k as int + 1) =~= target.take(k as int).push(line@));
        }
        push_line(lines, line);
        proof {
            assert(base + target.take(k as int).push(line@) =~= (base + target.take(k as int)).push(line@));
        }
        k = k + 1;
    }
    assert(target.take(wrapped@.len() as int) =~= target);
}

fn push_check(lines: &mut Vec<String>, c: &Check, p: &Palette)
    ensures
        spec_texts(final(lines)@) == spec_texts(old(lines)@) + spec_check_lines(c@, *p),
{
    let ghost base = spec_texts(lines@);
    let (colour, marker) = match c.health {
        Health::Good => (p.ok, "ok  "),
        Health::Warn => (p.warn, "warn"),
        Health::Fail => (p.fail, "fail"),
        Health::Unknown => (p.dim, "?   "),
    };
    let mut head = owned("  ");
    push_str(&mut head, colour);
    push_str(&mut head, marker);
    push_str(&mut head, p.reset);
    push_str(&mut head, "  ");
    push_str(&mut head, c.summary.as_str());
    push_line(lines, head);
    let ghost after_head = spec_texts(lines@);
    let mut i: usize = 0;
    assert(c@.detail.take(0) =~= seq![]);
    while i < c.detail.len()
        invariant
            0 <= i <= c.detail@.len(),
            c@.detail == spec_texts(c.detail@),
            c@.detail.len() == c.detail@.len(),
            spec_texts(lines@) == after_head + spec_details_lines(c@.detail.take(i as int), *p),
        decreases c.detail@.len() - i,
    {
        proof {
            assert(c@.detail.take(i as int + 1).drop_last() =~= c@.detail.take(i as int));
            assert(c@.detail.take(i as int + 1).last() == c.detail@[i as int]@);
        }
        push_detail(lines, c.detail[i].as_str(), p);
        proof {
            assert(after_head + spec_details_lines(c@.detail.take(i as int), *p) + spec_detail_lines(
                c.detail@[i as int]@,
                *p,
            ) =~= after_head + spec_details_lines(c@.detail.take(i as int + 1), *p));
        }
        i = i + 1;
    }
    assert(c@.detail.take(c.detail@.len() as int) =~= c@.detail);
    let ghost after_detail = spec_texts(lines@);
    match &c.fix {
        Some(f) => {
            push_fix(lines, f.as_str(), p);
        },
        None => {
            assert(spec_texts(lines@) =~= after_detail + Seq::<Seq<char>>::empty());
        },
    }
    assert(spec_texts(lines@) =~= base + spec_check_lines(c@, *p));
}

/// The human-readable report, line by line, drawn with `p`.
pub fn report_lines(report: &Report, p: &Palette) -> (lines: Vec<String>)
    ensures
        spec_texts(lines@) == spec_report_lines(spec_check_views(report.checks@), report.problems as nat, *p),
{
    let mut lines: Vec<String> = Vec::new();
    push_line(&mut lines, owned("Aurora doctor"));
    push_line(&mut lines, owned(""));
    let ghost views = spec_check_views(report.checks@);
    let ghost head = spec_texts(lines@);
    assert(head =~= seq!["Aurora doctor"@, ""@]);
    let mut i: usize = 0;
    assert(views.take(0) =~= seq![]);
    while i < report.checks.len()
        invariant
            0 <= i <= report.checks@.len(),
            views == spec_check_views(report.checks@),
            views.len() == report.checks@.len(),
            head == seq!["Aurora doctor"@, ""@],
            spec_texts(lines@) == head + spec_checks_lines(views.take(i as int), *p),
        decreases report.checks@.len() - i,
    {
        proof {
            assert(views.take(i as int + 1).drop_last() =~= views.take(i as int));
            assert(views.take(i as int + 1).last() == report.checks@[i as int]@);
        }
        push_check(&mut lines, &report.checks[i], p);
        proof {
            assert(head + spec_checks_lines(views.take(i as int), *p) + spec_check_lines(report.checks@[i as int]@, *p)
                =~= head + spec_checks_lines(views.take(i as int + 1), *p));
        }
        i = i + 1;
    }
    assert(views.take(report.checks@.len() as int) =~= views);
    push_line(&mut lines, owned(""));
    if report.problems == 0 {
        push_line(&mut lines, owned("Nothing to report."));
    } else {
        let mut line = String::new();
        push_decimal(&mut line, report.problems as u64);
        push_str(&mut line, " problem");
        if report.problems != 1 {
            push_str(&mut line, "s");
        } else {
            push_str(&mut line, "");
        }
        push_str(&mut line, " found. Paste this into a bug report if the fix does not help:");
        push_line(&mut lines, line);
        push_line(&mut lines, owned("https://github.com/HughScott2002/Aurora-Legion/issues/new/choose"));
    }
    assert(spec_texts(lines@) =~= spec_report_lines(views, report.problems as nat, *p));
    lines
}

} // verus!
