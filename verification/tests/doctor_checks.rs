use aurora::doctor::{rule_sorts_too_late, wrap, Palette};

#[test]
fn a_rule_numbered_above_the_seat_rule_is_too_late() {
    assert!(rule_sorts_too_late("99-aurora.rules"));
}

#[test]
fn the_shipped_rule_number_sorts_early_enough() {
    assert!(!rule_sorts_too_late("70-aurora.rules"));
}

#[test]
fn the_seat_rule_number_itself_is_too_late() {
    assert!(rule_sorts_too_late("73-aurora.rules"));
}

#[test]
fn a_rule_with_no_number_is_left_alone() {
    assert!(!rule_sorts_too_late("aurora.rules"));
}

#[test]
fn wrapping_keeps_every_line_inside_the_width() {
    let text = "The controller is on the bus but Aurora may not open it, so the udev rule is the thing to check first.";

    for line in wrap(text, 40) {
        assert!(line.len() <= 40, "{line}");
    }
}

#[test]
fn wrapping_never_breaks_a_long_word() {
    let url = "https://github.com/HughScott2002/Aurora-Legion/issues/new/choose";
    let wrapped = wrap(url, 40);

    assert_eq!(wrapped, vec![url.to_string()]);
}

#[test]
fn wrapping_keeps_every_word() {
    let text = "one two three four five six";
    let wrapped = wrap(text, 9);

    assert_eq!(wrapped.join(" "), text);
}

#[test]
fn no_color_is_honoured_however_it_is_set() {
    let palette = Palette::plain();

    assert_eq!(palette.ok, "");
    assert_eq!(palette.reset, "");
}
