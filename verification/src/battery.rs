//! Understanding the battery's sysfs files, for the low-battery alert and
//! the Battery effect.
//!
//! Legion conservation mode parks the battery at a charge ceiling and
//! reports `Not charging` while on AC. Only `Discharging` means the battery
//! is draining, which is why [`Reading::discharging`] tests for that word
//! rather than for the absence of `Charging`.
use vstd::prelude::*;

use crate::text::{chars_of, spec_trim, trim_chars};
use vstd::utf8::encode_utf8;

verus! {

/// The highest charge percentage the kernel can legitimately report.
pub const MAX_PERCENT: u8 = 100;

/// Longest sysfs value accepted. These files hold a small integer or a
/// single word, so anything longer is not something this module
/// understands and is rejected rather than parsed. A file is read up to
/// one byte past this, so that an overlong one shows as such.
pub const MAX_VALUE_BYTES: usize = 64;

/// One sample of the battery.
#[derive(Clone, Copy, Debug, PartialEq, Eq, Structural)]
pub struct Reading {
    /// Charge percentage, 0 to 100.
    pub percent: u8,
    /// True only while the battery is actually draining.
    pub discharging: bool,
}

pub open spec fn spec_is_digit(c: char) -> bool {
    '0' <= c && c <= '9'
}

pub open spec fn spec_digit_value(c: char) -> nat {
    (c as u32 - '0' as u32) as nat
}

/// The number a run of decimal digits spells.
pub open spec fn spec_digits_value(s: Seq<char>) -> nat
    decreases s.len(),
{
    if s.len() == 0 {
        0
    } else {
        spec_digits_value(s.drop_last()) * 10 + spec_digit_value(s.last())
    }
}

pub open spec fn spec_all_digits(s: Seq<char>) -> bool {
    forall|i: int| 0 <= i < s.len() ==> spec_is_digit(#[trigger] s[i])
}

/// `s` as `u8::from_str` reads it: an optional `+`, then one or more
/// decimal digits, spelling at most 255.
pub open spec fn spec_parse_u8(s: Seq<char>) -> Option<u8> {
    let body = if s.len() > 0 && s[0] == '+' { s.drop_first() } else { s };
    if body.len() > 0 && spec_all_digits(body) && spec_digits_value(body) <= 255 {
        Some(spec_digits_value(body) as u8)
    } else {
        None
    }
}

/// Read `s` as `u8::from_str` does.
pub fn parse_u8(s: &[char]) -> (r: Option<u8>)
    ensures
        r == spec_parse_u8(s@),
{
    let start: usize = if s.len() > 0 && s[0] == '+' { 1 } else { 0 };
    let ghost body = if s@.len() > 0 && s@[0] == '+' { s@.drop_first() } else { s@ };
    assert(body =~= s@.subrange(start as int, s@.len() as int));
    if start >= s.len() {
        return None;
    }
    // The value so far, held at 256 once it passes 255.
    let mut value: u32 = 0;
    let mut i: usize = start;
    while i < s.len()
        invariant
            start <= i <= s@.len(),
            body == s@.subrange(start as int, s@.len() as int),
            body == (if s@.len() > 0 && s@[0] == '+' { s@.drop_first() } else { s@ }),
            spec_all_digits(s@.subrange(start as int, i as int)),
            value as nat == (if spec_digits_value(s@.subrange(start as int, i as int)) > 256 { 256 } else {
                spec_digits_value(s@.subrange(start as int, i as int))
            }),
        decreases s@.len() - i,
    {
        let c = s[i];
        if !('0' <= c && c <= '9') {
            assert(body[i - start] == s@[i as int]);
            assert(!spec_is_digit(body[i - start]));
            assert(!spec_all_digits(body));
            return None;
        }
        let digit: u32 = c as u32 - '0' as u32;
        let ghost prefix = s@.subrange(start as int, i as int);
        let ghost next = s@.subrange(start as int, i as int + 1);
        assert(next.drop_last() =~= prefix);
        assert(next.last() == c);
        let candidate: u32 = value * 10 + digit;
        value = if candidate > 256 { 256 } else { candidate };
        i = i + 1;
    }
    assert(s@.subrange(start as int, s@.len() as int) == body);
    if value > 255 {
        None
    } else {
        Some(value as u8)
    }
}

/// A file's contents, unless it could not be read or runs past
/// [`MAX_VALUE_BYTES`].
pub open spec fn spec_value(text: Option<Seq<char>>) -> Option<Seq<char>> {
    match text {
        Some(t) => if encode_utf8(t).len() > MAX_VALUE_BYTES {
            None
        } else {
            Some(t)
        },
        None => None,
    }
}

/// The battery sample the contents of the sysfs `capacity` and `status`
/// files describe (`None` for a file that could not be read): a charge that
/// does not parse or is above 100, a missing file, or a file longer than
/// [`MAX_VALUE_BYTES`] gives no reading. Only `Discharging` means the
/// battery is draining.
pub open spec fn spec_read(capacity: Option<Seq<char>>, status: Option<Seq<char>>) -> Option<Reading> {
    match spec_value(capacity) {
        None => None,
        Some(c) => match spec_parse_u8(spec_trim(c)) {
            None => None,
            Some(percent) => if percent > MAX_PERCENT {
                None
            } else {
                match spec_value(status) {
                    None => None,
                    Some(t) => Some(Reading { percent, discharging: spec_trim(t) == "Discharging"@ }),
                }
            },
        },
    }
}

/// The characters of an optional borrowed text.
pub open spec fn spec_opt_str(t: Option<&str>) -> Option<Seq<char>> {
    match t {
        Some(s) => Some(s@),
        None => None,
    }
}

/// Read one sample from what the `capacity` and `status` files hold, each
/// read up to one byte past [`MAX_VALUE_BYTES`].
pub fn read(capacity: Option<&str>, status: Option<&str>) -> (r: Option<Reading>)
    ensures
        r == spec_read(spec_opt_str(capacity), spec_opt_str(status)),
{
    let capacity = match capacity {
        Some(c) => c,
        None => return None,
    };
    if capacity.as_bytes().len() > MAX_VALUE_BYTES {
        return None;
    }
    let capacity_chars = chars_of(capacity);
    let capacity_text = trim_chars(&capacity_chars);
    let percent = match parse_u8(&capacity_text) {
        Some(p) => p,
        None => return None,
    };
    if percent > MAX_PERCENT {
        return None;
    }
    let status = match status {
        Some(t) => t,
        None => return None,
    };
    if status.as_bytes().len() > MAX_VALUE_BYTES {
        return None;
    }
    let status_chars = chars_of(status);
    let status_text = trim_chars(&status_chars);
    let expected = chars_of("Discharging");
    let discharging = crate::text::seq_equal(&status_text, &expected);
    Some(Reading { percent, discharging })
}

/// Whether a power-supply directory entry names a battery rather than an
/// adapter: batteries are the `BAT*` entries.
pub fn is_battery_entry(name: &str) -> (r: bool)
    ensures
        r == crate::text::spec_starts_with(name@, "BAT"@),
{
    crate::text::starts_with(name, "BAT")
}

/// Whether `a` sorts at or before `b`, character by character (the order
/// of directory names as byte strings).
pub open spec fn spec_lex_le(a: Seq<char>, b: Seq<char>) -> bool
    decreases a.len(),
{
    if a.len() == 0 {
        true
    } else if b.len() == 0 {
        false
    } else if a[0] != b[0] {
        a[0] < b[0]
    } else {
        spec_lex_le(a.drop_first(), b.drop_first())
    }
}

proof fn lemma_lex_total(a: Seq<char>, b: Seq<char>)
    ensures
        spec_lex_le(a, b) || spec_lex_le(b, a),
    decreases a.len(),
{
    if a.len() > 0 && b.len() > 0 {
        if a[0] == b[0] {
            lemma_lex_total(a.drop_first(), b.drop_first());
        }
    }
}

proof fn lemma_lex_trans(a: Seq<char>, b: Seq<char>, c: Seq<char>)
    requires
        spec_lex_le(a, b),
        spec_lex_le(b, c),
    ensures
        spec_lex_le(a, c),
    decreases a.len(),
{
    if a.len() > 0 && b.len() > 0 && c.len() > 0 && a[0] == b[0] && b[0] == c[0] {
        lemma_lex_trans(a.drop_first(), b.drop_first(), c.drop_first());
    }
}

fn lex_le(a: &Vec<char>, b: &Vec<char>) -> (r: bool)
    ensures
        r == spec_lex_le(a@, b@),
{
    let mut i: usize = 0;
    assert(a@.skip(0) =~= a@);
    assert(b@.skip(0) =~= b@);
    while i < a.len() && i < b.len() && a[i] == b[i]
        invariant
            0 <= i <= a@.len(),
            i <= b@.len(),
            spec_lex_le(a@, b@) == spec_lex_le(a@.skip(i as int), b@.skip(i as int)),
        decreases a@.len() - i,
    {
        proof {
            assert(a@.skip(i as int).drop_first() =~= a@.skip(i as int + 1));
            assert(b@.skip(i as int).drop_first() =~= b@.skip(i as int + 1));
            assert(a@.skip(i as int)[0] == a@[i as int]);
            assert(b@.skip(i as int)[0] == b@[i as int]);
        }
        i = i + 1;
    }
    if i == a.len() {
        return true;
    }
    if i == b.len() {
        return false;
    }
    assert(a@.skip(i as int)[0] == a@[i as int]);
    assert(b@.skip(i as int)[0] == b@[i as int]);
    a[i] < b[i]
}

/// One entry of the power-supply directory, with the sample its files give
/// (`None` where they are missing or unparseable).
#[derive(Clone, Debug)]
pub struct SupplyEntry {
    pub name: String,
    pub reading: Option<Reading>,
}

/// Whether an entry is a battery worth watching: a `BAT*` entry whose files
/// read.
pub open spec fn spec_watchable(e: SupplyEntry) -> bool {
    crate::text::spec_starts_with(e.name@, "BAT"@) && e.reading is Some
}

/// The battery to watch among the power-supply entries: the first, in name
/// order, of the batteries whose files read, so a machine with two
/// batteries watches the same one on every start. `None` on a machine
/// without one.
pub fn probe(entries: &Vec<SupplyEntry>) -> (r: Option<String>)
    ensures
        r is None <==> forall|i: int| 0 <= i < entries@.len() ==> !spec_watchable(#[trigger] entries@[i]),
        r matches Some(name) ==> exists|i: int|
            0 <= i < entries@.len() && spec_watchable(#[trigger] entries@[i]) && entries@[i].name@ == name@,
        r matches Some(name) ==> forall|j: int|
            0 <= j < entries@.len() && spec_watchable(#[trigger] entries@[j]) ==> spec_lex_le(name@, entries@[j].name@),
{
    let mut best: Option<usize> = None;
    let mut best_chars: Vec<char> = Vec::new();
    let mut i: usize = 0;
    while i < entries.len()
        invariant
            0 <= i <= entries@.len(),
            best is None ==> forall|k: int| 0 <= k < i ==> !spec_watchable(#[trigger] entries@[k]),
            best matches Some(b) ==> b < i && spec_watchable(entries@[b as int]) && best_chars@ == entries@[b as int].name@,
            best matches Some(b) ==> forall|k: int|
                0 <= k < i && spec_watchable(#[trigger] entries@[k]) ==> spec_lex_le(best_chars@, entries@[k].name@),
        decreases entries@.len() - i,
    {
        let entry = &entries[i];
        if is_battery_entry(entry.name.as_str()) && entry.reading.is_some() {
            let chars = chars_of(entry.name.as_str());
            match best {
                None => {
                    best = Some(i);
                    best_chars = chars;
                    proof {
                        lemma_lex_total(best_chars@, best_chars@);
                    }
                },
                Some(b) => {
                    if !lex_le(&best_chars, &chars) {
                        proof {
                            lemma_lex_total(best_chars@, chars@);
                            assert forall|k: int| 0 <= k < i + 1 && spec_watchable(#[trigger] entries@[k]) implies spec_lex_le(
                                chars@,
                                entries@[k].name@,
                            ) by {
                                if k < i {
                                    lemma_lex_trans(chars@, best_chars@, entries@[k].name@);
                                } else {
                                    lemma_lex_total(chars@, chars@);
                                }
                            }
                        }
                        best = Some(i);
                        best_chars = chars;
                    }
                },
            }
        }
        i = i + 1;
    }
    match best {
        Some(b) => {
            let name = crate::text::string_from_chars(best_chars.as_slice());
            Some(name)
        },
        None => None,
    }
}

} // verus!
