//! The lighting controller's feature-report protocol.
//!
//! The controller takes one 33-byte feature report that carries the whole
//! lighting state: effect, speed, brightness and, for the effects that use
//! them, the twelve zone color bytes. The driver keeps that state and
//! re-sends the full report after every change. This module holds the
//! state and builds the reports; the HID transfer itself belongs to the
//! device handle around it.
use vstd::prelude::*;

verus! {

/// USB vendor id of the controllers Aurora drives.
pub const VENDOR_ID: u16 = 0x048d;

/// Speeds the hardware effects accept.
pub const SPEED_MIN: u8 = 1;

pub const SPEED_MAX: u8 = 4;

/// Brightness levels the controller accepts.
pub const BRIGHTNESS_MIN: u8 = 1;

pub const BRIGHTNESS_MAX: u8 = 2;

/// The highest zone index.
pub const ZONE_MAX: u8 = 3;

/// Slot counter value the controller reports while the backlight is off.
pub const HARDWARE_SLOT_OFF: u8 = 4;

/// One feature report: the report id plus 32 payload bytes.
pub const FEATURE_REPORT_BYTES: usize = 33;

/// Report id of the lighting feature report.
pub const FEATURE_REPORT_ID: u8 = 0xcc;

/// The supported controllers: vendor, product, usage page, usage.
pub const KNOWN_DEVICE_INFOS: [(u16, u16, u16, u16); 11] = [
    (0x048d, 0xc995, 0xff89, 0x00cc),  // 2024 Pro
    (0x048d, 0xc994, 0xff89, 0x00cc),  // 2024
    (0x048d, 0xc993, 0xff89, 0x00cc),  // 2024 LOQ
    (0x048d, 0xc985, 0xff89, 0x00cc),  // 2023 Pro
    (0x048d, 0xc984, 0xff89, 0x00cc),  // 2023
    (0x048d, 0xc983, 0xff89, 0x00cc),  // 2023 LOQ
    (0x048d, 0xc975, 0xff89, 0x00cc),  // 2022
    (0x048d, 0xc973, 0xff89, 0x00cc),  // 2022 Ideapad
    (0x048d, 0xc965, 0xff89, 0x00cc),  // 2021
    (0x048d, 0xc963, 0xff89, 0x00cc),  // 2021 Ideapad
    (0x048d, 0xc955, 0xff89, 0x00cc),  // 2020
];

/// Which value was out of range.
#[derive(Clone, Copy, Debug, PartialEq, Eq, Structural)]
pub enum RangeErrorKind {
    Speed,
    Brightness,
    Zone,
    /// A short read of the slot counter report.
    Slot,
}

impl RangeErrorKind {
    /// The description of the error, as the driver reports it.
    pub open spec fn spec_describe(self) -> Seq<char> {
        match self {
            RangeErrorKind::Speed => "speed must be between 1 and 4"@,
            RangeErrorKind::Brightness => "brightness must be 1 or 2"@,
            RangeErrorKind::Zone => "zone index must be between 0 and 3"@,
            RangeErrorKind::Slot => "the slot counter report was too short"@,
        }
    }

    pub fn describe(&self) -> (r: String)
        ensures
            r@ == self.spec_describe(),
    {
        match self {
            RangeErrorKind::Speed => crate::text::owned("speed must be between 1 and 4"),
            RangeErrorKind::Brightness => crate::text::owned("brightness must be 1 or 2"),
            RangeErrorKind::Zone => crate::text::owned("zone index must be between 0 and 3"),
            RangeErrorKind::Slot => crate::text::owned("the slot counter report was too short"),
        }
    }
}

/// Why a driver call failed.
#[derive(Clone, Debug)]
pub enum DriverError {
    /// No supported controller on the bus.
    DeviceNotFound,
    /// The HID layer failed; its message.
    Hid { message: String },
    /// A value outside what the controller accepts.
    Range { kind: RangeErrorKind },
}

impl DriverError {
    /// The error's description, as the driver reports it.
    pub open spec fn spec_describe(self) -> Seq<char> {
        match self {
            DriverError::DeviceNotFound => "keyboard not found"@,
            DriverError::Hid { message } => message@,
            DriverError::Range { kind } => kind.spec_describe(),
        }
    }

    pub fn describe(&self) -> (r: String)
        ensures
            r@ == self.spec_describe(),
    {
        match self {
            DriverError::DeviceNotFound => crate::text::owned("keyboard not found"),
            DriverError::Hid { message } => message.clone(),
            DriverError::Range { kind } => kind.describe(),
        }
    }
}

/// The effects the controller runs by itself.
#[derive(Clone, Copy, Debug, PartialEq, Eq, Structural)]
pub enum BaseEffects {
    Static,
    Breath,
    Smooth,
    LeftWave,
    RightWave,
}

/// Everything the controller's report carries.
#[derive(Clone, Copy, Debug)]
pub struct LightingState {
    pub effect_type: BaseEffects,
    pub speed: u8,
    pub brightness: u8,
    pub rgb_values: [u8; 12],
}

/// Whether the effect shows the zone colors (and so takes color writes).
pub open spec fn spec_shows_colors(effect: BaseEffects) -> bool {
    effect == BaseEffects::Static || effect == BaseEffects::Breath
}

/// The effect byte of the report.
pub open spec fn spec_effect_code(effect: BaseEffects) -> u8 {
    match effect {
        BaseEffects::Static => 0x01,
        BaseEffects::Breath => 0x03,
        BaseEffects::Smooth => 0x06,
        BaseEffects::LeftWave => 0x04,
        BaseEffects::RightWave => 0x04,
    }
}

/// Byte `i` of the report for a state whose speed and brightness are in
/// range: report id 0xcc, command 0x16, effect, speed, brightness, the
/// twelve color bytes for the color-showing effects, and a direction flag
/// at 18 (right) or 19 (left) for the waves. Every other byte is zero.
pub open spec fn spec_payload_byte(s: LightingState, i: int) -> u8 {
    if i == 0 {
        0xcc
    } else if i == 1 {
        0x16
    } else if i == 2 {
        spec_effect_code(s.effect_type)
    } else if i == 3 {
        s.speed
    } else if i == 4 {
        s.brightness
    } else if 5 <= i < 17 && spec_shows_colors(s.effect_type) {
        s.rgb_values@[i - 5]
    } else if i == 18 && s.effect_type == BaseEffects::RightWave {
        1
    } else if i == 19 && s.effect_type == BaseEffects::LeftWave {
        1
    } else {
        0
    }
}

pub open spec fn spec_payload(s: LightingState) -> Seq<u8> {
    Seq::new(33, |i: int| spec_payload_byte(s, i))
}

pub open spec fn spec_speed_ok(speed: u8) -> bool {
    SPEED_MIN <= speed <= SPEED_MAX
}

pub open spec fn spec_brightness_ok(brightness: u8) -> bool {
    BRIGHTNESS_MIN <= brightness <= BRIGHTNESS_MAX
}

/// The report for a state, or the range error that stops it being sent.
pub open spec fn spec_build(s: LightingState) -> Result<Seq<u8>, RangeErrorKind> {
    if !spec_speed_ok(s.speed) {
        Err(RangeErrorKind::Speed)
    } else if !spec_brightness_ok(s.brightness) {
        Err(RangeErrorKind::Brightness)
    } else {
        Ok(spec_payload(s))
    }
}

/// Whether a driver result carries exactly the outcome `spec_build` gives.
pub open spec fn spec_result_is(r: Result<[u8; 33], DriverError>, b: Result<Seq<u8>, RangeErrorKind>) -> bool {
    match (r, b) {
        (Ok(payload), Ok(expected)) => payload@ == expected,
        (Err(DriverError::Range { kind }), Err(expected)) => kind == expected,
        _ => false,
    }
}

/// Whether `r` is the range error of the given kind.
pub open spec fn spec_range_error<T>(r: Result<T, DriverError>, kind: RangeErrorKind) -> bool {
    match r {
        Err(DriverError::Range { kind: k }) => k == kind,
        _ => false,
    }
}

/// Whether a color write was sent, with the report for `s`.
pub open spec fn spec_sent(r: Option<Result<[u8; 33], DriverError>>, s: LightingState) -> bool {
    match r {
        Some(res) => spec_result_is(res, spec_build(s)),
        None => false,
    }
}

impl LightingState {
    /// The state a freshly opened controller is put in: static, black,
    /// slowest, dim.
    pub fn initial() -> (s: LightingState)
        ensures
            s.effect_type == BaseEffects::Static,
            s.speed == 1,
            s.brightness == 1,
            s.rgb_values@ == Seq::new(12, |i: int| 0u8),
    {
        let s = LightingState { effect_type: BaseEffects::Static, speed: 1, brightness: 1, rgb_values: [0; 12] };
        assert(s.rgb_values@ =~= Seq::new(12, |i: int| 0u8));
        s
    }

    /// The feature report for this state.
    pub fn build_payload(&self) -> (r: Result<[u8; 33], DriverError>)
        ensures
            spec_result_is(r, spec_build(*self)),
    {
        if !(SPEED_MIN <= self.speed && self.speed <= SPEED_MAX) {
            return Err(DriverError::Range { kind: RangeErrorKind::Speed });
        }
        if !(BRIGHTNESS_MIN <= self.brightness && self.brightness <= BRIGHTNESS_MAX) {
            return Err(DriverError::Range { kind: RangeErrorKind::Brightness });
        }

        let mut payload: [u8; 33] = [0; 33];
        payload[0] = 0xcc;
        payload[1] = 0x16;
        payload[2] = match self.effect_type {
            BaseEffects::Static => 0x01,
            BaseEffects::Breath => 0x03,
            BaseEffects::Smooth => 0x06,
            BaseEffects::LeftWave => {
                payload[19] = 0x1;
                0x04
            },
            BaseEffects::RightWave => {
                payload[18] = 0x1;
                0x04
            },
        };
        payload[3] = self.speed;
        payload[4] = self.brightness;

        match self.effect_type {
            BaseEffects::Static | BaseEffects::Breath => {
                let mut i: usize = 0;
                while i < 12
                    invariant
                        0 <= i <= 12,
                        spec_shows_colors(self.effect_type),
                        forall|k: int| 0 <= k < 5 ==> payload@[k] == spec_payload_byte(*self, k),
                        forall|k: int| 5 <= k < 5 + i ==> payload@[k] == spec_payload_byte(*self, k),
                        forall|k: int| 5 + i <= k < 33 ==> payload@[k] == 0u8,
                    decreases 12 - i,
                {
                    payload[5 + i] = self.rgb_values[i];
                    i = i + 1;
                }
            },
            _ => {},
        }
        assert(payload@ =~= spec_payload(*self));
        Ok(payload)
    }

    /// Switch the effect and give the report to send.
    pub fn set_effect(&mut self, effect: BaseEffects) -> (r: Result<[u8; 33], DriverError>)
        ensures
            *final(self) == (LightingState { effect_type: effect, ..*old(self) }),
            spec_result_is(r, spec_build(*final(self))),
    {
        self.effect_type = effect;
        self.build_payload()
    }

    /// Set the hardware effect speed (1 to 4). Out of range leaves the state
    /// alone and reports the speed error.
    pub fn set_speed(&mut self, speed: u8) -> (r: Result<[u8; 33], DriverError>)
        ensures
            !spec_speed_ok(speed) ==> *final(self) == *old(self) && spec_range_error(r, RangeErrorKind::Speed),
            spec_speed_ok(speed) ==> *final(self) == (LightingState { speed, ..*old(self) }) && spec_result_is(
                r,
                spec_build(*final(self)),
            ),
    {
        if !(SPEED_MIN <= speed && speed <= SPEED_MAX) {
            return Err(DriverError::Range { kind: RangeErrorKind::Speed });
        }
        self.speed = speed;
        self.build_payload()
    }

    /// Set the brightness (1 or 2). Out of range leaves the state alone and
    /// reports the brightness error.
    pub fn set_brightness(&mut self, brightness: u8) -> (r: Result<[u8; 33], DriverError>)
        ensures
            !spec_brightness_ok(brightness) ==> *final(self) == *old(self) && spec_range_error(r, RangeErrorKind::Brightness),
            spec_brightness_ok(brightness) ==> *final(self) == (LightingState { brightness, ..*old(self) })
                && spec_result_is(r, spec_build(*final(self))),
    {
        if !(BRIGHTNESS_MIN <= brightness && brightness <= BRIGHTNESS_MAX) {
            return Err(DriverError::Range { kind: RangeErrorKind::Brightness });
        }
        self.brightness = brightness;
        self.build_payload()
    }

    /// Set one zone's color. A zone index above 3 leaves the state alone
    /// and reports the zone error.
    pub fn set_zone_by_index(&mut self, zone_index: u8, new_values: [u8; 3]) -> (r: Result<
        [u8; 33],
        DriverError,
    >)
        ensures
            zone_index > ZONE_MAX ==> *final(self) == *old(self) && spec_range_error(r, RangeErrorKind::Zone),
            zone_index <= ZONE_MAX ==> {
                &&& final(self).effect_type == old(self).effect_type
                &&& final(self).speed == old(self).speed
                &&& final(self).brightness == old(self).brightness
                &&& forall|i: int|
                    0 <= i < 12 ==> #[trigger] final(self).rgb_values@[i] == if i / 3 == zone_index {
                        new_values@[i % 3]
                    } else {
                        old(self).rgb_values@[i]
                    }
                &&& spec_result_is(r, spec_build(*final(self)))
            },
    {
        if zone_index > ZONE_MAX {
            return Err(DriverError::Range { kind: RangeErrorKind::Zone });
        }
        let base: usize = zone_index as usize * 3;
        self.rgb_values[base] = new_values[0];
        self.rgb_values[base + 1] = new_values[1];
        self.rgb_values[base + 2] = new_values[2];
        self.build_payload()
    }

    /// Replace all twelve color bytes. Only the color-showing effects take
    /// colors: for the others nothing changes and nothing is sent (`None`).
    pub fn set_colors_to(&mut self, new_values: &[u8; 12]) -> (r: Option<Result<[u8; 33], DriverError>>)
        ensures
            !spec_shows_colors(old(self).effect_type) ==> *final(self) == *old(self) && r.is_none(),
            spec_shows_colors(old(self).effect_type) ==> *final(self) == (LightingState {
                rgb_values: *new_values,
                ..*old(self)
            }) && spec_sent(r, *final(self)),
    {
        match self.effect_type {
            BaseEffects::Static | BaseEffects::Breath => {
                self.rgb_values = *new_values;
                Some(self.build_payload())
            },
            _ => None,
        }
    }

    /// Show one color on every zone; as [`LightingState::set_colors_to`]
    /// for the effects that take no colors.
    pub fn solid_set_colors_to(&mut self, new_values: [u8; 3]) -> (r: Option<Result<[u8; 33], DriverError>>)
        ensures
            !spec_shows_colors(old(self).effect_type) ==> *final(self) == *old(self) && r.is_none(),
            spec_shows_colors(old(self).effect_type) ==> {
                &&& final(self).effect_type == old(self).effect_type
                &&& final(self).speed == old(self).speed
                &&& final(self).brightness == old(self).brightness
                &&& forall|i: int| 0 <= i < 12 ==> #[trigger] final(self).rgb_values@[i] == new_values@[i % 3]
                &&& spec_sent(r, *final(self))
            },
    {
        match self.effect_type {
            BaseEffects::Static | BaseEffects::Breath => {
                let mut i: usize = 0;
                while i < 4
                    invariant
                        0 <= i <= 4,
                        self.effect_type == old(self).effect_type,
                        self.speed == old(self).speed,
                        self.brightness == old(self).brightness,
                        forall|k: int| 0 <= k < 3 * i ==> #[trigger] self.rgb_values@[k] == new_values@[k % 3],
                    decreases 4 - i,
                {
                    self.rgb_values[3 * i] = new_values[0];
                    self.rgb_values[3 * i + 1] = new_values[1];
                    self.rgb_values[3 * i + 2] = new_values[2];
                    i = i + 1;
                }
                Some(self.build_payload())
            },
            _ => None,
        }
    }
}

/// The controller's slot counter from a GET_FEATURE report: byte 1 of a
/// report at least two bytes long, else the slot range error.
pub fn counter_from_report(read_count: usize, report: &[u8; 33]) -> (r: Result<u8, DriverError>)
    ensures
        read_count < 2 ==> spec_range_error(r, RangeErrorKind::Slot),
        read_count >= 2 ==> r == Ok::<u8, DriverError>(report@[1]),
{
    if read_count < 2 {
        return Err(DriverError::Range { kind: RangeErrorKind::Slot });
    }
    Ok(report[1])
}

/// Whether a vendor and product id pair is a supported controller.
pub open spec fn spec_is_known_device(vendor_id: u16, product_id: u16) -> bool {
    exists|i: int| 0 <= i < 11 && (#[trigger] KNOWN_DEVICE_INFOS@[i]).0 == vendor_id && KNOWN_DEVICE_INFOS@[i].1 == product_id
}

pub fn is_known_device(vendor_id: u16, product_id: u16) -> (r: bool)
    ensures
        r == spec_is_known_device(vendor_id, product_id),
{
    let mut i: usize = 0;
    while i < 11
        invariant
            0 <= i <= 11,
            forall|k: int| 0 <= k < i ==> !((#[trigger] KNOWN_DEVICE_INFOS@[k]).0 == vendor_id && KNOWN_DEVICE_INFOS@[k].1 == product_id),
        decreases 11 - i,
    {
        let info = KNOWN_DEVICE_INFOS[i];
        if info.0 == vendor_id && info.1 == product_id {
            return true;
        }
        i = i + 1;
    }
    false
}

/// A device id as `find-keyboards` prints it: `0xvvvv:0xpppp`.
pub open spec fn spec_id_text(vendor_id: u16, product_id: u16) -> Seq<char> {
    "0x"@ + crate::text::spec_hex4(vendor_id) + ":0x"@ + crate::text::spec_hex4(product_id)
}

/// The ids of the vendor's devices among a listing, in order.
pub open spec fn spec_vendor_ids(devices: Seq<(u16, u16)>) -> Seq<Seq<char>>
    decreases devices.len(),
{
    if devices.len() == 0 {
        seq![]
    } else if devices.last().0 == VENDOR_ID {
        spec_vendor_ids(devices.drop_last()).push(spec_id_text(devices.last().0, devices.last().1))
    } else {
        spec_vendor_ids(devices.drop_last())
    }
}

/// `s` with each run of equal neighbours cut to one, as `Vec::dedup` does.
pub open spec fn spec_dedup(s: Seq<Seq<char>>) -> Seq<Seq<char>>
    decreases s.len(),
{
    if s.len() <= 1 {
        s
    } else if s.last() == s[s.len() - 2] {
        spec_dedup(s.drop_last())
    } else {
        spec_dedup(s.drop_last()).push(s.last())
    }
}

proof fn lemma_dedup_last(s: Seq<Seq<char>>)
    requires
        s.len() > 0,
    ensures
        spec_dedup(s).len() > 0,
        spec_dedup(s).last() == s.last(),
    decreases s.len(),
{
    if s.len() > 1 {
        lemma_dedup_last(s.drop_last());
    }
}

proof fn lemma_hex_digit_injective(a: nat, b: nat)
    requires
        a < 16,
        b < 16,
        crate::text::spec_hex_digit(a) == crate::text::spec_hex_digit(b),
    ensures
        a == b,
{
}

proof fn lemma_id_text_injective(p: u16, q: u16)
    requires
        spec_id_text(VENDOR_ID, p) == spec_id_text(VENDOR_ID, q),
    ensures
        p == q,
{
    let hp = crate::text::spec_hex4(p);
    let hq = crate::text::spec_hex4(q);
    let prefix = "0x"@ + crate::text::spec_hex4(VENDOR_ID) + ":0x"@;
    assert(spec_id_text(VENDOR_ID, p) == prefix + hp);
    assert(spec_id_text(VENDOR_ID, q) == prefix + hq);
    assert(hp =~= (prefix + hp).subrange(prefix.len() as int, prefix.len() as int + 4));
    assert(hq =~= (prefix + hq).subrange(prefix.len() as int, prefix.len() as int + 4));
    assert(hp == hq);
    assert(hp[0] == hq[0] && hp[1] == hq[1] && hp[2] == hq[2] && hp[3] == hq[3]);
    lemma_hex_digit_injective((p / 4096) as nat, (q / 4096) as nat);
    lemma_hex_digit_injective(((p / 256) % 16) as nat, ((q / 256) % 16) as nat);
    lemma_hex_digit_injective(((p / 16) % 16) as nat, ((q / 16) % 16) as nat);
    lemma_hex_digit_injective((p % 16) as nat, (q % 16) as nat);
    assert(p / 4096 == q / 4096 && (p / 256) % 16 == (q / 256) % 16 && (p / 16) % 16 == (q / 16) % 16 && p % 16 == q
        % 16 ==> p == q) by (bit_vector);
}

/// The vendor's devices on the bus, each listed once per run of the same
/// id, for a report of what could be a keyboard.
pub fn possible_keyboards(devices: &Vec<(u16, u16)>) -> (ids: Vec<String>)
    ensures
        crate::text::spec_texts(ids@) == spec_dedup(spec_vendor_ids(devices@)),
{
    let mut ids: Vec<String> = Vec::new();
    let ghost mut listed: Seq<Seq<char>> = seq![];
    let mut last_product: Option<u16> = None;
    let mut i: usize = 0;
    assert(devices@.take(0) =~= seq![]);
    while i < devices.len()
        invariant
            0 <= i <= devices@.len(),
            listed == spec_vendor_ids(devices@.take(i as int)),
            crate::text::spec_texts(ids@) == spec_dedup(listed),
            last_product is None <==> listed.len() == 0,
            last_product matches Some(p) ==> listed.last() == spec_id_text(VENDOR_ID, p),
        decreases devices@.len() - i,
    {
        proof {
            assert(devices@.take(i as int + 1).drop_last() =~= devices@.take(i as int));
            assert(devices@.take(i as int + 1).last() == devices@[i as int]);
        }
        let (vendor, product) = devices[i];
        if vendor == VENDOR_ID {
            let mut id = crate::text::owned("0x");
            crate::text::push_hex4(&mut id, vendor);
            crate::text::push_str(&mut id, ":0x");
            crate::text::push_hex4(&mut id, product);
            assert(id@ =~= spec_id_text(vendor, product));
            let repeat = match last_product {
                Some(p) => p == product,
                None => false,
            };
            proof {
                let next = listed.push(id@);
                assert(next.drop_last() =~= listed);
                if listed.len() > 0 {
                    assert(next[next.len() - 2] == listed.last());
                    let p = last_product.unwrap();
                    if spec_id_text(VENDOR_ID, p) == spec_id_text(vendor, product) {
                        lemma_id_text_injective(p, product);
                    }
                }
            }
            if !repeat {
                let ghost before = ids@;
                ids.push(id);
                assert(crate::text::spec_texts(ids@) =~= crate::text::spec_texts(before).push(
                    spec_id_text(vendor, product),
                ));
            }
            proof {
                listed = listed.push(spec_id_text(vendor, product));
            }
            last_product = Some(product);
        }
        i = i + 1;
    }
    assert(devices@.take(devices@.len() as int) =~= devices@);
    ids
}

} // verus!
