//! The wire format of the ACPI generic-netlink events that carry Fn+Space.
//!
//! Pressing Fn+Space raises the Lenovo GameZone "light profile change" WMI
//! event, which the kernel forwards to the `acpi_event` generic-netlink
//! multicast group as an `acpi_genl_event` with device class `"wmi"` and
//! event type 0xE6 (also seen packed as 0xE600). This module builds the
//! family query, splits datagrams into messages and attributes, and finds
//! the events; the socket belongs to the program around it.
//!
//! Netlink integers are in the host's byte order. Every function here that
//! reads or writes one takes the order as a value, so each is exact for
//! either order; [`ByteOrder::host`] finds the running machine's.
use vstd::prelude::*;

verus! {

// Generic netlink control protocol (linux/genetlink.h).
pub const GENL_ID_CTRL: u16 = 0x10;

pub const CTRL_CMD_GETFAMILY: u8 = 3;

pub const CTRL_ATTR_FAMILY_ID: u16 = 1;

pub const CTRL_ATTR_FAMILY_NAME: u16 = 2;

pub const CTRL_ATTR_MCAST_GROUPS: u16 = 7;

pub const CTRL_ATTR_MCAST_GRP_NAME: u16 = 1;

pub const CTRL_ATTR_MCAST_GRP_ID: u16 = 2;

// Netlink wire format (linux/netlink.h).
pub const NLM_F_REQUEST: u16 = 1;

pub const NLMSG_ERROR: u16 = 2;

pub const NLMSG_HEADER_BYTES: usize = 16;

pub const GENL_HEADER_BYTES: usize = 4;

pub const ATTR_HEADER_BYTES: usize = 4;

/// Attribute types carry flag bits in their two high bits.
pub const NLA_TYPE_MASK: u16 = 0x3fff;

// The ACPI event family (drivers/acpi/event.c).
/// "acpi_event"
pub const ACPI_FAMILY_NAME: [u8; 10] = [0x61, 0x63, 0x70, 0x69, 0x5f, 0x65, 0x76, 0x65, 0x6e, 0x74];

/// "acpi_mc_group"
pub const ACPI_MCAST_GROUP_NAME: [u8; 13] = [0x61, 0x63, 0x70, 0x69, 0x5f, 0x6d, 0x63, 0x5f, 0x67, 0x72, 0x6f, 0x75, 0x70];

pub const ACPI_GENL_CMD_EVENT: u8 = 1;

pub const ACPI_GENL_ATTR_EVENT: u16 = 1;

// struct acpi_genl_event { char device_class[20]; char bus_id[15]; u32 type; u32 data; }
pub const DEVICE_CLASS_BYTES: usize = 20;

pub const BUS_ID_BYTES: usize = 15;

/// Offset of the `type` field: class, bus id and one alignment pad byte.
pub const EVENT_TYPE_OFFSET: usize = 36;

/// "wmi": the device class the WMI core stamps on forwarded events.
pub const WMI_DEVICE_CLASS: [u8; 3] = [0x77, 0x6d, 0x69];

/// "PNP0C14": the WMI mapper device the GameZone events come from; the
/// instance suffix varies, so only this prefix is matched.
pub const WMI_BUS_ID_PREFIX: [u8; 7] = [0x50, 0x4e, 0x50, 0x30, 0x43, 0x31, 0x34];

/// The two observed encodings of the light-profile-change notification.
pub const LIGHT_PROFILE_EVENT_TYPES: [u32; 2] = [0xE6, 0xE600];

/// How many times the socket is reopened before the subsystem is reported
/// unavailable.
pub const MAX_REOPEN_ATTEMPTS: u32 = 5;

/// Delays between reopen attempts, in milliseconds; the last repeats.
pub const REOPEN_BACKOFF_MS: [u64; 3] = [500, 2000, 5000];

/// The order of an integer's bytes in memory.
#[derive(Clone, Copy, Debug, PartialEq, Eq, Structural)]
pub enum ByteOrder {
    Little,
    Big,
}

/// `u16::from_ne_bytes`: the two bytes read in the host's order. Its
/// result is one of the two orders' readings; which one is a fact about
/// the machine, not stated here.
#[verifier::external_body]
fn u16_from_ne_bytes(bytes: [u8; 2]) -> (r: u16)
    ensures
        r == bytes@[0] + 256 * bytes@[1] || r == 256 * bytes@[0] + bytes@[1],
{
    u16::from_ne_bytes(bytes)
}

impl ByteOrder {
    /// The running machine's byte order.
    pub fn host() -> (o: ByteOrder) {
        if u16_from_ne_bytes([1, 0]) == 1 {
            ByteOrder::Little
        } else {
            ByteOrder::Big
        }
    }
}

pub open spec fn spec_u16_of(b0: u8, b1: u8, o: ByteOrder) -> u16 {
    match o {
        ByteOrder::Little => (b0 + 256 * b1) as u16,
        ByteOrder::Big => (256 * b0 + b1) as u16,
    }
}

pub open spec fn spec_u32_of(b0: u8, b1: u8, b2: u8, b3: u8, o: ByteOrder) -> u32 {
    match o {
        ByteOrder::Little => (b0 + 256 * b1 + 65536 * b2 + 16777216 * b3) as u32,
        ByteOrder::Big => (16777216 * b0 + 65536 * b1 + 256 * b2 + b3) as u32,
    }
}

/// The `u16` at `offset`, or `None` when it does not fit.
pub open spec fn spec_read_u16(bytes: Seq<u8>, offset: int, o: ByteOrder) -> Option<u16> {
    if 0 <= offset && offset + 2 <= bytes.len() {
        Some(spec_u16_of(bytes[offset], bytes[offset + 1], o))
    } else {
        None
    }
}

/// The `u32` at `offset`, or `None` when it does not fit.
pub open spec fn spec_read_u32(bytes: Seq<u8>, offset: int, o: ByteOrder) -> Option<u32> {
    if 0 <= offset && offset + 4 <= bytes.len() {
        Some(spec_u32_of(bytes[offset], bytes[offset + 1], bytes[offset + 2], bytes[offset + 3], o))
    } else {
        None
    }
}

/// The two bytes of `v` in order `o`.
pub open spec fn spec_u16_bytes(v: u16, o: ByteOrder) -> Seq<u8> {
    match o {
        ByteOrder::Little => seq![(v % 256) as u8, (v / 256) as u8],
        ByteOrder::Big => seq![(v / 256) as u8, (v % 256) as u8],
    }
}

/// The four bytes of `v` in order `o`.
pub open spec fn spec_u32_bytes(v: u32, o: ByteOrder) -> Seq<u8> {
    let b0 = (v % 256) as u8;
    let b1 = (v / 256 % 256) as u8;
    let b2 = (v / 65536 % 256) as u8;
    let b3 = (v / 16777216) as u8;
    match o {
        ByteOrder::Little => seq![b0, b1, b2, b3],
        ByteOrder::Big => seq![b3, b2, b1, b0],
    }
}

/// Reading back what was written gives the value written.
pub proof fn law_u16_round_trip(v: u16, o: ByteOrder)
    ensures
        spec_u16_of(spec_u16_bytes(v, o)[0], spec_u16_bytes(v, o)[1], o) == v,
{
}

pub proof fn law_u32_round_trip(v: u32, o: ByteOrder)
    ensures
        spec_u32_of(
            spec_u32_bytes(v, o)[0],
            spec_u32_bytes(v, o)[1],
            spec_u32_bytes(v, o)[2],
            spec_u32_bytes(v, o)[3],
            o,
        ) == v,
{
    assert(((v % 256) as u8) + 256 * ((v / 256 % 256) as u8) + 65536 * ((v / 65536 % 256) as u8) + 16777216 * ((v
        / 16777216) as u8) == v) by (bit_vector);
}

/// Netlink aligns lengths to 4 bytes.
pub open spec fn spec_align4(length: int) -> int {
    (length + 3) / 4 * 4
}

pub proof fn lemma_align4(length: int)
    requires
        length >= 0,
    ensures
        length <= spec_align4(length) <= length + 3,
        spec_align4(length) % 4 == 0,
{
    assert(length <= (length + 3) / 4 * 4 <= length + 3) by (nonlinear_arith)
        requires
            length >= 0,
    ;
    assert(((length + 3) / 4 * 4) % 4 == 0) by (nonlinear_arith);
}

pub fn align4(length: usize) -> (r: usize)
    requires
        length + 3 <= usize::MAX,
    ensures
        r == spec_align4(length as int),
{
    let sum: usize = length + 3;
    let r = sum & !3usize;
    assert(sum & !3usize == (sum / 4) * 4) by (bit_vector);
    r
}

pub fn read_u16(bytes: &[u8], offset: usize, order: ByteOrder) -> (r: Option<u16>)
    ensures
        r == spec_read_u16(bytes@, offset as int, order),
{
    if offset > bytes.len() || bytes.len() - offset < 2 {
        return None;
    }
    let b0 = bytes[offset] as u16;
    let b1 = bytes[offset + 1] as u16;
    match order {
        ByteOrder::Little => Some(b0 + 256 * b1),
        ByteOrder::Big => Some(256 * b0 + b1),
    }
}

pub fn read_u32(bytes: &[u8], offset: usize, order: ByteOrder) -> (r: Option<u32>)
    ensures
        r == spec_read_u32(bytes@, offset as int, order),
{
    if offset > bytes.len() || bytes.len() - offset < 4 {
        return None;
    }
    let b0 = bytes[offset] as u32;
    let b1 = bytes[offset + 1] as u32;
    let b2 = bytes[offset + 2] as u32;
    let b3 = bytes[offset + 3] as u32;
    match order {
        ByteOrder::Little => Some(b0 + 256 * b1 + 65536 * b2 + 16777216 * b3),
        ByteOrder::Big => Some(16777216 * b0 + 65536 * b1 + 256 * b2 + b3),
    }
}

/// The `u16` at `offset` in the host's order.
pub fn read_u16_ne(bytes: &[u8], offset: usize) -> (r: Option<u16>)
    ensures
        r == spec_read_u16(bytes@, offset as int, ByteOrder::Little) || r == spec_read_u16(
            bytes@,
            offset as int,
            ByteOrder::Big,
        ),
{
    read_u16(bytes, offset, ByteOrder::host())
}

/// The `u32` at `offset` in the host's order.
pub fn read_u32_ne(bytes: &[u8], offset: usize) -> (r: Option<u32>)
    ensures
        r == spec_read_u32(bytes@, offset as int, ByteOrder::Little) || r == spec_read_u32(
            bytes@,
            offset as int,
            ByteOrder::Big,
        ),
{
    read_u32(bytes, offset, ByteOrder::host())
}

/// Write `value` at `offset`.
pub fn write_u16(bytes: &mut Vec<u8>, offset: usize, value: u16, order: ByteOrder)
    requires
        offset + 2 <= old(bytes)@.len(),
    ensures
        final(bytes)@ == old(bytes)@.update(offset as int, spec_u16_bytes(value, order)[0]).update(
            offset + 1,
            spec_u16_bytes(value, order)[1],
        ),
{
    let _length = bytes.len();
    let low = (value % 256) as u8;
    let high = (value / 256) as u8;
    match order {
        ByteOrder::Little => {
            bytes.set(offset, low);
            bytes.set(offset + 1, high);
        },
        ByteOrder::Big => {
            bytes.set(offset, high);
            bytes.set(offset + 1, low);
        },
    }
}

/// Write `value` at `offset`.
pub fn write_u32(bytes: &mut Vec<u8>, offset: usize, value: u32, order: ByteOrder)
    requires
        offset + 4 <= old(bytes)@.len(),
    ensures
        final(bytes)@ == old(bytes)@.update(offset as int, spec_u32_bytes(value, order)[0]).update(
            offset + 1,
            spec_u32_bytes(value, order)[1],
        ).update(offset + 2, spec_u32_bytes(value, order)[2]).update(offset + 3, spec_u32_bytes(value, order)[3]),
{
    let _length = bytes.len();
    let b0 = (value % 256) as u8;
    let b1 = (value / 256 % 256) as u8;
    let b2 = (value / 65536 % 256) as u8;
    let b3 = (value / 16777216) as u8;
    match order {
        ByteOrder::Little => {
            bytes.set(offset, b0);
            bytes.set(offset + 1, b1);
            bytes.set(offset + 2, b2);
            bytes.set(offset + 3, b3);
        },
        ByteOrder::Big => {
            bytes.set(offset, b3);
            bytes.set(offset + 1, b2);
            bytes.set(offset + 2, b1);
            bytes.set(offset + 3, b0);
        },
    }
}

/// Index of the first zero byte at or after `k`, or the length.
pub open spec fn spec_nul_from(field: Seq<u8>, k: int) -> int
    decreases field.len() - k,
{
    if k < 0 || k >= field.len() {
        field.len() as int
    } else if field[k] == 0 {
        k
    } else {
        spec_nul_from(field, k + 1)
    }
}

/// The bytes of a fixed-size, nul-padded C string field up to its first
/// nul.
pub open spec fn spec_nul_terminated(field: Seq<u8>) -> Seq<u8> {
    field.take(spec_nul_from(field, 0))
}

pub proof fn lemma_nul_from_bounds(field: Seq<u8>, k: int)
    requires
        0 <= k <= field.len(),
    ensures
        k <= spec_nul_from(field, k) <= field.len(),
    decreases field.len() - k,
{
    if k < field.len() && field[k] != 0 {
        lemma_nul_from_bounds(field, k + 1);
    }
}

pub fn nul_terminated_str(field: &[u8]) -> (r: &[u8])
    ensures
        r@ == spec_nul_terminated(field@),
{
    let mut index: usize = 0;
    while index < field.len()
        invariant
            0 <= index <= field@.len(),
            spec_nul_from(field@, 0) == spec_nul_from(field@, index as int),
        decreases field@.len() - index,
    {
        if field[index] == 0 {
            let r = &field[0..index];
            assert(r@ =~= field@.take(index as int));
            return r;
        }
        index = index + 1;
    }
    let r = &field[0..index];
    assert(r@ =~= field@.take(index as int));
    r
}

/// Compare a fixed-size, nul-padded C string field against `expected`.
pub fn nul_terminated_matches(field: &[u8], expected: &[u8]) -> (r: bool)
    ensures
        r == (spec_nul_terminated(field@) == expected@),
{
    let text = nul_terminated_str(field);
    bytes_equal(text, expected)
}

pub fn bytes_equal(a: &[u8], b: &[u8]) -> (r: bool)
    ensures
        r == (a@ == b@),
{
    if a.len() != b.len() {
        return false;
    }
    let mut i: usize = 0;
    while i < a.len()
        invariant
            a@.len() == b@.len(),
            0 <= i <= a@.len(),
            forall|k: int| 0 <= k < i ==> a@[k] == b@[k],
        decreases a@.len() - i,
    {
        if a[i] != b[i] {
            return false;
        }
        i = i + 1;
    }
    assert(a@ =~= b@);
    true
}

// --- Building ----------------------------------------------------------------

/// The GETFAMILY request for `acpi_event`: a netlink header (length 36,
/// type GENL_ID_CTRL, flags NLM_F_REQUEST, sequence 1, port 0), a generic
/// netlink header (command GETFAMILY, version 1), and one FAMILY_NAME
/// attribute carrying the nul-terminated name, padded to 4 bytes.
pub open spec fn spec_family_query(o: ByteOrder) -> Seq<u8> {
    spec_u32_bytes(36, o) + spec_u16_bytes(GENL_ID_CTRL, o) + spec_u16_bytes(NLM_F_REQUEST, o) + spec_u32_bytes(1, o)
        + spec_u32_bytes(0, o) + seq![CTRL_CMD_GETFAMILY, 1u8, 0u8, 0u8] + spec_u16_bytes(15, o) + spec_u16_bytes(
        CTRL_ATTR_FAMILY_NAME,
        o,
    ) + ACPI_FAMILY_NAME@ + seq![0u8, 0u8]
}

pub fn build_family_query_in(order: ByteOrder) -> (message: Vec<u8>)
    ensures
        message@ == spec_family_query(order),
{
    let name_bytes = ACPI_FAMILY_NAME;
    let name_with_nul_bytes: usize = 11;
    let attr_bytes: usize = ATTR_HEADER_BYTES + name_with_nul_bytes;
    let message_bytes: usize = NLMSG_HEADER_BYTES + GENL_HEADER_BYTES + align4(attr_bytes);
    assert(message_bytes == 36);

    let mut message: Vec<u8> = vec![0u8; 36];

    // nlmsghdr: length, type, flags, sequence, port id (0 = kernel picks).
    write_u32(&mut message, 0, message_bytes as u32, order);
    write_u16(&mut message, 4, GENL_ID_CTRL, order);
    write_u16(&mut message, 6, NLM_F_REQUEST, order);
    write_u32(&mut message, 8, 1, order);
    write_u32(&mut message, 12, 0, order);

    // genlmsghdr: command, version, reserved.
    message.set(NLMSG_HEADER_BYTES, CTRL_CMD_GETFAMILY);
    message.set(NLMSG_HEADER_BYTES + 1, 1);

    // nlattr: FAMILY_NAME with a nul-terminated string payload.
    let attr_offset: usize = NLMSG_HEADER_BYTES + GENL_HEADER_BYTES;
    write_u16(&mut message, attr_offset, attr_bytes as u16, order);
    write_u16(&mut message, attr_offset + 2, CTRL_ATTR_FAMILY_NAME, order);
    let name_offset: usize = attr_offset + ATTR_HEADER_BYTES;
    let mut i: usize = 0;
    while i < 10
        invariant
            0 <= i <= 10,
            name_offset == 24,
            name_bytes == ACPI_FAMILY_NAME,
            message@.len() == 36,
            forall|k: int| 0 <= k < 24 ==> message@[k] == spec_family_query(order)[k],
            forall|k: int| 24 <= k < 24 + i ==> message@[k] == spec_family_query(order)[k],
            forall|k: int| 24 + i <= k < 36 ==> message@[k] == 0u8,
        decreases 10 - i,
    {
        message.set(name_offset + i, name_bytes[i]);
        i = i + 1;
    }
    assert(message@ =~= spec_family_query(order));
    message
}

/// The GETFAMILY request in the host's byte order.
pub fn build_family_query() -> (message: Vec<u8>)
    ensures
        message@ == spec_family_query(ByteOrder::Little) || message@ == spec_family_query(ByteOrder::Big),
{
    build_family_query_in(ByteOrder::host())
}

// --- Parsing -------------------------------------------------------------------

/// One netlink message inside a datagram: its type and its payload (the
/// bytes after the 16-byte header).
pub struct NetlinkMessage<'a> {
    pub message_type: u16,
    pub payload: &'a [u8],
}

/// The messages of a datagram from `offset` on. A message shorter than a
/// header, or running past the end of the datagram, ends the walk.
pub open spec fn spec_split_from(d: Seq<u8>, offset: int, o: ByteOrder) -> Seq<(u16, Seq<u8>)>
    decreases d.len() + 4 - offset,
{
    if offset < 0 || offset >= d.len() {
        seq![]
    } else {
        match spec_read_u32(d, offset, o) {
            None => seq![],
            Some(n) => if n < 16 {
                seq![]
            } else {
                match spec_read_u16(d, offset + 4, o) {
                    None => seq![],
                    Some(t) => if offset + n > d.len() {
                        seq![]
                    } else {
                        proof {
                            lemma_align4(n as int);
                        }
                        seq![(t, d.subrange(offset + 16, offset + n))] + spec_split_from(
                            d,
                            offset + spec_align4(n as int),
                            o,
                        )
                    },
                }
            },
        }
    }
}

pub open spec fn spec_split(d: Seq<u8>, o: ByteOrder) -> Seq<(u16, Seq<u8>)> {
    spec_split_from(d, 0, o)
}

pub open spec fn spec_messages_view(v: Seq<NetlinkMessage>) -> Seq<(u16, Seq<u8>)> {
    v.map_values(|m: NetlinkMessage| (m.message_type, m.payload@))
}

pub fn split_messages<'a>(datagram: &'a [u8], order: ByteOrder) -> (messages: Vec<NetlinkMessage<'a>>)
    ensures
        spec_messages_view(messages@) == spec_split(datagram@, order),
{
    let mut messages: Vec<NetlinkMessage<'a>> = Vec::new();
    let mut offset: usize = 0;
    let ghost d = datagram@;
    assert(spec_messages_view(messages@) =~= seq![]);

    while offset < datagram.len()
        invariant
            d == datagram@,
            spec_messages_view(messages@) + spec_split_from(d, offset as int, order) == spec_split(d, order),
        decreases d.len() - offset,
    {
        let ghost before = messages@;
        let message_bytes = match read_u32(datagram, offset, order) {
            Some(n) => n as usize,
            None => {
                assert(spec_messages_view(messages@) + seq![] =~= spec_messages_view(messages@));
                return messages;
            },
        };
        if message_bytes < NLMSG_HEADER_BYTES {
            assert(spec_messages_view(messages@) + seq![] =~= spec_messages_view(messages@));
            return messages;
        }
        let message_type = match read_u16(datagram, offset + 4, order) {
            Some(t) => t,
            None => {
                assert(spec_messages_view(messages@) + seq![] =~= spec_messages_view(messages@));
                return messages;
            },
        };
        if message_bytes > datagram.len() - offset {
            assert(spec_messages_view(messages@) + seq![] =~= spec_messages_view(messages@));
            return messages;
        }
        let payload = &datagram[offset + NLMSG_HEADER_BYTES..offset + message_bytes];
        messages.push(NetlinkMessage { message_type, payload });
        let ghost rest = spec_split_from(d, offset + spec_align4(message_bytes as int), order);
        proof {
            assert(spec_messages_view(messages@) =~= spec_messages_view(before).push(
                (message_type, d.subrange(offset + 16, offset + message_bytes)),
            ));
            assert(spec_split_from(d, offset as int, order) == seq![
                (message_type, d.subrange(offset + 16, offset + message_bytes)),
            ] + rest);
            assert(spec_messages_view(before) + spec_split_from(d, offset as int, order) =~= spec_messages_view(
                messages@,
            ) + rest);
        }
        if message_bytes > usize::MAX - 3 || align4(message_bytes) > datagram.len() - offset {
            assert(rest =~= seq![]);
            assert(spec_messages_view(messages@) + seq![] =~= spec_messages_view(messages@));
            return messages;
        }
        offset = offset + align4(message_bytes);
    }
    assert(spec_split_from(d, offset as int, order) =~= seq![]);
    assert(spec_messages_view(messages@) + seq![] =~= spec_messages_view(messages@));
    messages
}

/// The attributes of a flat run from `offset` on, as (type with the flag
/// bits masked off, payload). An attribute shorter than its header, or
/// running past the end, ends the walk.
pub open spec fn spec_walk_from(b: Seq<u8>, offset: int, o: ByteOrder) -> Seq<(u16, Seq<u8>)>
    decreases b.len() + 4 - offset,
{
    if offset < 0 || offset >= b.len() {
        seq![]
    } else {
        match spec_read_u16(b, offset, o) {
            None => seq![],
            Some(n) => if n < 4 {
                seq![]
            } else {
                match spec_read_u16(b, offset + 2, o) {
                    None => seq![],
                    Some(raw) => if offset + n > b.len() {
                        seq![]
                    } else {
                        proof {
                            lemma_align4(n as int);
                        }
                        seq![((raw % 16384) as u16, b.subrange(offset + 4, offset + n))] + spec_walk_from(
                            b,
                            offset + spec_align4(n as int),
                            o,
                        )
                    },
                }
            },
        }
    }
}

pub open spec fn spec_walk(b: Seq<u8>, o: ByteOrder) -> Seq<(u16, Seq<u8>)> {
    spec_walk_from(b, 0, o)
}

pub open spec fn spec_attrs_view(v: Seq<(u16, &[u8])>) -> Seq<(u16, Seq<u8>)> {
    v.map_values(|a: (u16, &[u8])| (a.0, a.1@))
}

/// Walk a flat run of netlink attributes, returning (type, payload) pairs.
/// Nested payloads are walked by calling this again on them.
pub fn walk_attributes<'a>(bytes: &'a [u8], order: ByteOrder) -> (attributes: Vec<(u16, &'a [u8])>)
    ensures
        spec_attrs_view(attributes@) == spec_walk(bytes@, order),
{
    let mut attributes: Vec<(u16, &'a [u8])> = Vec::new();
    let mut offset: usize = 0;
    let ghost b = bytes@;
    assert(spec_attrs_view(attributes@) =~= seq![]);

    while offset < bytes.len()
        invariant
            b == bytes@,
            spec_attrs_view(attributes@) + spec_walk_from(b, offset as int, order) == spec_walk(b, order),
        decreases b.len() - offset,
    {
        let ghost before = attributes@;
        let attr_bytes = match read_u16(bytes, offset, order) {
            Some(n) => n as usize,
            None => {
                assert(spec_attrs_view(attributes@) + seq![] =~= spec_attrs_view(attributes@));
                return attributes;
            },
        };
        if attr_bytes < ATTR_HEADER_BYTES {
            assert(spec_attrs_view(attributes@) + seq![] =~= spec_attrs_view(attributes@));
            return attributes;
        }
        let raw_type = match read_u16(bytes, offset + 2, order) {
            Some(t) => t,
            None => {
                assert(spec_attrs_view(attributes@) + seq![] =~= spec_attrs_view(attributes@));
                return attributes;
            },
        };
        if attr_bytes > bytes.len() - offset {
            assert(spec_attrs_view(attributes@) + seq![] =~= spec_attrs_view(attributes@));
            return attributes;
        }
        let payload = &bytes[offset + ATTR_HEADER_BYTES..offset + attr_bytes];
        let masked = raw_type & NLA_TYPE_MASK;
        assert(raw_type & 0x3fff == raw_type % 16384) by (bit_vector);
        attributes.push((masked, payload));
        let ghost rest = spec_walk_from(b, offset + spec_align4(attr_bytes as int), order);
        proof {
            assert(spec_attrs_view(attributes@) =~= spec_attrs_view(before).push(
                ((raw_type % 16384) as u16, b.subrange(offset + 4, offset + attr_bytes)),
            ));
            assert(spec_walk_from(b, offset as int, order) == seq![
                ((raw_type % 16384) as u16, b.subrange(offset + 4, offset + attr_bytes)),
            ] + rest);
            assert(spec_attrs_view(before) + spec_walk_from(b, offset as int, order) =~= spec_attrs_view(
                attributes@,
            ) + rest);
        }
        if align4(attr_bytes) > bytes.len() - offset {
            assert(rest =~= seq![]);
            assert(spec_attrs_view(attributes@) + seq![] =~= spec_attrs_view(attributes@));
            return attributes;
        }
        offset = offset + align4(attr_bytes);
    }
    assert(spec_walk_from(b, offset as int, order) =~= seq![]);
    assert(spec_attrs_view(attributes@) + seq![] =~= spec_attrs_view(attributes@));
    attributes
}

/// The family id and multicast group id the GETFAMILY answer gives.
#[derive(Clone, Copy, Debug, PartialEq, Eq, Structural)]
pub struct AcpiFamily {
    pub family_id: u16,
    pub multicast_group_id: u32,
}

/// The FAMILY_ID of a run of control attributes: the last one present
/// decides, and a short one reads as none.
pub open spec fn spec_family_id(attrs: Seq<(u16, Seq<u8>)>, o: ByteOrder) -> Option<u16>
    decreases attrs.len(),
{
    if attrs.len() == 0 {
        None
    } else if attrs.last().0 == CTRL_ATTR_FAMILY_ID {
        spec_read_u16(attrs.last().1, 0, o)
    } else {
        spec_family_id(attrs.drop_last(), o)
    }
}

/// Whether a multicast group entry's name is `acpi_mc_group`: its last
/// NAME attribute decides.
pub open spec fn spec_entry_name_matches(entry: Seq<(u16, Seq<u8>)>) -> bool
    decreases entry.len(),
{
    if entry.len() == 0 {
        false
    } else if entry.last().0 == CTRL_ATTR_MCAST_GRP_NAME {
        spec_nul_terminated(entry.last().1) == ACPI_MCAST_GROUP_NAME@
    } else {
        spec_entry_name_matches(entry.drop_last())
    }
}

/// A multicast group entry's id: its last ID attribute decides.
pub open spec fn spec_entry_id(entry: Seq<(u16, Seq<u8>)>, o: ByteOrder) -> Option<u32>
    decreases entry.len(),
{
    if entry.len() == 0 {
        None
    } else if entry.last().0 == CTRL_ATTR_MCAST_GRP_ID {
        spec_read_u32(entry.last().1, 0, o)
    } else {
        spec_entry_id(entry.drop_last(), o)
    }
}

/// The group id after a run of group entries, starting from `acc`: each
/// entry named `acpi_mc_group` replaces it with that entry's id.
pub open spec fn spec_groups_fold(entries: Seq<(u16, Seq<u8>)>, acc: Option<u32>, o: ByteOrder) -> Option<u32>
    decreases entries.len(),
{
    if entries.len() == 0 {
        acc
    } else {
        let prev = spec_groups_fold(entries.drop_last(), acc, o);
        let entry = spec_walk(entries.last().1, o);
        if spec_entry_name_matches(entry) {
            spec_entry_id(entry, o)
        } else {
            prev
        }
    }
}

/// The group id after a run of control attributes: every MCAST_GROUPS
/// attribute's entries are folded in, in order.
pub open spec fn spec_group_id(attrs: Seq<(u16, Seq<u8>)>, o: ByteOrder) -> Option<u32>
    decreases attrs.len(),
{
    if attrs.len() == 0 {
        None
    } else {
        let prev = spec_group_id(attrs.drop_last(), o);
        if attrs.last().0 == CTRL_ATTR_MCAST_GROUPS {
            spec_groups_fold(spec_walk(attrs.last().1, o), prev, o)
        } else {
            prev
        }
    }
}

/// The family the GETFAMILY answer names, from message `i` on: an error
/// message ends the search with nothing; a control message whose payload
/// is shorter than the generic header also ends it; a control message with
/// both ids gives them; anything else is passed over.
pub open spec fn spec_family_from(msgs: Seq<(u16, Seq<u8>)>, i: int, o: ByteOrder) -> Option<AcpiFamily>
    decreases msgs.len() - i,
{
    if i < 0 || i >= msgs.len() {
        None
    } else if msgs[i].0 == NLMSG_ERROR {
        None
    } else if msgs[i].0 != GENL_ID_CTRL {
        spec_family_from(msgs, i + 1, o)
    } else if msgs[i].1.len() < 4 {
        None
    } else {
        let attrs = spec_walk(msgs[i].1.subrange(4, msgs[i].1.len() as int), o);
        match (spec_family_id(attrs, o), spec_group_id(attrs, o)) {
            (Some(family_id), Some(multicast_group_id)) => Some(AcpiFamily { family_id, multicast_group_id }),
            _ => spec_family_from(msgs, i + 1, o),
        }
    }
}

pub open spec fn spec_parse_family_reply(d: Seq<u8>, o: ByteOrder) -> Option<AcpiFamily> {
    spec_family_from(spec_split(d, o), 0, o)
}

fn family_id_of(attrs: &Vec<(u16, &[u8])>, order: ByteOrder) -> (r: Option<u16>)
    ensures
        r == spec_family_id(spec_attrs_view(attrs@), order),
{
    let mut family_id: Option<u16> = None;
    let mut i: usize = 0;
    let ghost all = spec_attrs_view(attrs@);
    while i < attrs.len()
        invariant
            0 <= i <= attrs@.len(),
            all == spec_attrs_view(attrs@),
            family_id == spec_family_id(all.take(i as int), order),
        decreases attrs@.len() - i,
    {
        proof {
            assert(all.take(i as int + 1).drop_last() =~= all.take(i as int));
        }
        let (attr_type, attr_payload) = attrs[i];
        if attr_type == CTRL_ATTR_FAMILY_ID {
            family_id = read_u16(attr_payload, 0, order);
        }
        i = i + 1;
    }
    assert(all.take(attrs@.len() as int) =~= all);
    family_id
}

fn entry_name_matches(entry: &Vec<(u16, &[u8])>) -> (r: bool)
    ensures
        r == spec_entry_name_matches(spec_attrs_view(entry@)),
{
    let mut name_matches = false;
    let mut i: usize = 0;
    let ghost all = spec_attrs_view(entry@);
    let expected = ACPI_MCAST_GROUP_NAME;
    while i < entry.len()
        invariant
            0 <= i <= entry@.len(),
            all == spec_attrs_view(entry@),
            expected == ACPI_MCAST_GROUP_NAME,
            name_matches == spec_entry_name_matches(all.take(i as int)),
        decreases entry@.len() - i,
    {
        proof {
            assert(all.take(i as int + 1).drop_last() =~= all.take(i as int));
        }
        let (attr_type, attr_payload) = entry[i];
        if attr_type == CTRL_ATTR_MCAST_GRP_NAME {
            name_matches = nul_terminated_matches(attr_payload, &expected);
        }
        i = i + 1;
    }
    assert(all.take(entry@.len() as int) =~= all);
    name_matches
}

fn entry_id(entry: &Vec<(u16, &[u8])>, order: ByteOrder) -> (r: Option<u32>)
    ensures
        r == spec_entry_id(spec_attrs_view(entry@), order),
{
    let mut candidate: Option<u32> = None;
    let mut i: usize = 0;
    let ghost all = spec_attrs_view(entry@);
    while i < entry.len()
        invariant
            0 <= i <= entry@.len(),
            all == spec_attrs_view(entry@),
            candidate == spec_entry_id(all.take(i as int), order),
        decreases entry@.len() - i,
    {
        proof {
            assert(all.take(i as int + 1).drop_last() =~= all.take(i as int));
        }
        let (attr_type, attr_payload) = entry[i];
        if attr_type == CTRL_ATTR_MCAST_GRP_ID {
            candidate = read_u32(attr_payload, 0, order);
        }
        i = i + 1;
    }
    assert(all.take(entry@.len() as int) =~= all);
    candidate
}

fn group_id_of(attrs: &Vec<(u16, &[u8])>, order: ByteOrder) -> (r: Option<u32>)
    ensures
        r == spec_group_id(spec_attrs_view(attrs@), order),
{
    let mut multicast_group_id: Option<u32> = None;
    let mut i: usize = 0;
    let ghost all = spec_attrs_view(attrs@);
    while i < attrs.len()
        invariant
            0 <= i <= attrs@.len(),
            all == spec_attrs_view(attrs@),
            multicast_group_id == spec_group_id(all.take(i as int), order),
        decreases attrs@.len() - i,
    {
        proof {
            assert(all.take(i as int + 1).drop_last() =~= all.take(i as int));
        }
        let (attr_type, attr_payload) = attrs[i];
        if attr_type == CTRL_ATTR_MCAST_GROUPS {
            // Each entry is one group: a nested attribute whose payload
            // holds NAME and ID attributes.
            let groups = walk_attributes(attr_payload, order);
            let ghost entries = spec_attrs_view(groups@);
            let ghost start = multicast_group_id;
            let mut j: usize = 0;
            while j < groups.len()
                invariant
                    0 <= j <= groups@.len(),
                    entries == spec_attrs_view(groups@),
                    multicast_group_id == spec_groups_fold(entries.take(j as int), start, order),
                decreases groups@.len() - j,
            {
                proof {
                    assert(entries.take(j as int + 1).drop_last() =~= entries.take(j as int));
                }
                let (_group_index, group_payload) = groups[j];
                let entry = walk_attributes(group_payload, order);
                let name_matches = entry_name_matches(&entry);
                let candidate_id = entry_id(&entry, order);
                if name_matches {
                    multicast_group_id = candidate_id;
                }
                j = j + 1;
            }
            assert(entries.take(groups@.len() as int) =~= entries);
        }
        i = i + 1;
    }
    assert(all.take(attrs@.len() as int) =~= all);
    multicast_group_id
}

/// The `acpi_event` family and multicast group a GETFAMILY answer names.
pub fn parse_family_reply_in(datagram: &[u8], order: ByteOrder) -> (r: Option<AcpiFamily>)
    ensures
        r == spec_parse_family_reply(datagram@, order),
{
    let messages = split_messages(datagram, order);
    let ghost msgs = spec_messages_view(messages@);
    let mut i: usize = 0;
    while i < messages.len()
        invariant
            0 <= i <= messages@.len(),
            msgs == spec_messages_view(messages@),
            msgs == spec_split(datagram@, order),
            spec_family_from(msgs, 0, order) == spec_family_from(msgs, i as int, order),
        decreases messages@.len() - i,
    {
        let message = &messages[i];
        if message.message_type == NLMSG_ERROR {
            return None;
        }
        if message.message_type != GENL_ID_CTRL {
            i = i + 1;
            continue;
        }
        if message.payload.len() < GENL_HEADER_BYTES {
            return None;
        }
        let attr_bytes = &message.payload[GENL_HEADER_BYTES..message.payload.len()];
        let attrs = walk_attributes(attr_bytes, order);
        let family_id = family_id_of(&attrs, order);
        let multicast_group_id = group_id_of(&attrs, order);
        match (family_id, multicast_group_id) {
            (Some(family_id), Some(multicast_group_id)) => {
                return Some(AcpiFamily { family_id, multicast_group_id });
            },
            _ => {},
        }
        i = i + 1;
    }
    None
}

/// The `acpi_event` family a GETFAMILY answer names, in the host's order.
pub fn parse_family_reply(datagram: &[u8]) -> (r: Option<AcpiFamily>)
    ensures
        r == spec_parse_family_reply(datagram@, ByteOrder::Little) || r == spec_parse_family_reply(
            datagram@,
            ByteOrder::Big,
        ),
{
    parse_family_reply_in(datagram, ByteOrder::host())
}

/// One `acpi_genl_event` lifted out of a datagram; the string fields are
/// trimmed at their first nul.
pub struct AcpiEvent<'a> {
    pub device_class: &'a [u8],
    pub bus_id: &'a [u8],
    pub event_type: u32,
}

pub struct AcpiEventView {
    pub device_class: Seq<u8>,
    pub bus_id: Seq<u8>,
    pub event_type: u32,
}

pub open spec fn spec_events_view(v: Seq<AcpiEvent>) -> Seq<AcpiEventView> {
    v.map_values(|e: AcpiEvent| AcpiEventView { device_class: e.device_class@, bus_id: e.bus_id@, event_type: e.event_type })
}

/// The events of a run of attributes: each EVENT attribute long enough to
/// hold the class, the bus id and the type is one event; others are
/// skipped.
pub open spec fn spec_attr_events(attrs: Seq<(u16, Seq<u8>)>, o: ByteOrder) -> Seq<AcpiEventView>
    decreases attrs.len(),
{
    if attrs.len() == 0 {
        seq![]
    } else {
        let prev = spec_attr_events(attrs.drop_last(), o);
        let (t, p) = attrs.last();
        if t == ACPI_GENL_ATTR_EVENT && p.len() >= 40 {
            prev.push(
                AcpiEventView {
                    device_class: spec_nul_terminated(p.subrange(0, 20)),
                    bus_id: spec_nul_terminated(p.subrange(20, 35)),
                    event_type: spec_read_u32(p, 36, o)->0,
                },
            )
        } else {
            prev
        }
    }
}

/// The events one message carries: messages of another family, of another
/// command, or too short for the generic header carry none.
pub open spec fn spec_message_events(m: (u16, Seq<u8>), family_id: u16, o: ByteOrder) -> Seq<AcpiEventView> {
    if m.0 != family_id || m.1.len() < 4 || m.1[0] != ACPI_GENL_CMD_EVENT {
        seq![]
    } else {
        spec_attr_events(spec_walk(m.1.subrange(4, m.1.len() as int), o), o)
    }
}

pub open spec fn spec_messages_events(msgs: Seq<(u16, Seq<u8>)>, family_id: u16, o: ByteOrder) -> Seq<AcpiEventView>
    decreases msgs.len(),
{
    if msgs.len() == 0 {
        seq![]
    } else {
        spec_messages_events(msgs.drop_last(), family_id, o) + spec_message_events(msgs.last(), family_id, o)
    }
}

/// Every ACPI event one datagram of the family carries.
pub open spec fn spec_acpi_events(d: Seq<u8>, family_id: u16, o: ByteOrder) -> Seq<AcpiEventView> {
    spec_messages_events(spec_split(d, o), family_id, o)
}

/// Every ACPI event carried by one datagram of the `acpi_event` family.
/// Malformed or truncated messages are skipped.
pub fn parse_acpi_events<'a>(datagram: &'a [u8], family_id: u16, order: ByteOrder) -> (events: Vec<AcpiEvent<'a>>)
    ensures
        spec_events_view(events@) == spec_acpi_events(datagram@, family_id, order),
{
    let mut events: Vec<AcpiEvent<'a>> = Vec::new();
    let messages = split_messages(datagram, order);
    let ghost msgs = spec_messages_view(messages@);
    let mut i: usize = 0;
    assert(spec_events_view(events@) =~= seq![]);
    while i < messages.len()
        invariant
            0 <= i <= messages@.len(),
            msgs == spec_messages_view(messages@),
            spec_events_view(events@) == spec_messages_events(msgs.take(i as int), family_id, order),
        decreases messages@.len() - i,
    {
        proof {
            assert(msgs.take(i as int + 1).drop_last() =~= msgs.take(i as int));
        }
        let ghost before = spec_events_view(events@);
        let message = &messages[i];
        let ghost m = msgs[i as int];
        if message.message_type == family_id && message.payload.len() >= GENL_HEADER_BYTES
            && message.payload[0] == ACPI_GENL_CMD_EVENT {
            let attr_bytes = &message.payload[GENL_HEADER_BYTES..message.payload.len()];
            let attrs = walk_attributes(attr_bytes, order);
            let ghost all = spec_attrs_view(attrs@);
            let mut j: usize = 0;
            assert(spec_attr_events(all.take(0), order) =~= seq![]);
            assert(before + seq![] =~= before);
            while j < attrs.len()
                invariant
                    0 <= j <= attrs@.len(),
                    all == spec_attrs_view(attrs@),
                    spec_events_view(events@) == before + spec_attr_events(all.take(j as int), order),
                decreases attrs@.len() - j,
            {
                proof {
                    assert(all.take(j as int + 1).drop_last() =~= all.take(j as int));
                }
                let (attr_type, attr_payload) = attrs[j];
                if attr_type == ACPI_GENL_ATTR_EVENT && attr_payload.len() >= 40 {
                    let device_class = &attr_payload[0..DEVICE_CLASS_BYTES];
                    let bus_id = &attr_payload[DEVICE_CLASS_BYTES..DEVICE_CLASS_BYTES + BUS_ID_BYTES];
                    let event_type = match read_u32(attr_payload, EVENT_TYPE_OFFSET, order) {
                        Some(t) => t,
                        None => 0,
                    };
                    let ghost events_before = events@;
                    events.push(
                        AcpiEvent {
                            device_class: nul_terminated_str(device_class),
                            bus_id: nul_terminated_str(bus_id),
                            event_type,
                        },
                    );
                    assert(spec_events_view(events@) =~= spec_events_view(events_before).push(
                        spec_events_view(events@).last(),
                    ));
                }
                j = j + 1;
            }
            assert(all.take(attrs@.len() as int) =~= all);
        } else {
            assert(spec_message_events(m, family_id, order) =~= seq![]);
        }
        i = i + 1;
    }
    assert(msgs.take(messages@.len() as int) =~= msgs);
    events
}

pub open spec fn spec_starts_with_bytes(s: Seq<u8>, prefix: Seq<u8>) -> bool {
    prefix.len() <= s.len() && s.subrange(0, prefix.len() as int) == prefix
}

/// True for the GameZone light-profile-change notification: device class
/// `"wmi"`, the Lenovo WMI mapper device, and one of the two encodings.
pub open spec fn spec_is_light_profile_event(e: AcpiEventView) -> bool {
    &&& e.device_class == WMI_DEVICE_CLASS@
    &&& spec_starts_with_bytes(e.bus_id, WMI_BUS_ID_PREFIX@)
    &&& (e.event_type == 0xE6 || e.event_type == 0xE600)
}

pub fn is_light_profile_event(event: &AcpiEvent) -> (r: bool)
    ensures
        r == spec_is_light_profile_event(
            AcpiEventView { device_class: event.device_class@, bus_id: event.bus_id@, event_type: event.event_type },
        ),
{
    let wmi = WMI_DEVICE_CLASS;
    if !bytes_equal(event.device_class, &wmi) {
        return false;
    }
    let prefix = WMI_BUS_ID_PREFIX;
    if event.bus_id.len() < 7 {
        return false;
    }
    let head = &event.bus_id[0..7];
    if !bytes_equal(head, &prefix) {
        return false;
    }
    event.event_type == LIGHT_PROFILE_EVENT_TYPES[0] || event.event_type == LIGHT_PROFILE_EVENT_TYPES[1]
}

/// Whether a datagram carries at least one Fn+Space event.
pub open spec fn spec_datagram_has_light_profile_event(d: Seq<u8>, family_id: u16, o: ByteOrder) -> bool {
    exists|i: int|
        0 <= i < spec_acpi_events(d, family_id, o).len() && spec_is_light_profile_event(
            #[trigger] spec_acpi_events(d, family_id, o)[i],
        )
}

/// Whether a datagram of the `acpi_event` family carries a Fn+Space press.
/// Every event is inspected; one match is enough.
pub fn datagram_has_light_profile_event(datagram: &[u8], family_id: u16, order: ByteOrder) -> (r: bool)
    ensures
        r == spec_datagram_has_light_profile_event(datagram@, family_id, order),
{
    let events = parse_acpi_events(datagram, family_id, order);
    let ghost all = spec_acpi_events(datagram@, family_id, order);
    let mut i: usize = 0;
    while i < events.len()
        invariant
            0 <= i <= events@.len(),
            all == spec_acpi_events(datagram@, family_id, order),
            all == spec_events_view(events@),
            all.len() == events@.len(),
            forall|k: int| 0 <= k < i ==> !spec_is_light_profile_event(#[trigger] all[k]),
        decreases events@.len() - i,
    {
        if is_light_profile_event(&events[i]) {
            assert(all[i as int] == spec_events_view(events@)[i as int]);
            assert(spec_is_light_profile_event(spec_acpi_events(datagram@, family_id, order)[i as int]));
            return true;
        }
        i = i + 1;
    }
    assert(!spec_datagram_has_light_profile_event(datagram@, family_id, order)) by {
        assert forall|k: int| 0 <= k < all.len() implies !spec_is_light_profile_event(
            #[trigger] spec_acpi_events(datagram@, family_id, order)[k],
        ) by {
            assert(!spec_is_light_profile_event(all[k]));
        }
    }
    false
}

/// What a failed read on the event socket calls for.
#[derive(Clone, Copy, Debug, PartialEq, Eq, Structural)]
pub enum RecvFailure {
    /// A signal interrupted the read; nothing was lost.
    ReadAgain,
    /// The kernel dropped datagrams: report the slot sync degraded (once)
    /// and keep reading.
    ReportDropped,
    /// Dropped datagrams again, already reported: keep reading.
    KeepReading,
    /// Anything else: the socket needs replacing.
    Reopen,
}

/// Classify a read failure: an interruption is retried, dropped datagrams
/// are reported once and read past, anything else replaces the socket.
pub fn classify_recv_failure(interrupted: bool, dropped_datagrams: bool, already_reported: bool) -> (r: RecvFailure)
    ensures
        interrupted ==> r == RecvFailure::ReadAgain,
        !interrupted && dropped_datagrams && !already_reported ==> r == RecvFailure::ReportDropped,
        !interrupted && dropped_datagrams && already_reported ==> r == RecvFailure::KeepReading,
        !interrupted && !dropped_datagrams ==> r == RecvFailure::Reopen,
{
    if interrupted {
        RecvFailure::ReadAgain
    } else if dropped_datagrams {
        if already_reported {
            RecvFailure::KeepReading
        } else {
            RecvFailure::ReportDropped
        }
    } else {
        RecvFailure::Reopen
    }
}

/// How long to wait before reopen attempt `attempt` (counted from 1), or
/// `None` once the attempts are used up and the subsystem is given up on.
pub open spec fn spec_reopen_delay_ms(attempt: u32) -> Option<u64> {
    if attempt > MAX_REOPEN_ATTEMPTS || attempt == 0 {
        None
    } else if attempt == 1 {
        Some(500u64)
    } else if attempt == 2 {
        Some(2000u64)
    } else {
        Some(5000u64)
    }
}

pub fn reopen_delay_ms(attempt: u32) -> (r: Option<u64>)
    ensures
        r == spec_reopen_delay_ms(attempt),
{
    if attempt > MAX_REOPEN_ATTEMPTS || attempt == 0 {
        return None;
    }
    let index: usize = if (attempt - 1) as usize > 2 { 2 } else { (attempt - 1) as usize };
    Some(REOPEN_BACKOFF_MS[index])
}

/// What the listener does after its socket failed for reopen attempt
/// `attempt` (counted from 1).
pub enum ReopenDecision {
    /// Wait this many milliseconds, report the state, and reopen.
    Retry { delay_ms: u64, state: crate::ipc::SubsystemState },
    /// Out of attempts: report the state and stop listening.
    GiveUp { state: crate::ipc::SubsystemState },
}

/// The state reported while reconnecting after the socket failed with
/// `message`.
pub open spec fn spec_reconnecting(message: Seq<char>) -> crate::ipc::SubsystemStateView {
    crate::ipc::SubsystemStateView::Degraded { reason: "reconnecting to the ACPI event socket ("@ + message + ")"@ }
}

/// The state reported once the reopen attempts are used up.
pub open spec fn spec_kept_failing(message: Seq<char>) -> crate::ipc::SubsystemStateView {
    crate::ipc::SubsystemStateView::Unavailable {
        reason: "netlink socket kept failing ("@ + message + ") after "@ + crate::text::spec_decimal(
            MAX_REOPEN_ATTEMPTS as nat,
        ) + " attempts"@,
    }
}

/// Decide how to go on after the socket failed with `message` on reopen
/// attempt `attempt`: within the budget, wait and retry while reporting the
/// slot sync degraded; past it, report it unavailable and stop.
pub fn after_socket_failure(attempt: u32, message: &str) -> (d: ReopenDecision)
    ensures
        match spec_reopen_delay_ms(attempt) {
            Some(delay) => d matches ReopenDecision::Retry { delay_ms, state } && delay_ms == delay && state@
                == spec_reconnecting(message@),
            None => d matches ReopenDecision::GiveUp { state } && state@ == spec_kept_failing(message@),
        },
{
    match reopen_delay_ms(attempt) {
        Some(delay_ms) => {
            let mut reason = crate::text::owned("reconnecting to the ACPI event socket (");
            crate::text::push_str(&mut reason, message);
            crate::text::push_str(&mut reason, ")");
            ReopenDecision::Retry { delay_ms, state: crate::ipc::SubsystemState::Degraded { reason } }
        },
        None => {
            let mut reason = crate::text::owned("netlink socket kept failing (");
            crate::text::push_str(&mut reason, message);
            crate::text::push_str(&mut reason, ") after ");
            crate::text::push_decimal(&mut reason, MAX_REOPEN_ATTEMPTS as u64);
            crate::text::push_str(&mut reason, " attempts");
            ReopenDecision::GiveUp { state: crate::ipc::SubsystemState::Unavailable { reason } }
        },
    }
}

/// The state reported when the kernel dropped events: the slot count may
/// now be wrong.
pub fn dropped_events_state() -> (s: crate::ipc::SubsystemState)
    ensures
        s@ == (crate::ipc::SubsystemStateView::Degraded {
            reason: "the kernel dropped Fn+Space events, so the active slot may be out of step"@,
        }),
{
    crate::ipc::SubsystemState::Degraded {
        reason: crate::text::owned("the kernel dropped Fn+Space events, so the active slot may be out of step"),
    }
}

/// The reason the listener gives up when the `acpi_event` family is not
/// found in the kernel's answer.
pub fn family_missing_reason() -> (r: String)
    ensures
        r@ == "netlink family 'acpi_event' not found"@,
{
    crate::text::owned("netlink family 'acpi_event' not found")
}

} // verus!
