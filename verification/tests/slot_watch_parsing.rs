use aurora::netlink::{
    build_family_query, is_light_profile_event, parse_acpi_events, parse_family_reply, read_u16_ne, read_u32_ne,
    ByteOrder, ACPI_FAMILY_NAME, ACPI_GENL_ATTR_EVENT, ACPI_GENL_CMD_EVENT, ATTR_HEADER_BYTES, BUS_ID_BYTES,
    CTRL_ATTR_FAMILY_ID, CTRL_ATTR_FAMILY_NAME, CTRL_ATTR_MCAST_GROUPS, CTRL_ATTR_MCAST_GRP_ID,
    CTRL_ATTR_MCAST_GRP_NAME, CTRL_CMD_GETFAMILY, DEVICE_CLASS_BYTES, EVENT_TYPE_OFFSET, GENL_HEADER_BYTES,
    GENL_ID_CTRL, NLMSG_HEADER_BYTES, NLM_F_REQUEST,
};

fn push_u16(bytes: &mut Vec<u8>, value: u16) {
    bytes.extend_from_slice(&value.to_ne_bytes());
}

fn push_u32(bytes: &mut Vec<u8>, value: u32) {
    bytes.extend_from_slice(&value.to_ne_bytes());
}

fn push_attribute(bytes: &mut Vec<u8>, attr_type: u16, payload: &[u8]) {
    let attr_bytes = ATTR_HEADER_BYTES + payload.len();
    push_u16(bytes, attr_bytes as u16);
    push_u16(bytes, attr_type);
    bytes.extend_from_slice(payload);
    while bytes.len() % 4 != 0 {
        bytes.push(0);
    }
}

fn wrap_in_message(message_type: u16, genl_command: u8, attr_bytes: &[u8]) -> Vec<u8> {
    let message_bytes = NLMSG_HEADER_BYTES + GENL_HEADER_BYTES + attr_bytes.len();
    let mut message: Vec<u8> = Vec::new();
    push_u32(&mut message, message_bytes as u32);
    push_u16(&mut message, message_type);
    push_u16(&mut message, 0);
    push_u32(&mut message, 7);
    push_u32(&mut message, 0);
    message.push(genl_command);
    message.push(1);
    push_u16(&mut message, 0);
    message.extend_from_slice(attr_bytes);
    message
}

fn datagram_matches(datagram: &[u8], family_id: u16) -> bool {
    let events = parse_acpi_events(datagram, family_id, ByteOrder::host());
    for event in &events {
        if is_light_profile_event(event) {
            return true;
        }
    }
    false
}

fn sample_acpi_event(device_class: &str, bus_id: &str, event_type: u32) -> Vec<u8> {
    let mut event = vec![0u8; DEVICE_CLASS_BYTES + BUS_ID_BYTES + 1 + 8];
    event[..device_class.len()].copy_from_slice(device_class.as_bytes());
    event[DEVICE_CLASS_BYTES..DEVICE_CLASS_BYTES + bus_id.len()].copy_from_slice(bus_id.as_bytes());
    event[EVENT_TYPE_OFFSET..EVENT_TYPE_OFFSET + 4].copy_from_slice(&event_type.to_ne_bytes());
    event
}

#[test]
fn family_query_has_expected_layout() {
    let query = build_family_query();

    assert_eq!(query.len(), 36);
    assert_eq!(read_u32_ne(&query, 0), Some(36));
    assert_eq!(read_u16_ne(&query, 4), Some(GENL_ID_CTRL));
    assert_eq!(read_u16_ne(&query, 6), Some(NLM_F_REQUEST));
    assert_eq!(query[16], CTRL_CMD_GETFAMILY);
    assert_eq!(read_u16_ne(&query, 22), Some(CTRL_ATTR_FAMILY_NAME));
    assert_eq!(&query[24..34], &ACPI_FAMILY_NAME[..]);
    assert_eq!(query[34], 0);
}

#[test]
fn family_reply_parses_id_and_group() {
    let mut group_entry: Vec<u8> = Vec::new();
    push_attribute(&mut group_entry, CTRL_ATTR_MCAST_GRP_NAME, b"acpi_mc_group\0");
    let mut group_id_payload: Vec<u8> = Vec::new();
    push_u32(&mut group_id_payload, 9);
    push_attribute(&mut group_entry, CTRL_ATTR_MCAST_GRP_ID, &group_id_payload);

    let mut groups: Vec<u8> = Vec::new();
    push_attribute(&mut groups, 1, &group_entry);

    let mut attrs: Vec<u8> = Vec::new();
    let mut family_id_payload: Vec<u8> = Vec::new();
    push_u16(&mut family_id_payload, 24);
    push_attribute(&mut attrs, CTRL_ATTR_FAMILY_ID, &family_id_payload);
    push_attribute(&mut attrs, CTRL_ATTR_MCAST_GROUPS, &groups);

    let datagram = wrap_in_message(GENL_ID_CTRL, 1, &attrs);

    let family = parse_family_reply(&datagram).expect("family reply should parse");
    assert_eq!(family.family_id, 24);
    assert_eq!(family.multicast_group_id, 9);
}

#[test]
fn family_reply_without_group_is_rejected() {
    let mut attrs: Vec<u8> = Vec::new();
    let mut family_id_payload: Vec<u8> = Vec::new();
    push_u16(&mut family_id_payload, 24);
    push_attribute(&mut attrs, CTRL_ATTR_FAMILY_ID, &family_id_payload);

    let datagram = wrap_in_message(GENL_ID_CTRL, 1, &attrs);
    assert!(parse_family_reply(&datagram).is_none());
}

#[test]
fn light_profile_event_is_recognized_in_both_encodings() {
    let mut raw_attrs: Vec<u8> = Vec::new();
    push_attribute(&mut raw_attrs, ACPI_GENL_ATTR_EVENT, &sample_acpi_event("wmi", "PNP0C14:02", 0xE6));
    let raw_datagram = wrap_in_message(24, ACPI_GENL_CMD_EVENT, &raw_attrs);
    assert!(datagram_matches(&raw_datagram, 24));

    let mut packed_attrs: Vec<u8> = Vec::new();
    push_attribute(&mut packed_attrs, ACPI_GENL_ATTR_EVENT, &sample_acpi_event("wmi", "PNP0C14:01", 0xE600));
    let packed_datagram = wrap_in_message(24, ACPI_GENL_CMD_EVENT, &packed_attrs);
    assert!(datagram_matches(&packed_datagram, 24));
}

#[test]
fn other_events_are_ignored() {
    let mut battery_attrs: Vec<u8> = Vec::new();
    push_attribute(&mut battery_attrs, ACPI_GENL_ATTR_EVENT, &sample_acpi_event("battery", "PNP0C0A:00", 0xE6));
    let battery_datagram = wrap_in_message(24, ACPI_GENL_CMD_EVENT, &battery_attrs);
    assert!(!datagram_matches(&battery_datagram, 24));

    let mut other_wmi_attrs: Vec<u8> = Vec::new();
    push_attribute(&mut other_wmi_attrs, ACPI_GENL_ATTR_EVENT, &sample_acpi_event("wmi", "OTHER123:00", 0xE6));
    let other_wmi_datagram = wrap_in_message(24, ACPI_GENL_CMD_EVENT, &other_wmi_attrs);
    assert!(!datagram_matches(&other_wmi_datagram, 24));

    let mut companion_attrs: Vec<u8> = Vec::new();
    push_attribute(&mut companion_attrs, ACPI_GENL_ATTR_EVENT, &sample_acpi_event("wmi", "PNP0C14:02", 0xE8));
    let companion_datagram = wrap_in_message(24, ACPI_GENL_CMD_EVENT, &companion_attrs);
    assert!(!datagram_matches(&companion_datagram, 24));

    let mut thermal_attrs: Vec<u8> = Vec::new();
    push_attribute(&mut thermal_attrs, ACPI_GENL_ATTR_EVENT, &sample_acpi_event("wmi", "PNP0C14:01", 0xD000));
    let thermal_datagram = wrap_in_message(24, ACPI_GENL_CMD_EVENT, &thermal_attrs);
    assert!(!datagram_matches(&thermal_datagram, 24));

    let mut wmi_attrs: Vec<u8> = Vec::new();
    push_attribute(&mut wmi_attrs, ACPI_GENL_ATTR_EVENT, &sample_acpi_event("wmi", "PNP0C14:01", 0xE6));
    let wrong_family_datagram = wrap_in_message(30, ACPI_GENL_CMD_EVENT, &wmi_attrs);
    assert!(!datagram_matches(&wrong_family_datagram, 24));
}

#[test]
fn truncated_datagrams_do_not_panic() {
    let mut attrs: Vec<u8> = Vec::new();
    push_attribute(&mut attrs, ACPI_GENL_ATTR_EVENT, &sample_acpi_event("wmi", "PNP0C14:01", 0xE6));
    let datagram = wrap_in_message(24, ACPI_GENL_CMD_EVENT, &attrs);

    for cut in 0..datagram.len() {
        let truncated = &datagram[..cut];
        let _ = datagram_matches(truncated, 24);
        let _ = parse_family_reply(truncated);
    }
}
