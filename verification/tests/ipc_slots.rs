use aurora::ipc::{SlotSelection, LIT_SLOTS};

#[test]
fn slot_selection_cycles_three_lit_then_off() {
    let mut slot = SlotSelection::First;
    let expected = [SlotSelection::Second, SlotSelection::Third, SlotSelection::Off, SlotSelection::First];

    for expected_slot in expected {
        slot = slot.next();
        assert_eq!(slot, expected_slot);
    }
}

#[test]
fn slot_selection_maps_settled_counter_values_only() {
    assert_eq!(SlotSelection::from_counter(1), Some(SlotSelection::First));
    assert_eq!(SlotSelection::from_counter(3), Some(SlotSelection::Third));
    assert_eq!(SlotSelection::from_counter(4), Some(SlotSelection::Off));

    assert_eq!(SlotSelection::from_counter(0), None);
    assert_eq!(SlotSelection::from_counter(5), None);
    assert_eq!(SlotSelection::from_counter(255), None);
}

#[test]
fn slot_index_and_number_agree_with_lit_slots() {
    for (position, slot) in LIT_SLOTS.iter().enumerate() {
        assert_eq!(slot.index(), Some(position));
        assert_eq!(slot.number(), Some(position as u8 + 1));
    }

    assert_eq!(SlotSelection::Off.index(), None);
    assert_eq!(SlotSelection::Off.number(), None);
}

#[test]
fn socket_path_uses_runtime_dir() {
    let path = aurora::ipc::socket_path_for(Some("/run/user/1000".to_string()));
    let file_name = path.rsplit('/').next().unwrap_or("");
    assert_eq!(file_name, aurora::ipc::SOCKET_FILE_NAME);
    assert!(path.starts_with("/run/user/1000/"));
}
