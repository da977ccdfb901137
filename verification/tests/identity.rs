use gvm_led::identity::{resolve_mac, session_display_name, MacAddress};

#[test]
fn mac_from_prefix_and_suffix() {
    let entries = vec![(0x3412u16, vec![0x56, 0x78, 0x9a, 0xbc])];
    let mac = resolve_mac(&entries).expect("entry with four-byte suffix");
    assert_eq!(mac, vec![0x12, 0x34, 0x56, 0x78, 0x9a, 0xbc]);
}

#[test]
fn entries_with_wrong_suffix_length_are_skipped() {
    let entries = vec![
        (0x0001u16, vec![0x01, 0x02, 0x03]),
        (0x0002u16, vec![0x01, 0x02, 0x03, 0x04, 0x05]),
        (0xbbaau16, vec![0xcc, 0xdd, 0xee, 0xff]),
    ];
    let mac = resolve_mac(&entries).expect("third entry is well-formed");
    assert_eq!(mac, vec![0xaa, 0xbb, 0xcc, 0xdd, 0xee, 0xff]);
}

#[test]
fn no_well_formed_entry_yields_none() {
    assert_eq!(resolve_mac(&Vec::new()), None);
    let entries = vec![(0x0001u16, vec![0x01, 0x02])];
    assert_eq!(resolve_mac(&entries), None);
}

#[test]
fn known_address_renders_as_hex_pairs() {
    let mac = MacAddress::Known(vec![0x12, 0x34, 0x56, 0x78, 0x9a, 0xbc]);
    assert_eq!(mac.display_bytes(), b"12:34:56:78:9a:bc".to_vec());
}

#[test]
fn unknown_address_renders_as_word() {
    assert_eq!(MacAddress::Unknown.display_bytes(), b"Unknown".to_vec());
}

#[test]
fn session_name_uses_address_when_known() {
    let mac = MacAddress::Known(vec![0x00, 0x11, 0x22, 0x33, 0x44, 0x55]);
    assert_eq!(session_display_name(&mac), b"00:11:22:33:44:55".to_vec());
    assert_eq!(session_display_name(&MacAddress::Unknown), b"New LED".to_vec());
}
