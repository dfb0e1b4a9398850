use blue_gate::adv::{advertising_data, scan_response_data, ADV_FLAGS, MAX_ADV_NAME_LEN};

#[test]
fn advertising_data_is_flags_then_service_uuid() {
    let adv = advertising_data();
    assert_eq!(
        adv,
        vec![
            0x02, 0x01, ADV_FLAGS, // flags structure
            0x11, 0x07, // 17-byte structure: complete list of 128-bit services
            0xf1, 0x13, 0x5e, 0xa3, 0xc5, 0xfc, 0x00, 0x00, 0xd0, 0x42, 0x29, 0x49, 0x7e, 0x6a,
            0x7e, 0x6a,
        ]
    );
    assert!(adv.len() <= 31);
}

#[test]
fn scan_response_carries_the_name() {
    let data = scan_response_data(&b"BlueGate".to_vec()).unwrap();
    assert_eq!(data[0], 9); // name length + the type byte
    assert_eq!(data[1], 0x09); // complete local name
    assert_eq!(&data[2..], b"BlueGate");
    assert!(data.len() <= 31);
}

#[test]
fn too_long_name_does_not_fit() {
    let long = vec![b'n'; MAX_ADV_NAME_LEN + 1];
    assert!(scan_response_data(&long).is_none());
    let edge = vec![b'n'; MAX_ADV_NAME_LEN];
    let data = scan_response_data(&edge).unwrap();
    assert_eq!(data.len(), 31);
}
