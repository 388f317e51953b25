use diskomator::advert::{advertisement, CONFIG_SERVICE_UUID_LE, DEVICE_NAME};

#[test]
fn advertising_data_carries_flags_and_service() {
    let a = advertisement(DEVICE_NAME.as_bytes()).unwrap();
    let mut expected = vec![0x02, 0x01, 0x06, 0x11, 0x07];
    expected.extend_from_slice(&CONFIG_SERVICE_UUID_LE);
    assert_eq!(a.adv_data, expected);
    assert_eq!(a.adv_data.len(), 21);
    // the UUID goes out low byte first
    assert_eq!(&a.adv_data[5..9], &[0xf8, 0x85, 0x4c, 0xc4]);
    assert_eq!(a.adv_data[20], 0xbb);
}

#[test]
fn scan_response_carries_the_name() {
    let a = advertisement(b"Diskomator").unwrap();
    let mut expected = vec![11, 0x09];
    expected.extend_from_slice(b"Diskomator");
    assert_eq!(a.scan_data, expected);
}

#[test]
fn name_and_service_do_not_share_a_packet() {
    let a = advertisement(DEVICE_NAME.as_bytes()).unwrap();
    assert!(a.adv_data.len() + a.scan_data.len() > 31);
    assert!(a.adv_data.len() <= 31 && a.scan_data.len() <= 31);
}

#[test]
fn names_up_to_29_bytes_fit() {
    assert_eq!(advertisement(b"").unwrap().scan_data, vec![1, 0x09]);
    let name = [b'x'; 29];
    let a = advertisement(&name).unwrap();
    assert_eq!(a.scan_data.len(), 31);
    assert_eq!(a.scan_data[0], 30);
    assert!(advertisement(&[b'x'; 30]).is_none());
    assert!(advertisement(&[b'x'; 300]).is_none());
}
