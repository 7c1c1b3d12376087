use micap_server::text::{mac_text, push_decimal, tracker_id};

#[test]
fn mac_is_lowercase_hex_with_colons() {
    assert_eq!(mac_text(&[0x42, 0x42, 0, 0, 0, 0]), "42:42:00:00:00:00");
    assert_eq!(mac_text(&[0xAB, 0xCD, 0xEF, 0x01, 0x9a, 0xff]), "ab:cd:ef:01:9a:ff");
}

#[test]
fn tracker_id_is_mac_slash_index() {
    assert_eq!(tracker_id(&[0x42, 0x42, 0, 0, 0, 0], 3), "42:42:00:00:00:00/3");
    assert_eq!(tracker_id(&[0x69, 0x42, 0, 0, 0, 0], 0), "69:42:00:00:00:00/0");
    assert_eq!(tracker_id(&[0, 0, 0, 0, 0, 1], 255), "00:00:00:00:00:01/255");
    assert_eq!(tracker_id(&[0, 0, 0, 0, 0, 1], 10), "00:00:00:00:00:01/10");
}

#[test]
fn decimal_has_no_leading_zeros() {
    let mut s = String::from("n=");
    push_decimal(&mut s, 0);
    assert_eq!(s, "n=0");
    let mut s = String::new();
    push_decimal(&mut s, 1234567890123);
    assert_eq!(s, "1234567890123");
    let mut s = String::new();
    push_decimal(&mut s, u64::MAX);
    assert_eq!(s, u64::MAX.to_string());
}
