use watchcat_server::validate::{is_valid_card_id, is_valid_device_mac, is_valid_user_id};

#[test]
fn card_id_of_eight_hex_digits_is_valid() {
    assert!(is_valid_card_id("0123abCD"));
    assert!(is_valid_card_id("FFFFFFFF"));
}

#[test]
fn card_id_of_wrong_length_or_chars_is_invalid() {
    assert!(!is_valid_card_id(""));
    assert!(!is_valid_card_id("0123abC"));
    assert!(!is_valid_card_id("0123abCDE"));
    assert!(!is_valid_card_id("0123abCG"));
    assert!(!is_valid_card_id("0123abCD\n"));
    assert!(!is_valid_card_id(" 0123abCD"));
}

#[test]
fn device_mac_is_found_anywhere_in_text() {
    assert!(is_valid_device_mac("aa:BB:01:23:45:67"));
    assert!(is_valid_device_mac("device aa:bb:cc:dd:ee:ff here"));
    assert!(!is_valid_device_mac("aa:bb:cc:dd:ee"));
    assert!(!is_valid_device_mac("aa-bb-cc-dd-ee-ff"));
    assert!(!is_valid_device_mac("gg:bb:cc:dd:ee:ff"));
}

#[test]
fn user_id_is_digits_only() {
    assert!(is_valid_user_id(""));
    assert!(is_valid_user_id("0123456789"));
    assert!(!is_valid_user_id("12a"));
    assert!(!is_valid_user_id("-1"));
}
