use fleet_desk::name_codec::{decode_hex_name, describe_profile, hex_digit_value};

#[test]
fn decodes_hex_profile_name() {
    assert_eq!(decode_hex_name("4d79447269766572"), "MyDriver");
}

#[test]
fn decodes_upper_case_hex() {
    assert_eq!(decode_hex_name("4D79"), "My");
}

#[test]
fn decodes_multibyte_utf8() {
    // "é" is c3 a9
    assert_eq!(decode_hex_name("c3a9"), "é");
}

#[test]
fn odd_length_stays_raw() {
    assert_eq!(decode_hex_name("4d7"), "4d7");
}

#[test]
fn non_hex_stays_raw() {
    assert_eq!(decode_hex_name("Profile"), "Profile");
    assert_eq!(decode_hex_name("4g"), "4g");
}

#[test]
fn sign_is_not_a_hex_digit() {
    assert_eq!(decode_hex_name("+f"), "+f");
}

#[test]
fn invalid_utf8_stays_raw() {
    assert_eq!(decode_hex_name("ff"), "ff");
    assert_eq!(decode_hex_name("c3"), "c3");
}

#[test]
fn multibyte_raw_name_stays_raw() {
    assert_eq!(decode_hex_name("aéb"), "aéb");
    assert_eq!(decode_hex_name("é"), "é");
}

#[test]
fn empty_name_decodes_to_empty() {
    assert_eq!(decode_hex_name(""), "");
}

#[test]
fn hex_round_trip_of_text() {
    let text = "Fahrer Ünal_42";
    let hex: String = text.bytes().map(|b| format!("{:02x}", b)).collect();
    assert_eq!(decode_hex_name(&hex), text);
}

#[test]
fn hex_digit_values() {
    assert_eq!(hex_digit_value('0'), Some(0));
    assert_eq!(hex_digit_value('9'), Some(9));
    assert_eq!(hex_digit_value('a'), Some(10));
    assert_eq!(hex_digit_value('F'), Some(15));
    assert_eq!(hex_digit_value('g'), None);
}

#[test]
fn describes_profile_with_decoded_name() {
    let p = describe_profile("4d79447269766572", "/docs/profiles/4d79447269766572".to_string());
    assert_eq!(p.name, "MyDriver");
    assert_eq!(p.path, "/docs/profiles/4d79447269766572");
}
