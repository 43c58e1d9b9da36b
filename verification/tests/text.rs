use ifcfg::text::{c_char_array_to_string, physical_address_to_string, u16_array_to_string};

fn wide(text: &str) -> Vec<u16> {
    text.encode_utf16().collect()
}

#[test]
fn hardware_address_of_three_octets() {
    assert_eq!(
        physical_address_to_string([0x00, 0x1A, 0x2B, 0, 0, 0, 0, 0], 3),
        "00-1A-2B"
    );
}

#[test]
fn hardware_address_of_length_zero_is_empty() {
    assert_eq!(physical_address_to_string([0x00, 0x1A, 0x2B, 0, 0, 0, 0, 0], 0), "");
    assert_eq!(physical_address_to_string([0xff; 8], 0), "");
}

#[test]
fn hardware_address_of_one_octet_has_no_separator() {
    assert_eq!(physical_address_to_string([0xAB, 1, 2, 3, 4, 5, 6, 7], 1), "AB");
}

#[test]
fn hardware_address_of_six_octets() {
    assert_eq!(
        physical_address_to_string([0xde, 0xad, 0xbe, 0xef, 0x09, 0xa0, 0x11, 0x22], 6),
        "DE-AD-BE-EF-09-A0"
    );
}

#[test]
fn hardware_address_uses_the_whole_buffer_at_most() {
    let octets = [0x01, 0x23, 0x45, 0x67, 0x89, 0xab, 0xcd, 0xef];
    assert_eq!(physical_address_to_string(octets, 8), "01-23-45-67-89-AB-CD-EF");
    assert_eq!(physical_address_to_string(octets, 9), "01-23-45-67-89-AB-CD-EF");
    assert_eq!(physical_address_to_string(octets, u32::MAX), "01-23-45-67-89-AB-CD-EF");
}

#[test]
fn hardware_address_writes_every_digit_in_upper_case() {
    for value in 0..=255u8 {
        let text = physical_address_to_string([value, 0, 0, 0, 0, 0, 0, 0], 1);
        assert_eq!(text, format!("{:02X}", value));
    }
}

#[test]
fn wide_string_ends_at_its_first_null() {
    let mut buffer = wide("Ethernet");
    buffer.push(0);
    buffer.extend(wide("leftover"));
    buffer.push(0);
    assert_eq!(u16_array_to_string(Some(&buffer)), "Ethernet");
}

#[test]
fn wide_string_behind_a_null_pointer_is_empty() {
    assert_eq!(u16_array_to_string(None), "");
}

#[test]
fn wide_string_that_starts_with_a_null_is_empty() {
    assert_eq!(u16_array_to_string(Some(&[0, 72, 105])), "");
    assert_eq!(u16_array_to_string(Some(&[])), "");
}

#[test]
fn wide_string_without_a_null_ends_with_its_buffer() {
    assert_eq!(u16_array_to_string(Some(&wide("Wi-Fi 2"))), "Wi-Fi 2");
}

#[test]
fn wide_string_decodes_pairs_and_replaces_stray_surrogates() {
    assert_eq!(u16_array_to_string(Some(&[0xD83D, 0xDE00, 0])), "\u{1F600}");
    assert_eq!(u16_array_to_string(Some(&[0x0041, 0xD800, 0x0042, 0])), "A\u{FFFD}B");
    assert_eq!(u16_array_to_string(Some(&[0xDC00, 0])), "\u{FFFD}");
    assert_eq!(u16_array_to_string(Some(&[0x00E9, 0x4E2D, 0])), "\u{E9}\u{4E2D}");
}

#[test]
fn narrow_string_ends_at_its_first_null() {
    assert_eq!(
        c_char_array_to_string(Some(b"{4D36E972-E325}\0junk\0")),
        "{4D36E972-E325}"
    );
}

#[test]
fn narrow_string_behind_a_null_pointer_is_empty() {
    assert_eq!(c_char_array_to_string(None), "");
}

#[test]
fn narrow_string_without_a_null_ends_with_its_buffer() {
    assert_eq!(c_char_array_to_string(Some(b"eth0")), "eth0");
    assert_eq!(c_char_array_to_string(Some(b"")), "");
    assert_eq!(c_char_array_to_string(Some(b"\0eth0")), "");
}

#[test]
fn narrow_string_decodes_utf8_and_replaces_what_is_none() {
    assert_eq!(c_char_array_to_string(Some(&[0xC3, 0xA9, 0x74, 0xC3, 0xA9, 0])), "\u{E9}t\u{E9}");
    assert_eq!(c_char_array_to_string(Some(&[0x61, 0xFF, 0x62, 0])), "a\u{FFFD}b");
}
