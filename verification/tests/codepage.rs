use escpos_usb_gadget::codepage::{codepage_from_star_index, decode, decode_latin1, Codepage};

#[test]
fn star_mapping_decodes_representative_reference_bytes() {
    assert_eq!(decode(Codepage::Cp437, &[0x04, 0x82]), "♦é");
    assert_eq!(decode(Codepage::Cp858, &[0xd5]), "€");
    assert_eq!(decode(Codepage::Windows1252, &[0x80, 0x93, 0x94]), "€“”");
    assert_eq!(
        decode(Codepage::Cp866, &[0x8f, 0xe0, 0xa8, 0xa2, 0xa5, 0xe2]),
        "Привет"
    );
    assert_eq!(decode(Codepage::StarKatakana, &[0xa6, 0xb1, 0xdd]), "ｦｱﾝ");
}

#[test]
fn star_indices_match_receipt_printer_encoder_mapping() {
    assert_eq!(codepage_from_star_index(0x02), Codepage::Cp850);
    assert_eq!(codepage_from_star_index(0x12), Codepage::Cp852);
    assert_eq!(codepage_from_star_index(0x13), Codepage::Cp858);
    assert_eq!(codepage_from_star_index(0xff), Codepage::Cp437);
}

#[test]
fn every_star_index_maps_as_documented() {
    let expected = [
        (0x00, Codepage::Cp437),
        (0x01, Codepage::StarKatakana),
        (0x03, Codepage::Cp860),
        (0x04, Codepage::Cp863),
        (0x05, Codepage::Cp865),
        (0x06, Codepage::Cp437),
        (0x10, Codepage::Windows1252),
        (0x11, Codepage::Cp866),
        (0x14, Codepage::Thai42),
        (0x15, Codepage::Thai11),
        (0x16, Codepage::Thai13),
        (0x17, Codepage::Thai14),
        (0x18, Codepage::Thai16),
        (0x19, Codepage::Cp437),
        (0x1a, Codepage::Thai18),
    ];
    for (n, codepage) in expected {
        assert_eq!(codepage_from_star_index(n), codepage, "ESC t {n:#04x}");
    }
}

#[test]
fn control_bytes_decode_as_cp437_pictographs() {
    assert_eq!(decode(Codepage::Cp437, &[0x01, 0x10, 0x04]), "☺►♦");
    assert_eq!(decode(Codepage::Cp437, b"Hi!"), "Hi!");
}

#[test]
fn undefined_positions_are_dropped() {
    // 0x81 is undefined in Windows-1252.
    assert_eq!(decode(Codepage::Windows1252, &[b'a', 0x81, b'b']), "ab");
    assert_eq!(decode(Codepage::Windows1252, &[0x81]), "");
}

#[test]
fn latin1_maps_each_byte_to_the_same_code_point() {
    assert_eq!(decode_latin1(b"Hello"), "Hello");
    assert_eq!(decode_latin1(&[0xe9, 0xff, 0x00]), "é\u{ff}\u{0}");
    assert_eq!(decode_latin1(&[]), "");
}
