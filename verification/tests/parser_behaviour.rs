use escpos_usb_gadget::event::Event;
use escpos_usb_gadget::protocol::Parser;

fn feed_all(bytes: &[u8]) -> Vec<Event> {
    let mut parser = Parser::new();
    parser.feed(bytes)
}

#[test]
fn raster_image_reports_its_size_and_base64_bits() {
    let events = feed_all(&[0x1d, b'v', b'0', 0, 1, 0, 2, 0, 0xaa, 0x55]);
    assert_eq!(
        events,
        vec![Event::Image { width: 8, height: 2, bits: "qlU=".to_string() }]
    );
}

#[test]
fn raster_image_with_padding_of_two() {
    let events = feed_all(&[0x1d, b'v', b'0', 0, 4, 0, 1, 0, 1, 2, 3, 4]);
    assert_eq!(
        events,
        vec![Event::Image { width: 32, height: 1, bits: "AQIDBA==".to_string() }]
    );
}

#[test]
fn column_image_strip_is_turned_row_major_and_flushed_by_esc_2() {
    let mut bytes = vec![0x1b, b'*', 33, 8, 0];
    let mut strip = vec![0u8; 24];
    strip[0] = 0x80; // top dot of column 0
    bytes.extend_from_slice(&strip);
    bytes.push(b'\n');
    bytes.extend_from_slice(&[0x1b, b'2']);
    let events = feed_all(&bytes);
    assert_eq!(
        events,
        vec![Event::Image {
            width: 8,
            height: 24,
            bits: "gAAAAAAAAAAAAAAAAAAAAAAAAAAAAAAA".to_string()
        }]
    );
}

#[test]
fn column_strip_of_zero_width_is_consumed() {
    let mut parser = Parser::new();
    let events = parser.feed(&[0x1b, b'*', 33, 0, 0, b'\n', b'A']);
    assert_eq!(events, vec![Event::Text { text: "A".to_string() }]);
    assert_eq!(parser.buffered_len(), 0);
    // No image was started, so a line spacing reset reports none.
    assert!(parser.feed(&[0x1b, b'2']).is_empty());
}

#[test]
fn a_strip_of_another_width_is_placed_by_its_own_width() {
    let mut parser = Parser::new();
    let mut bytes = vec![0x1b, b'*', 0, 8, 0];
    bytes.extend_from_slice(&[0u8; 8]);
    bytes.push(b'\n');
    // A second strip 16 columns (2 bytes) wide: its rows start at row 8 / 2
    // and it adds 2 * 8 bytes; the bottom dot of its last column lands on the
    // last byte. The image keeps the first strip's width of 1 byte.
    bytes.extend_from_slice(&[0x1b, b'*', 0, 16, 0]);
    let mut strip = [0u8; 16];
    strip[15] = 0x01;
    bytes.extend_from_slice(&strip);
    bytes.push(b'\n');
    bytes.extend_from_slice(&[0x1b, b'2', b'A']);
    let events = parser.feed(&bytes);
    assert_eq!(
        events,
        vec![
            Event::Image { width: 8, height: 24, bits: "AAAAAAAAAAAAAAAAAAAAAAAAAAAAAAAB".to_string() },
            Event::Text { text: "A".to_string() },
        ]
    );
    assert_eq!(parser.buffered_len(), 0);
}

#[test]
fn zero_width_strip_leaves_the_image_in_progress_as_it_was() {
    let mut parser = Parser::new();
    let mut bytes = vec![0x1b, b'*', 0, 8, 0];
    bytes.extend_from_slice(&[0xffu8; 8]);
    bytes.push(b'\n');
    bytes.extend_from_slice(&[0x1b, b'*', 33, 0, 0, b'\n']);
    bytes.extend_from_slice(&[0x1b, b'2']);
    let events = parser.feed(&bytes);
    assert_eq!(
        events,
        vec![Event::Image { width: 8, height: 8, bits: "//////////8=".to_string() }]
    );
}

#[test]
fn function_a_barcode_ends_at_nul_even_across_packets() {
    let mut parser = Parser::new();
    let mut events = parser.feed(&[0x1d, b'k', 0x04, b'A', b'B']);
    assert!(events.is_empty());
    assert_eq!(parser.buffered_len(), 5);
    events.extend(parser.feed(&[b'C', 0, b'x']));
    assert_eq!(
        events,
        vec![
            Event::Barcode { symbology: "CODE39", data: "ABC".to_string() },
            Event::Text { text: "x".to_string() },
        ]
    );
}

#[test]
fn function_b_barcode_uses_its_length_byte() {
    let events = feed_all(&[0x1d, b'k', 0x49, 3, b'1', b'2', b'3', b'4']);
    assert_eq!(
        events,
        vec![
            Event::Barcode { symbology: "CODE128", data: "123".to_string() },
            Event::Text { text: "4".to_string() },
        ]
    );
}

#[test]
fn unknown_symbology_is_a_generic_barcode() {
    let events = feed_all(&[0x1d, b'k', 0x50, 1, b'Z']);
    assert_eq!(events, vec![Event::Barcode { symbology: "barcode", data: "Z".to_string() }]);
}

#[test]
fn text_split_across_packets_prints_the_same() {
    let mut parser = Parser::new();
    let mut split = parser.feed(b"Hel");
    split.extend(parser.feed(b"lo\n"));
    assert_eq!(
        split,
        vec![
            Event::Text { text: "Hel".to_string() },
            Event::Text { text: "lo".to_string() },
            Event::NewLine,
        ]
    );
    assert_eq!(
        feed_all(b"Hello\n"),
        vec![Event::Text { text: "Hello".to_string() }, Event::NewLine]
    );
}

#[test]
fn selected_code_page_decodes_text() {
    let events = feed_all(&[0x1b, b't', 0x11, 0x8f, 0xe0]);
    assert_eq!(events, vec![Event::Text { text: "Пр".to_string() }]);
}

#[test]
fn init_resets_style_and_code_page() {
    let events = feed_all(&[0x1b, b'E', 1, 0x1b, b't', 0x11, 0x1b, b'@', 0x1b, b'M', 0, 0x82]);
    assert_eq!(
        events,
        vec![
            Event::Style { font: "a", bold: true, italic: false, underline: false, invert: false, width: 1, height: 1 },
            Event::Init,
            Event::Style { font: "a", bold: false, italic: false, underline: false, invert: false, width: 1, height: 1 },
            Event::Text { text: "é".to_string() },
        ]
    );
}

#[test]
fn character_size_and_invert() {
    let events = feed_all(&[0x1d, b'!', 0x12, 0x1d, b'B', 1]);
    assert_eq!(
        events,
        vec![
            Event::Style { font: "a", bold: false, italic: false, underline: false, invert: false, width: 2, height: 3 },
            Event::Style { font: "a", bold: false, italic: false, underline: false, invert: true, width: 2, height: 3 },
        ]
    );
}

#[test]
fn alignment_values() {
    let events = feed_all(&[0x1b, b'a', 0, 0x1b, b'a', 1, 0x1b, b'a', 2, 0x1b, b'a', 7]);
    assert_eq!(
        events,
        vec![
            Event::Align { value: "left" },
            Event::Align { value: "center" },
            Event::Align { value: "right" },
            Event::Align { value: "left" },
        ]
    );
}

#[test]
fn held_bytes_wait_and_an_empty_feed_changes_nothing() {
    let mut parser = Parser::new();
    assert!(parser.feed(&[0x1b]).is_empty());
    assert_eq!(parser.buffered_len(), 1);
    assert!(parser.feed(&[]).is_empty());
    assert_eq!(parser.buffered_len(), 1);
    assert_eq!(parser.feed(&[b'i']), vec![Event::Cut]);
    assert_eq!(parser.buffered_len(), 0);
}

#[test]
fn qr_print_without_stored_data_reports_nothing() {
    let events = feed_all(&[0x1d, 0x28, 0x6b, 0x03, 0x00, 0x31, 0x51, 0x30, b'!']);
    assert_eq!(events, vec![Event::Text { text: "!".to_string() }]);
}

#[test]
fn empty_2d_symbol_command_is_skipped_whole() {
    let mut parser = Parser::new();
    let events = parser.feed(&[0x1d, 0x28, 0x6b, 0, 0, b'A']);
    assert_eq!(events, vec![Event::Text { text: "A".to_string() }]);
    assert_eq!(parser.buffered_len(), 0);
}

#[test]
fn qr_store_without_room_for_data_is_skipped_whole() {
    let mut parser = Parser::new();
    let mut bytes = vec![0x1d, 0x28, 0x6b, 2, 0, 0x31, 0x50, b'A'];
    // Printing afterwards finds nothing stored.
    bytes.extend_from_slice(&[0x1d, 0x28, 0x6b, 0x03, 0x00, 0x31, 0x51, 0x30]);
    let events = parser.feed(&bytes);
    assert_eq!(events, vec![Event::Text { text: "A".to_string() }]);
    assert_eq!(parser.buffered_len(), 0);
}

#[test]
fn gs_cut_with_feed_parameter_takes_four_bytes() {
    assert_eq!(feed_all(&[0x1d, b'V', 66, 3, b'x']), vec![Event::Cut, Event::Text { text: "x".to_string() }]);
}

#[test]
fn default_parser_is_a_new_parser() {
    let mut parser = Parser::default();
    assert_eq!(parser.buffered_len(), 0);
    assert_eq!(parser.feed(b"a"), vec![Event::Text { text: "a".to_string() }]);
}
