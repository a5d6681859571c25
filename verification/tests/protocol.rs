use escpos_usb_gadget::event::Event;
use escpos_usb_gadget::protocol::Parser;

fn feed_one_byte_at_a_time(bytes: &[u8]) -> Vec<Event> {
    let mut parser = Parser::new();
    let mut events = Vec::new();
    for byte in bytes {
        events.extend(parser.feed(std::slice::from_ref(byte)));
    }
    events
}

fn printed_text(events: &[Event]) -> String {
    events
        .iter()
        .filter_map(|event| match event {
            Event::Text { text } => Some(text.as_str()),
            _ => None,
        })
        .collect()
}

#[test]
fn embedded_newline_cr_from_real_encoder() {
    // Exact bytes @point-of-sale/receipt-printer-encoder produces for
    // .text("line one\nline two").newline() with its default '\n\r'
    // newline setting.
    let bytes = [
        0x1b, 0x40, 0x1c, 0x2e, 0x1b, 0x4d, 0x00, 0x1b, 0x74, 0x00, b'l', b'i', b'n', b'e',
        b' ', b'o', b'n', b'e', 0x0a, 0x0d, b'l', b'i', b'n', b'e', b' ', b't', b'w', b'o',
        0x0a, 0x0d,
    ];
    let mut parser = Parser::new();
    let events = parser.feed(&bytes);

    let texts: Vec<&str> = events
        .iter()
        .filter_map(|e| {
            if let Event::Text { text } = e {
                Some(text.as_str())
            } else {
                None
            }
        })
        .collect();
    assert_eq!(texts, vec!["line one", "line two"]);

    let newlines = events
        .iter()
        .filter(|e| matches!(e, Event::NewLine))
        .count();
    assert_eq!(newlines, 2, "events: {events:?}");
}

#[test]
fn qr_command_is_safe_across_every_usb_packet_boundary() {
    let bytes = [
        0x1d, 0x28, 0x6b, 0x08, 0x00, 0x31, 0x50, 0x30, b'H', b'e', b'l', b'l', b'o', 0x1d,
        0x28, 0x6b, 0x03, 0x00, 0x31, 0x51, 0x30,
    ];

    let mut whole_parser = Parser::new();
    let expected = whole_parser.feed(&bytes);
    assert!(matches!(expected.as_slice(), [Event::QrCode { data }] if data == "Hello"));

    for split in 0..=bytes.len() {
        let mut parser = Parser::new();
        let mut actual = parser.feed(&bytes[..split]);
        actual.extend(parser.feed(&bytes[split..]));
        assert_eq!(actual, expected, "split at byte {split}");
    }

    assert_eq!(feed_one_byte_at_a_time(&bytes), expected);
}

#[test]
fn unsupported_length_prefixed_gs_command_does_not_print_its_payload() {
    let bytes = [0x1d, b'(', b'X', 0x03, 0x00, 1, 2, 3, b'O', b'K'];
    let events = feed_one_byte_at_a_time(&bytes);
    let text = printed_text(&events);
    assert_eq!(text, "OK", "{events:?}");
}

#[test]
fn legacy_cuts_and_feed_lines_produce_events() {
    let events = feed_one_byte_at_a_time(&[0x1b, b'd', 2, 0x1b, b'i', 0x1b, b'm']);
    assert!(matches!(
        events.as_slice(),
        [Event::NewLine, Event::NewLine, Event::Cut, Event::Cut]
    ));
}

/// Regression: real-time status polls used to print as glyphs at the top of
/// whichever receipt was being composed when they arrived.
#[test]
fn realtime_status_queries_print_nothing() {
    for query in [
        [0x10, 0x04, 0x01].as_slice(), // DLE EOT 1 - printer status
        [0x10, 0x04, 0x04].as_slice(), // DLE EOT 4 - paper sensor status
        [0x10, 0x05].as_slice(),       // DLE ENQ
        [0x10, 0x14, 0x02, 0x01].as_slice(),
        [0x10, 0x14, 0x08, 1, 3, 20, 1, 6, 2, 8].as_slice(),
    ] {
        let mut bytes = query.to_vec();
        bytes.extend_from_slice(b"Mangatukku");
        let events = feed_one_byte_at_a_time(&bytes);
        assert_eq!(
            printed_text(&events),
            "Mangatukku",
            "status query {query:02x?} leaked into printed text: {events:?}"
        );
    }
}

#[test]
fn realtime_drawer_kick_pulses_without_printing() {
    let events = feed_one_byte_at_a_time(&[0x10, 0x14, 0x01, 0x00, 0x01]);
    assert!(matches!(events.as_slice(), [Event::Pulse]), "{events:?}");
}

/// A finished job must leave nothing buffered, or its remnants would be
/// parsed as part of the next receipt.
#[test]
fn a_complete_job_leaves_no_buffered_bytes() {
    let bytes = [
        0x1b, 0x40, // ESC @
        0x1b, 0x74, 0x00, // ESC t 0
        0x1b, 0x61, 0x01, // ESC a 1
        0x1d, 0x21, 0x11, // GS ! double
        b'H', b'i', 0x0a, //
        0x10, 0x04, 0x01, // status poll mid-job
        0x1b, 0x70, 0x00, 50, 250, // ESC p drawer
        0x1d, 0x56, 0x00, // GS V cut
    ];
    let mut parser = Parser::new();
    parser.feed(&bytes);
    assert_eq!(parser.buffered_len(), 0);
}

#[test]
fn combined_print_mode_preserves_all_supported_style_bits() {
    let events = feed_one_byte_at_a_time(&[0x1b, b'!', 0xb9]);
    assert!(matches!(
        events.as_slice(),
        [Event::Style {
            font: "b",
            bold: true,
            underline: true,
            width: 2,
            height: 2,
            ..
        }]
    ));
}

#[test]
fn cash_drawer_pulse_is_sound_only() {
    let mut parser = Parser::new();
    let events = parser.feed(&[0x1b, b'p', 0x00, 0x19, 0xfa]);

    assert!(matches!(events.as_slice(), [Event::Pulse]));
    assert_eq!(parser.buffered_len(), 0);
}
