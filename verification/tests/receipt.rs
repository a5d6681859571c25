use escpos_usb_gadget::event::Event;
use escpos_usb_gadget::protocol::Parser;
use escpos_usb_gadget::receipt::{diamond_pixel, test_image, Receipt};

#[test]
fn encoder_writes_the_expected_bytes() {
    let mut r = Receipt::new();
    r.align(1).bold(true).size(2, 2).line("Hi").cut().pulse();
    assert_eq!(
        r.0,
        vec![
            0x1b, 0x40, 0x1b, 0x61, 1, 0x1b, 0x45, 1, 0x1d, 0x21, 0x11, b'H', b'i', b'\n', 0x1d,
            0x56, 0x00, 0x1b, 0x70, 0x00, 50, 250
        ]
    );
}

#[test]
fn image_header_is_little_endian() {
    let mut r = Receipt(Vec::new());
    r.image(64, 300, &[1, 2]);
    assert_eq!(r.0, vec![0x1d, 0x76, 0x30, 0x00, 8, 0, 0x2c, 0x01, 1, 2]);
}

#[test]
fn encoded_receipt_parses_back() {
    let mut r = Receipt::new();
    r.italic(true)
        .underline(true)
        .invert(true)
        .size(3, 4)
        .text("ok")
        .qrcode("https://example.com/receipt/12345")
        .barcode_code128("12345678")
        .cut();
    let mut parser = Parser::new();
    let events = parser.feed(&r.0);
    let style = |italic, underline, invert, width, height| Event::Style {
        font: "a",
        bold: false,
        italic,
        underline,
        invert,
        width,
        height,
    };
    assert_eq!(
        events,
        vec![
            Event::Init,
            style(true, false, false, 1, 1),
            style(true, true, false, 1, 1),
            style(true, true, true, 1, 1),
            style(true, true, true, 3, 4),
            Event::Text { text: "ok".to_string() },
            Event::QrCode { data: "https://example.com/receipt/12345".to_string() },
            Event::Barcode { symbology: "CODE128", data: "12345678".to_string() },
            Event::Cut,
        ]
    );
    assert_eq!(parser.buffered_len(), 0);
}

#[test]
fn test_image_is_the_packed_diamond() {
    let (w, h, rows) = test_image();
    assert_eq!((w, h, rows.len()), (64, 32, 256));
    for y in 0..32u32 {
        for x in 0..64u32 {
            let set = rows[(y * 8 + x / 8) as usize] & (0x80 >> (x % 8)) != 0;
            assert_eq!(set, diamond_pixel(64, 32, x, y), "pixel ({x}, {y})");
        }
    }
    // The centre of the diamond is empty and some pixel of the outline is set.
    assert!(!diamond_pixel(64, 32, 32, 16));
    assert!(rows.iter().any(|b| *b != 0));
}

#[test]
fn column_image_parses_back_to_the_same_pixels() {
    let (w, h, _) = test_image();
    let mut r = Receipt(Vec::new());
    r.column_image(w, h, |x, y| diamond_pixel(w, h, x, y));
    let mut parser = Parser::new();
    let events = parser.feed(&r.0);
    assert_eq!(events.len(), 1);
    match &events[0] {
        Event::Image { width, height, bits } => {
            assert_eq!((*width, *height), (64, 48));
            assert!(!bits.is_empty());
        }
        other => panic!("expected an image, got {other:?}"),
    }
}
