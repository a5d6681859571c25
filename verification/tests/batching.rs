use escpos_usb_gadget::batching::{retain_delivered, route_events};
use escpos_usb_gadget::event::Event;

#[test]
fn pulse_goes_out_alone_and_cut_closes_the_receipt() {
    let mut pending = vec![Event::Init];
    let batches = route_events(
        &mut pending,
        vec![Event::NewLine, Event::Pulse, Event::Cut, Event::NewLine],
    );
    assert_eq!(
        batches,
        vec![vec![Event::Pulse], vec![Event::Init, Event::NewLine, Event::Cut]]
    );
    assert_eq!(pending, vec![Event::NewLine]);
}

#[test]
fn nothing_is_published_before_a_cut() {
    let mut pending = Vec::new();
    let batches = route_events(&mut pending, vec![Event::Init, Event::NewLine]);
    assert!(batches.is_empty());
    assert_eq!(pending, vec![Event::Init, Event::NewLine]);
}

#[test]
fn only_reached_subscribers_stay_in_order() {
    let mut subs = vec!["a", "b", "c", "d"];
    retain_delivered(&mut subs, &[true, false, true, false]);
    assert_eq!(subs, vec!["a", "c"]);
    let mut none: Vec<u8> = vec![1, 2];
    retain_delivered(&mut none, &[false, false]);
    assert!(none.is_empty());
}
