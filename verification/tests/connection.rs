use escpos_usb_gadget::connection::{connection_step, ConnAction, ConnEvent};

#[test]
fn connection_forwards_batches_and_stops_on_close_or_failure() {
    assert!(matches!(connection_step(ConnEvent::BatchArrived), ConnAction::Forward));
    assert!(matches!(connection_step(ConnEvent::NoBatch), ConnAction::ReadClient));
    assert!(matches!(connection_step(ConnEvent::Unsubscribed), ConnAction::Stop));
    assert!(matches!(connection_step(ConnEvent::ClientClosed), ConnAction::Stop));
    assert!(matches!(connection_step(ConnEvent::ClientMessage), ConnAction::Wait));
    assert!(matches!(connection_step(ConnEvent::ReadTimedOut), ConnAction::Wait));
    assert!(matches!(connection_step(ConnEvent::ReadFailed), ConnAction::Stop));
}
