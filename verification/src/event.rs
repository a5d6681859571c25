//! The print events that the parser produces, and their mathematical model.

use vstd::prelude::*;

verus! {

/// A structured print event decoded from the ESC/POS byte stream.
#[derive(Debug, Clone, PartialEq, Eq)]
pub enum Event {
    Init,
    Align { value: &'static str },
    Style {
        font: &'static str,
        bold: bool,
        italic: bool,
        underline: bool,
        invert: bool,
        width: u8,
        height: u8,
    },
    Text { text: String },
    NewLine,
    Cut,
    Image { width: u32, height: u32, bits: String },
    QrCode { data: String },
    Barcode { symbology: &'static str, data: String },
    Pulse,
}

/// An event with its strings taken as character sequences.
pub enum EventModel {
    Init,
    Align { value: Seq<char> },
    Style {
        font: Seq<char>,
        bold: bool,
        italic: bool,
        underline: bool,
        invert: bool,
        width: u8,
        height: u8,
    },
    Text { text: Seq<char> },
    NewLine,
    Cut,
    Image { width: u32, height: u32, bits: Seq<char> },
    QrCode { data: Seq<char> },
    Barcode { symbology: Seq<char>, data: Seq<char> },
    Pulse,
}

impl View for Event {
    type V = EventModel;

    open spec fn view(&self) -> EventModel {
        match self {
            Event::Init => EventModel::Init,
            Event::Align { value } => EventModel::Align { value: value@ },
            Event::Style { font, bold, italic, underline, invert, width, height } => EventModel::Style {
                font: font@,
                bold: *bold,
                italic: *italic,
                underline: *underline,
                invert: *invert,
                width: *width,
                height: *height,
            },
            Event::Text { text } => EventModel::Text { text: text@ },
            Event::NewLine => EventModel::NewLine,
            Event::Cut => EventModel::Cut,
            Event::Image { width, height, bits } => EventModel::Image {
                width: *width,
                height: *height,
                bits: bits@,
            },
            Event::QrCode { data } => EventModel::QrCode { data: data@ },
            Event::Barcode { symbology, data } => EventModel::Barcode {
                symbology: symbology@,
                data: data@,
            },
            Event::Pulse => EventModel::Pulse,
        }
    }
}

/// The models of a sequence of events.
pub open spec fn events_view(events: Seq<Event>) -> Seq<EventModel> {
    events.map_values(|e: Event| e@)
}

} // verus!
