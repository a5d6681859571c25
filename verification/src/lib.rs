//! Decoding of the ESC/POS byte stream that a Star Micronics receipt printer
//! receives, as emitted by `@point-of-sale/receipt-printer-encoder`, into
//! structured print events.

pub mod batching;
pub mod codepage;
pub mod connection;
pub mod event;
pub mod external;
pub mod image_laws;
pub mod laws;
pub mod model;
pub mod protocol;
pub mod receipt;
pub mod tables;
