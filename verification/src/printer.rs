//! Everything to do with the wire protocol of Brother QL printers.

pub mod commands;
pub mod constants;
pub mod device;
pub mod sequencer;
pub mod status;
