//! Driver logic for Brother QL thermal label printers.
//!
//! The crate holds the verified core of the driver: the label geometry
//! table, the status codec, the command encoder, the print sequencer and the
//! rasterizer that turns a pixel canvas into the printer's raster lines.
//! Moving bytes over USB and reading font or image files is left to the
//! program that links this library.

pub mod printer;
pub mod text;
