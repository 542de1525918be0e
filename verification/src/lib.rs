//! Building blocks for thermal receipt printers that speak ESC/POS: the
//! command encoder, barcode and raster helpers, the fluent `Printer`, and the
//! drivers that carry the finished byte stream to a device.

pub mod arith;
pub mod barcode;
pub mod barcode_laws;
pub mod bytes;
pub mod domain;
pub mod driver;
pub mod encoder;
pub mod encoder_laws;
pub mod errors;
pub mod page_code;
pub mod printer;
pub mod raster;
pub mod raster_laws;
pub mod text;
pub mod wide;
