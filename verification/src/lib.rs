//! Driving a QR decoding engine: what to ask of it, in which order, and how to
//! read what it reports.

pub mod code;
pub mod coder;
pub mod codes;
pub mod error;
pub mod quirc;

pub use code::{DataType, EccLevel, QrCode, ECI};
pub use coder::QrCoder;
pub use codes::Codes;
pub use error::Error;
