//! Reading a MAX6675 thermocouple-to-digital converter over SPI.
//!
//! The MAX6675 presents one 16-bit conversion word per read: bit D15 is a
//! dummy sign (always 0), D14..D3 hold a 12-bit unsigned temperature
//! magnitude in units of 0.25 degrees Celsius, D2 is high when the
//! thermocouple input is open, D1 is the device id (always 0) and D0 is a
//! tri-state don't-care.
//!
//! This crate holds the decoding of that word and the policy for turning one
//! SPI transfer into either a temperature or a typed error. The bus
//! transaction itself, and the final scaling of the quarter-degree magnitude
//! to a floating-point Celsius value, stay with the caller.

pub mod decode;
pub mod error;
pub mod frame;

pub use decode::is_open;
pub use decode::parse_quarter_celsius;
pub use decode::quarters_from_word;
pub use decode::spec_is_open;
pub use decode::spec_quarters;
pub use error::Error;
pub use frame::quarters_from_transfer;
pub use frame::spec_frame_word;
pub use frame::word_from_transfer;
