//! Validation and decoding of Vehicle Identification Numbers (VINs): the
//! 17-character codes that identify road vehicles.
//!
//! The crate checks length and alphabet, verifies the North-American
//! check digit (transliteration and a weighted modulo-11 sum), and decodes
//! the World Manufacturer Identifier prefix into country, region and
//! manufacturer through a static registry.

pub mod chars;
pub mod checksum;
pub mod decoder;
pub mod vin;
pub mod wmi;

pub use chars::is_vin_char;
pub use chars::to_upper;
pub use chars::translit;
pub use chars::value_of;
pub use checksum::ChecksumOutcome;
pub use checksum::compute_expected;
pub use checksum::expected_of;
pub use checksum::verify;
pub use decoder::VinInfo;
pub use decoder::check_validity;
pub use decoder::get_info;
pub use decoder::verify_checksum;
pub use vin::VINError;
pub use vin::Vin;
pub use vin::normalize;
pub use vin::valid_vin;
pub use vin::validate;
pub use wmi::WmiMatch;
pub use wmi::lookup;
