//! Decoder for the fixed-format telemetry beacon of the BOTAN satellite.
//!
//! A beacon is one ASCII text line: the satellite identifier, the call sign,
//! an optional signal-quality field, and a 16-hex-digit payload encoding
//! 8 telemetry bytes.  The library tokenizes and validates the line, converts
//! the payload to bytes, and projects the status bytes onto their bitfield
//! layouts.  The five analog channels are reported as their raw bytes; the
//! floating-point conversion to engineering units is left to the caller.

pub mod botan_parser;
pub mod custom_definitions;
pub mod decoder;
pub mod error;
pub mod hex;
pub mod status;
pub mod telemetry;
pub mod text;

pub use botan_parser::parse_botan_beacon;
pub use botan_parser::BotanBeaconData;
pub use botan_parser::BotanRSSI;
pub use custom_definitions::create_custom_decoder;
pub use custom_definitions::create_extended_decoder;
pub use custom_definitions::load_botan_definitions;
pub use decoder::decode_botan_beacon;
pub use decoder::BotanDecoder;
pub use error::DecodeError;
pub use status::CurrentMission;
pub use status::Data1Flags;
pub use status::Data2Flags;
pub use status::Data3Flags;
pub use telemetry::decode_telemetry;
pub use telemetry::BotanTelemetry;
