use vstd::prelude::*;

use crate::error::DecodeError;
use crate::hex::all_hex;
use crate::hex::first_non_hex;
use crate::hex::hex_byte;
use crate::hex::hex_pairs;
use crate::hex::hex_pairs_of;
use crate::telemetry::spec_decode_telemetry;
use crate::telemetry::decode_telemetry;
use crate::telemetry::BotanTelemetry;
use crate::text::frame_tokens;
use crate::text::seq_views;
use crate::text::str_eq;
use crate::text::tokenize_by;

verus! {

/// The optional signal-quality field of a beacon line: two raw magnitudes
/// parsed from the 4 hexadecimal digits after the "SI" prefix.  The beacon
/// definition labels them as dBm and dB but gives no scale, so the raw
/// byte values are reported unchanged.
#[derive(Debug, Clone, Copy, PartialEq, Eq, Structural)]
pub struct BotanRSSI {
    /// First magnitude byte of the field.
    pub rssi_dbm: u8,
    /// Second magnitude byte of the field.
    pub snr_db: u8,
}

/// A validated and decoded beacon line.
#[derive(Debug, Clone)]
pub struct BotanBeaconData {
    /// The fixed satellite identifier, always "BOTAN".
    pub satellite_name: String,
    /// The fixed call sign, always "JS1YPT".
    pub call_sign: String,
    /// The signal-quality field, when the line carries one.
    pub rssi: Option<BotanRSSI>,
    /// The decoded 8-byte telemetry payload.
    pub telemetry: BotanTelemetry,
}

/// The mathematical image of a parsed beacon line.
pub ghost struct BeaconModel {
    pub satellite_name: Seq<char>,
    pub call_sign: Seq<char>,
    pub rssi: Option<BotanRSSI>,
    pub telemetry: BotanTelemetry,
}

impl View for BotanBeaconData {
    type V = BeaconModel;

    open spec fn view(&self) -> BeaconModel {
        BeaconModel {
            satellite_name: self.satellite_name@,
            call_sign: self.call_sign@,
            rssi: self.rssi,
            telemetry: self.telemetry,
        }
    }
}

/// Whether a token is a well-formed signal-quality field: 6 characters,
/// the prefix "SI", then 4 hexadecimal digits.
pub open spec fn signal_wf(token: Seq<char>) -> bool {
    token.len() == 6 && token[0] == 'S' && token[1] == 'I' && all_hex(token.subrange(2, 6))
}

/// The two raw magnitudes of a well-formed signal-quality field.
pub open spec fn signal_of(token: Seq<char>) -> BotanRSSI {
    BotanRSSI { rssi_dbm: hex_byte(token[2], token[3]), snr_db: hex_byte(token[4], token[5]) }
}

/// What the payload token yields: its 8 bytes, or the error it deserves.
/// The length is checked before the digits, so a short token is
/// `BadPayloadLength` even when it also holds a bad digit.
pub open spec fn payload_result(token: Seq<char>) -> Result<Seq<u8>, DecodeError> {
    if token.len() != 16 {
        Err(DecodeError::BadPayloadLength)
    } else if !all_hex(token) {
        Err(DecodeError::BadHexDigit { position: first_non_hex(token) as usize })
    } else {
        Ok(hex_pairs(token))
    }
}

/// What parsing a beacon line returns, for every input line.
///
/// The line splits into whitespace tokens; fewer than 3 or more than 4
/// tokens is a malformed frame; the first two tokens must be the fixed
/// header; with 4 tokens the third is the signal-quality field and the
/// fourth the payload, with 3 tokens the third is the payload.
pub open spec fn spec_parse(line: Seq<char>) -> Result<BeaconModel, DecodeError> {
    let tokens = frame_tokens(line);
    if tokens.len() < 3 {
        Err(DecodeError::MalformedFrame)
    } else if tokens[0] != "BOTAN"@ || tokens[1] != "JS1YPT"@ {
        Err(DecodeError::BadHeader)
    } else if tokens.len() == 4 {
        if !signal_wf(tokens[2]) {
            Err(DecodeError::BadSignalQuality)
        } else {
            spec_parse_tail(tokens[3], Some(signal_of(tokens[2])))
        }
    } else if tokens.len() == 3 {
        spec_parse_tail(tokens[2], None)
    } else {
        Err(DecodeError::MalformedFrame)
    }
}

/// The outcome of the payload stage: the payload token's bytes decoded to
/// telemetry, combined with the already-parsed signal field.
pub open spec fn spec_parse_tail(payload_token: Seq<char>, rssi: Option<BotanRSSI>) -> Result<
    BeaconModel,
    DecodeError,
> {
    match payload_result(payload_token) {
        Err(e) => Err(e),
        Ok(bytes) => match spec_decode_telemetry(bytes) {
            Err(e) => Err(e),
            Ok(telemetry) => Ok(
                BeaconModel {
                    satellite_name: "BOTAN"@,
                    call_sign: "JS1YPT"@,
                    rssi,
                    telemetry,
                },
            ),
        },
    }
}

/// Checks the payload token's length and digits and converts it to bytes.
fn parse_payload(token: &str) -> (result: Result<Vec<u8>, DecodeError>)
    ensures
        match result {
            Ok(bytes) => payload_result(token@) == Ok::<Seq<u8>, DecodeError>(bytes@),
            Err(e) => payload_result(token@) == Err::<Seq<u8>, DecodeError>(e),
        },
{
    if token.unicode_len() != 16 {
        return Err(DecodeError::BadPayloadLength);
    }
    match hex_pairs_of(token) {
        Ok(bytes) => Ok(bytes),
        Err(position) => Err(DecodeError::BadHexDigit { position }),
    }
}

/// Checks a signal-quality token and extracts its two raw magnitudes.
fn parse_signal(token: &str) -> (result: Option<BotanRSSI>)
    ensures
        match result {
            Some(signal) => signal_wf(token@) && signal == signal_of(token@),
            None => !signal_wf(token@),
        },
{
    if token.unicode_len() != 6 {
        return None;
    }
    if token.get_char(0) != 'S' || token.get_char(1) != 'I' {
        return None;
    }
    let digits = token.substring_char(2, 6);
    match hex_pairs_of(digits) {
        Err(_) => None,
        Ok(pair) => {
            proof {
                assert(digits@ =~= token@.subrange(2, 6));
                assert(hex_pairs(digits@).len() == 2);
            }
            Some(BotanRSSI { rssi_dbm: pair[0], snr_db: pair[1] })
        },
    }
}

/// Parses one beacon line: tokenizes it, validates the fixed header,
/// extracts the optional signal-quality field, converts the 16-digit
/// payload to 8 bytes and decodes them.  Pure: the outcome is exactly
/// `spec_parse` of the line's characters.
pub fn parse_botan_beacon(input: &str) -> (result: Result<BotanBeaconData, DecodeError>)
    ensures
        match result {
            Ok(beacon) => spec_parse(input@) == Ok::<BeaconModel, DecodeError>(beacon@),
            Err(e) => spec_parse(input@) == Err::<BeaconModel, DecodeError>(e),
        },
{
    let tokens = tokenize_by(input, false);
    let ghost tokviews = frame_tokens(input@);
    if tokens.len() < 3 {
        return Err(DecodeError::MalformedFrame);
    }
    if !str_eq(tokens[0].as_str(), "BOTAN") || !str_eq(tokens[1].as_str(), "JS1YPT") {
        return Err(DecodeError::BadHeader);
    }
    let (payload_index, rssi): (usize, Option<BotanRSSI>) = if tokens.len() == 4 {
        match parse_signal(tokens[2].as_str()) {
            None => {
                return Err(DecodeError::BadSignalQuality);
            },
            Some(signal) => (3, Some(signal)),
        }
    } else if tokens.len() == 3 {
        (2, None)
    } else {
        return Err(DecodeError::MalformedFrame);
    };
    let bytes = match parse_payload(tokens[payload_index].as_str()) {
        Ok(bytes) => bytes,
        Err(e) => {
            return Err(e);
        },
    };
    let telemetry = match decode_telemetry(bytes.as_slice()) {
        Ok(telemetry) => telemetry,
        Err(e) => {
            return Err(e);
        },
    };
    Ok(
        BotanBeaconData {
            satellite_name: "BOTAN".to_owned(),
            call_sign: "JS1YPT".to_owned(),
            rssi,
            telemetry,
        },
    )
}

} // verus!
