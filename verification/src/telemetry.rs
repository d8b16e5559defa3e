use vstd::prelude::*;

use crate::error::DecodeError;
use crate::status::spec_data1;
use crate::status::spec_data2;
use crate::status::spec_data3;
use crate::status::decode_data1;
use crate::status::decode_data2;
use crate::status::decode_data3;
use crate::status::Data1Flags;
use crate::status::Data2Flags;
use crate::status::Data3Flags;

verus! {

/// The decoded 8-byte telemetry block.
///
/// The five analog channels are reported as the raw payload bytes they were
/// transmitted as; each engineering value is a fixed floating-point formula
/// of its single byte, applied by the presentation layer:
///
/// * battery voltage \[V\] = `bat_v_raw` * 0.025781
/// * battery current \[mA\] = `bat_i_raw` * -50.045 + 6330.4
/// * battery temperature \[degC\] = 1185000 / (ln(r) * 298 + 3976) - 273,
///   with r = (`bat_t_raw` * 0.01289) / (3.3 - `bat_t_raw` * 0.01289)
/// * board temperature \[degC\] = 30 - (sqrt(36.44506 - `bpb_t_raw` * 0.06875)
///   - 5.506) / 0.00352
/// * current consumption \[mA\] = `raw_i_raw` * 51.84 - 1950.9
///
/// The two temperature formulas carry a domain precondition; the decoder
/// rejects a payload whose bytes fall outside it, so a constructed record
/// always admits all five conversions.
#[derive(Debug, Clone, Copy, PartialEq, Eq, Structural)]
pub struct BotanTelemetry {
    /// Payload byte 0: battery voltage channel.
    pub bat_v_raw: u8,
    /// Payload byte 1: battery current channel.
    pub bat_i_raw: u8,
    /// Payload byte 2: battery temperature channel.
    pub bat_t_raw: u8,
    /// Payload byte 3: circuit-board temperature channel.
    pub bpb_t_raw: u8,
    /// Payload byte 4: current consumption channel.
    pub raw_i_raw: u8,
    /// Payload byte 5: power-system status bitfield.
    pub data1: Data1Flags,
    /// Payload byte 6: command status bitfield.
    pub data2: Data2Flags,
    /// Payload byte 7: mission status bitfield.
    pub data3: Data3Flags,
}

/// Whether the battery-temperature formula is undefined for this byte: the
/// logarithm argument (byte * 0.01289) / (3.3 - byte * 0.01289) is not
/// positive.  The comparisons are stated over the decimal constants scaled
/// by 100000, which is exact.
pub open spec fn bat_t_out_of_domain(byte: u8) -> bool {
    byte == 0 || (byte as int) * 1289 > 330000
}

/// Whether the board-temperature formula is undefined for this byte: the
/// square-root argument 36.44506 - byte * 0.06875 is negative.  The
/// comparison is stated over the decimal constants scaled by 100000,
/// which is exact.
pub open spec fn bpb_t_out_of_domain(byte: u8) -> bool {
    (byte as int) * 6875 > 3644506
}

/// What the payload decoder returns for a given byte sequence: a record of
/// the five analog bytes and the three decoded bitfields, or the one error
/// the sequence deserves.  The temperature domains are checked in byte
/// order, byte 2 before byte 3.
pub open spec fn spec_decode_telemetry(bytes: Seq<u8>) -> Result<BotanTelemetry, DecodeError> {
    if bytes.len() != 8 {
        Err(DecodeError::InvalidByteCount)
    } else if bat_t_out_of_domain(bytes[2]) {
        Err(DecodeError::OutOfDomain)
    } else if bpb_t_out_of_domain(bytes[3]) {
        Err(DecodeError::OutOfDomain)
    } else {
        Ok(
            BotanTelemetry {
                bat_v_raw: bytes[0],
                bat_i_raw: bytes[1],
                bat_t_raw: bytes[2],
                bpb_t_raw: bytes[3],
                raw_i_raw: bytes[4],
                data1: spec_data1(bytes[5]),
                data2: spec_data2(bytes[6]),
                data3: spec_data3(bytes[7]),
            },
        )
    }
}

/// Decodes an 8-byte payload into a telemetry record.
///
/// Fails with `InvalidByteCount` unless exactly 8 bytes are given, and with
/// `OutOfDomain` when the battery-temperature byte (checked first) or the
/// board-temperature byte falls outside its formula's domain.  The result
/// is a pure function of the byte sequence.
pub fn decode_telemetry(bytes: &[u8]) -> (result: Result<BotanTelemetry, DecodeError>)
    ensures
        result == spec_decode_telemetry(bytes@),
{
    if bytes.len() != 8 {
        return Err(DecodeError::InvalidByteCount);
    }
    let bat_t_raw = bytes[2];
    if bat_t_raw == 0 || (bat_t_raw as u32) * 1289 > 330000 {
        return Err(DecodeError::OutOfDomain);
    }
    let bpb_t_raw = bytes[3];
    if (bpb_t_raw as u32) * 6875 > 3644506 {
        return Err(DecodeError::OutOfDomain);
    }
    Ok(
        BotanTelemetry {
            bat_v_raw: bytes[0],
            bat_i_raw: bytes[1],
            bat_t_raw,
            bpb_t_raw,
            raw_i_raw: bytes[4],
            data1: decode_data1(bytes[5]),
            data2: decode_data2(bytes[6]),
            data3: decode_data3(bytes[7]),
        },
    )
}

/// Law: the payload decoder is deterministic; equal byte sequences decode
/// to equal outcomes, fields and errors alike.
pub proof fn lemma_decode_telemetry_deterministic(bytes1: Seq<u8>, bytes2: Seq<u8>)
    requires
        bytes1 == bytes2,
    ensures
        spec_decode_telemetry(bytes1) == spec_decode_telemetry(bytes2),
{
}

/// Law: the battery-temperature domain check fails exactly on byte 0.  The
/// scaled comparison byte * 1289 > 330000 would need a byte above 255, so
/// within a real byte only the zero numerator makes the logarithm argument
/// non-positive.
pub proof fn lemma_bat_t_domain_threshold(byte: u8)
    ensures
        bat_t_out_of_domain(byte) <==> byte == 0,
{
}

/// Law: the board-temperature domain check never fails for a real byte; the
/// scaled comparison byte * 6875 > 3644506 would need a byte above 530.
pub proof fn lemma_bpb_t_never_out_of_domain(byte: u8)
    ensures
        !bpb_t_out_of_domain(byte),
{
}

/// Law: decoding succeeds on exactly the 8-byte sequences whose battery-
/// temperature byte is not zero.
pub proof fn lemma_decode_telemetry_ok(bytes: Seq<u8>)
    ensures
        spec_decode_telemetry(bytes) is Ok <==> bytes.len() == 8 && bytes[2] != 0,
{
    if bytes.len() == 8 {
        lemma_bat_t_domain_threshold(bytes[2]);
        lemma_bpb_t_never_out_of_domain(bytes[3]);
    }
}

} // verus!
