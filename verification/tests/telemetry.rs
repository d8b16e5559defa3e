use botan_beacon::decode_telemetry;
use botan_beacon::status::decode_data1;
use botan_beacon::status::decode_data2;
use botan_beacon::status::decode_data3;
use botan_beacon::CurrentMission;
use botan_beacon::DecodeError;

#[test]
fn test_decode_deterministic() {
    // Identical input bytes yield identical records, field for field
    let bytes = [0xA5, 0x7E, 0xB7, 0x68, 0x23, 0x21, 0x0E, 0x08];
    let first = decode_telemetry(&bytes).unwrap();
    let second = decode_telemetry(&bytes).unwrap();
    assert_eq!(first, second);
}

#[test]
fn test_invalid_byte_count() {
    let short = [0xA5, 0x7E, 0xB7, 0x68, 0x23, 0x21, 0x0E];
    assert_eq!(decode_telemetry(&short).unwrap_err(), DecodeError::InvalidByteCount);
    let long = [0u8; 9];
    assert_eq!(decode_telemetry(&long).unwrap_err(), DecodeError::InvalidByteCount);
}

#[test]
fn test_battery_temperature_domain_threshold() {
    // The logarithm argument is non-positive exactly when byte 2 is zero
    let bad = [0x01, 0x01, 0x00, 0x01, 0x01, 0x00, 0x00, 0x00];
    assert_eq!(decode_telemetry(&bad).unwrap_err(), DecodeError::OutOfDomain);
    for byte in 1..=255u8 {
        let good = [0x01, 0x01, byte, 0x01, 0x01, 0x00, 0x00, 0x00];
        assert!(decode_telemetry(&good).is_ok());
    }
}

#[test]
fn test_board_temperature_never_out_of_domain() {
    // 36.44506 - byte * 0.06875 stays non-negative for every byte
    for byte in 0..=255u8 {
        let bytes = [0x01, 0x01, 0x01, byte, 0x01, 0x00, 0x00, 0x00];
        assert!(decode_telemetry(&bytes).is_ok());
    }
}

#[test]
fn test_data1_round_trip() {
    // Each flag mirrors one bit; rebuilding the byte from the flags
    // reproduces it, for every byte value
    for byte in 0..=255u8 {
        let flags = decode_data1(byte);
        let rebuilt = (if flags.power_5v0 { 0x80u8 } else { 0 })
            | (if flags.power_depant { 0x40 } else { 0 })
            | (if flags.power_com { 0x20 } else { 0 })
            | (if flags.sap_x_pos { 0x10 } else { 0 })
            | (if flags.sap_y_pos { 0x08 } else { 0 })
            | (if flags.sap_y_neg { 0x04 } else { 0 })
            | (if flags.sap_z_pos { 0x02 } else { 0 })
            | (if flags.sap_z_neg { 0x01 } else { 0 });
        assert_eq!(rebuilt, byte);
    }
}

#[test]
fn test_data2_fields() {
    let flags = decode_data2(0xFF);
    assert_eq!(flags.reserve_cmd_counter, 7); // bits 7-4 masked to 3 bits
    assert_eq!(flags.cmd_uplink_counter, 7); // bits 3-1
    assert!(flags.kill_sw); // bit 0

    let flags = decode_data2(0xA4);
    // 0xA4 = 0b10100100: bits 7-4 = 1010 & 0111 = 2; bits 3-1 = 010 = 2; bit 0 = 0
    assert_eq!(flags.reserve_cmd_counter, 2);
    assert_eq!(flags.cmd_uplink_counter, 2);
    assert!(!flags.kill_sw);
}

#[test]
fn test_data3_fields() {
    let flags = decode_data3(0xE5);
    // 0xE5 = 0b11100101: kill 11 = 3; pic 1; err 0; end 0; aprs 1; mission 01
    assert_eq!(flags.kill_counter, 3);
    assert!(flags.mission_pic_on);
    assert!(!flags.mis_error_flag);
    assert!(!flags.mis_end_flag);
    assert!(flags.aprs_flag);
    assert_eq!(flags.current_mis, 1);
    assert_eq!(flags.current_mission(), CurrentMission::Earth);
}

#[test]
fn test_current_mission_categories() {
    assert_eq!(decode_data3(0x00).current_mission(), CurrentMission::NoMission);
    assert_eq!(decode_data3(0x01).current_mission(), CurrentMission::Earth);
    assert_eq!(decode_data3(0x02).current_mission(), CurrentMission::Sun);
    // Bits 1-0 = 11 is reserved and reported as the catch-all category
    assert_eq!(decode_data3(0x03).current_mission(), CurrentMission::Unknown);
}

#[test]
fn test_reserved_mission_pattern_in_payload() {
    // Payload byte 7 = 0x03: bits 1-0 = 11 decode to the Unknown category
    let bytes = [0x50, 0x50, 0x50, 0x50, 0x50, 0x00, 0x00, 0x03];
    let record = decode_telemetry(&bytes).unwrap();
    assert_eq!(record.data3.current_mis, 3);
    assert_eq!(record.data3.current_mission(), CurrentMission::Unknown);
}
