use botan_beacon::parse_botan_beacon;
use botan_beacon::CurrentMission;
use botan_beacon::DecodeError;

#[test]
fn test_parse_valid_beacon() {
    let input = "BOTAN JS1YPT A57EB76823210E08";
    let result = parse_botan_beacon(input);
    assert!(result.is_ok());

    let beacon = result.unwrap();
    assert_eq!(beacon.satellite_name, "BOTAN");
    assert_eq!(beacon.call_sign, "JS1YPT");
}

#[test]
fn test_parse_invalid_header() {
    let input = "WRONG JS1YPT A57EB76823210E08";
    let result = parse_botan_beacon(input);
    assert!(result.is_err());
    assert_eq!(result.unwrap_err(), DecodeError::BadHeader);
}

#[test]
fn test_parse_invalid_data_length() {
    let input = "BOTAN JS1YPT A57EB768"; // Too short
    let result = parse_botan_beacon(input);
    assert!(result.is_err());
    assert_eq!(result.unwrap_err(), DecodeError::BadPayloadLength);
}

#[test]
fn test_parse_invalid_hex() {
    let input = "BOTAN JS1YPT G57EB76823210E08"; // 'G' is not valid hex
    let result = parse_botan_beacon(input);
    assert!(result.is_err());
    assert_eq!(result.unwrap_err(), DecodeError::BadHexDigit { position: 0 });
}

#[test]
fn test_example_beacon() {
    let input = "BOTAN JS1YPT A57EB76823210E08";
    let result = parse_botan_beacon(input);
    assert!(result.is_ok());

    let beacon = result.unwrap();
    assert_eq!(beacon.satellite_name, "BOTAN");
    assert_eq!(beacon.call_sign, "JS1YPT");

    // Byte 0 (A5 = 165): BAT_V = 165 * 0.025781 ≈ 4.254 V
    let bat_v = beacon.telemetry.bat_v_raw as f64 * 0.025781;
    assert!((bat_v - 4.254).abs() < 0.01);

    println!("Parsed beacon data:\n{:?}", beacon);
}

#[test]
fn test_different_beacon_values() {
    // Safe mid-range values that stay inside every formula's domain
    let input = "BOTAN JS1YPT 5050505050505050";
    let result = parse_botan_beacon(input);
    assert!(result.is_ok());

    if let Ok(beacon) = result {
        println!("Mid-range values beacon:\n{:?}", beacon);
    }

    // All zeros fails: the battery-temperature logarithm of 0 is undefined
    let input2 = "BOTAN JS1YPT 0000000000000000";
    let result2 = parse_botan_beacon(input2);
    if result2.is_err() {
        println!("Zero values correctly failed due to math constraints");
    }
    assert_eq!(result2.unwrap_err(), DecodeError::OutOfDomain);
}

#[test]
fn test_signal_quality_field() {
    let input = "BOTAN JS1YPT SI8640 A67C8D5E2AA13608";
    let beacon = parse_botan_beacon(input).unwrap();
    let signal = beacon.rssi.expect("signal field should be present");
    assert_eq!(signal.rssi_dbm, 0x86); // 134
    assert_eq!(signal.snr_db, 0x40); // 64
}

#[test]
fn test_signal_quality_absent() {
    let beacon = parse_botan_beacon("BOTAN JS1YPT A57EB76823210E08").unwrap();
    assert!(beacon.rssi.is_none());
}

#[test]
fn test_signal_quality_malformed() {
    // Wrong prefix
    let r = parse_botan_beacon("BOTAN JS1YPT XX8640 A67C8D5E2AA13608");
    assert_eq!(r.unwrap_err(), DecodeError::BadSignalQuality);
    // Wrong length
    let r = parse_botan_beacon("BOTAN JS1YPT SI864 A67C8D5E2AA13608");
    assert_eq!(r.unwrap_err(), DecodeError::BadSignalQuality);
    // Bad hex digit
    let r = parse_botan_beacon("BOTAN JS1YPT SI86Z0 A67C8D5E2AA13608");
    assert_eq!(r.unwrap_err(), DecodeError::BadSignalQuality);
}

#[test]
fn test_malformed_frames() {
    // Too few tokens
    assert_eq!(
        parse_botan_beacon("BOTAN JS1YPT").unwrap_err(),
        DecodeError::MalformedFrame
    );
    // Too many tokens
    assert_eq!(
        parse_botan_beacon("BOTAN JS1YPT SI8640 A57EB76823210E08 EXTRA").unwrap_err(),
        DecodeError::MalformedFrame
    );
    // Blank line
    assert_eq!(parse_botan_beacon("   ").unwrap_err(), DecodeError::MalformedFrame);
}

#[test]
fn test_wrong_call_sign() {
    let r = parse_botan_beacon("BOTAN WRONG1 A57EB76823210E08");
    assert_eq!(r.unwrap_err(), DecodeError::BadHeader);
}

#[test]
fn test_bad_hex_digit_position() {
    // First bad character is the 'X' at index 5 of the payload token
    let r = parse_botan_beacon("BOTAN JS1YPT A57EBX6823210E08");
    assert_eq!(r.unwrap_err(), DecodeError::BadHexDigit { position: 5 });
}

#[test]
fn test_whitespace_tolerated() {
    // Leading, trailing and repeated separators collapse away
    let input = "  BOTAN \t JS1YPT   A57EB76823210E08 \r\n";
    let beacon = parse_botan_beacon(input).unwrap();
    assert_eq!(beacon.telemetry.bat_v_raw, 0xA5);
}

#[test]
fn test_example_beacon_fields() {
    // Payload A5 7E B7 68 23 21 0E 08
    let beacon = parse_botan_beacon("BOTAN JS1YPT A57EB76823210E08").unwrap();
    let t = beacon.telemetry;
    assert_eq!(t.bat_v_raw, 0xA5);
    assert_eq!(t.bat_i_raw, 0x7E);
    assert_eq!(t.bat_t_raw, 0xB7);
    assert_eq!(t.bpb_t_raw, 0x68);
    assert_eq!(t.raw_i_raw, 0x23);
    // data1 = 0x21 = 0b00100001
    assert!(!t.data1.power_5v0);
    assert!(!t.data1.power_depant);
    assert!(t.data1.power_com);
    assert!(!t.data1.sap_x_pos);
    assert!(!t.data1.sap_y_pos);
    assert!(!t.data1.sap_y_neg);
    assert!(!t.data1.sap_z_pos);
    assert!(t.data1.sap_z_neg);
    // data2 = 0x0E = 0b00001110
    assert_eq!(t.data2.reserve_cmd_counter, 0);
    assert_eq!(t.data2.cmd_uplink_counter, 7);
    assert!(!t.data2.kill_sw);
    // data3 = 0x08 = 0b00001000
    assert_eq!(t.data3.kill_counter, 0);
    assert!(!t.data3.mission_pic_on);
    assert!(!t.data3.mis_error_flag);
    assert!(t.data3.mis_end_flag);
    assert!(!t.data3.aprs_flag);
    assert_eq!(t.data3.current_mis, 0);
    assert_eq!(t.data3.current_mission(), CurrentMission::NoMission);
}
