use botan_beacon::decode_botan_beacon;
use botan_beacon::BotanDecoder;
use botan_beacon::DecodeError;

#[test]
fn test_basic_decoding() {
    let decoder = BotanDecoder::new();

    // Single letters
    assert_eq!(decoder.decode(".-").unwrap(), "A");
    assert_eq!(decoder.decode("-...").unwrap(), "B");
    assert_eq!(decoder.decode("-.-.").unwrap(), "C");

    // Words (patterns separated by spaces)
    assert_eq!(decoder.decode(".- -...").unwrap(), "AB");
    assert_eq!(decoder.decode("... --- ...").unwrap(), "SOS");

    // Multiple words (separated by double spaces)
    assert_eq!(decoder.decode(".... ..  .-- --- .-. .-.. -..").unwrap(), "HI WORLD");
}

#[test]
fn test_numbers() {
    let decoder = BotanDecoder::new();
    assert_eq!(decoder.decode(".---- ..--- ...--").unwrap(), "123");
}

#[test]
fn test_unknown_pattern() {
    let decoder = BotanDecoder::new();
    assert!(decoder.decode(".-.-.-").is_err());
    assert_eq!(decoder.decode(".-.-.-").unwrap_err(), DecodeError::UnknownPattern);
}

#[test]
fn test_empty_input() {
    let decoder = BotanDecoder::new();
    assert_eq!(decoder.decode("").unwrap(), "");
    assert_eq!(decoder.decode("   ").unwrap(), "");
}

#[test]
fn test_custom_mappings() {
    let mut custom_map: Vec<(String, String)> = Vec::new();
    custom_map.push(("X".to_string(), "SPECIAL".to_string()));
    custom_map.push(("Y".to_string(), "CODE".to_string()));

    let decoder = BotanDecoder::with_custom_mappings(custom_map);
    assert_eq!(decoder.decode("X Y").unwrap(), "SPECIALCODE");
}

#[test]
fn test_add_mapping_overwrites() {
    let mut decoder = BotanDecoder::new();
    assert_eq!(decoder.decode(".-").unwrap(), "A");
    decoder.add_mapping(".-".to_string(), "ALPHA".to_string());
    assert_eq!(decoder.decode(".-").unwrap(), "ALPHA");
    decoder.add_mapping("NEW".to_string(), "FRESH".to_string());
    assert_eq!(decoder.decode("NEW").unwrap(), "FRESH");
}

#[test]
fn test_get_patterns() {
    let mut mappings: Vec<(String, String)> = Vec::new();
    mappings.push(("A1".to_string(), "X".to_string()));
    mappings.push(("B2".to_string(), "Y".to_string()));
    let decoder = BotanDecoder::with_custom_mappings(mappings);
    let patterns = decoder.get_patterns();
    assert_eq!(patterns, vec!["A1".to_string(), "B2".to_string()]);
}

#[test]
fn test_default_decoder() {
    let decoder = BotanDecoder::default();
    assert_eq!(decoder.decode("... --- ...").unwrap(), "SOS");
}

#[test]
fn test_from_config_str() {
    let content = "# comment line\n.- = ALPHA\n\nBAD LINE\nKEY =  VALUE \n.- = OVERRIDDEN\n";
    let decoder = BotanDecoder::from_config_str(content);
    // Later lines overwrite earlier ones
    assert_eq!(decoder.decode(".-").unwrap(), "OVERRIDDEN");
    // Values are trimmed
    assert_eq!(decoder.decode("KEY").unwrap(), "VALUE");
    // Comment and malformed lines add nothing
    assert!(decoder.decode("comment").is_err());
    assert!(decoder.decode("BAD").is_err());
}

#[test]
fn test_decode_botan_beacon_entry_point() {
    let record = decode_botan_beacon("BOTAN JS1YPT A57EB76823210E08").unwrap();
    assert_eq!(record.telemetry.bat_v_raw, 0xA5);
    assert!(decode_botan_beacon("WRONG JS1YPT A57EB76823210E08").is_err());
}
