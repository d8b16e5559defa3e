use botan_beacon::create_custom_decoder;
use botan_beacon::create_extended_decoder;
use botan_beacon::load_botan_definitions;
use botan_beacon::BotanDecoder;

#[test]
fn test_custom_decoder() {
    let decoder = create_custom_decoder();
    assert_eq!(decoder.decode("X").unwrap(), "EXAMPLE1");
}

#[test]
fn test_extended_decoder() {
    let decoder = create_extended_decoder();
    assert_eq!(decoder.decode("CUSTOM1").unwrap(), "VALUE1");
}

#[test]
fn test_extended_decoder_keeps_defaults() {
    let decoder = create_extended_decoder();
    assert_eq!(decoder.decode(".- -...").unwrap(), "AB");
    assert_eq!(decoder.decode("CUSTOM2").unwrap(), "VALUE2");
}

#[test]
fn test_load_botan_definitions() {
    let definitions = load_botan_definitions();
    let decoder = BotanDecoder::with_custom_mappings(definitions);
    assert_eq!(decoder.decode("PATTERN1").unwrap(), "DECODED1");
    assert_eq!(decoder.decode("PATTERN2").unwrap(), "DECODED2");
}
