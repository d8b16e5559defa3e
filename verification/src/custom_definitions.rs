use vstd::prelude::*;

use crate::decoder::default_mappings;
use crate::decoder::entry_views;
use crate::decoder::push_pair;
use crate::decoder::upsert;
use crate::decoder::BotanDecoder;

verus! {

/// A decoder whose table holds only the example custom patterns, in place
/// of the default Morse table.
pub fn create_custom_decoder() -> (decoder: BotanDecoder)
    ensures
        decoder@ == seq![
            ("X"@, "EXAMPLE1"@),
            ("Y"@, "EXAMPLE2"@),
            ("Z"@, "EXAMPLE3"@),
        ],
{
    let mut custom_mappings: Vec<(String, String)> = Vec::new();
    push_pair(&mut custom_mappings, "X", "EXAMPLE1");
    push_pair(&mut custom_mappings, "Y", "EXAMPLE2");
    push_pair(&mut custom_mappings, "Z", "EXAMPLE3");
    let decoder = BotanDecoder::with_custom_mappings(custom_mappings);
    proof {
        assert(decoder@ =~= seq![("X"@, "EXAMPLE1"@), ("Y"@, "EXAMPLE2"@), ("Z"@, "EXAMPLE3"@)]);
    }
    decoder
}

/// The default decoder extended with the example additional mappings.
pub fn create_extended_decoder() -> (decoder: BotanDecoder)
    ensures
        decoder@ == upsert(
            upsert(default_mappings(), "CUSTOM1"@, "VALUE1"@),
            "CUSTOM2"@,
            "VALUE2"@,
        ),
{
    let mut decoder = BotanDecoder::new();
    decoder.add_mapping("CUSTOM1".to_owned(), "VALUE1".to_owned());
    decoder.add_mapping("CUSTOM2".to_owned(), "VALUE2".to_owned());
    decoder
}

/// The example placeholder definitions, as a mapping list ready for
/// [`BotanDecoder::with_custom_mappings`].
pub fn load_botan_definitions() -> (definitions: Vec<(String, String)>)
    ensures
        entry_views(definitions@) == seq![
            ("PATTERN1"@, "DECODED1"@),
            ("PATTERN2"@, "DECODED2"@),
        ],
{
    let mut definitions: Vec<(String, String)> = Vec::new();
    push_pair(&mut definitions, "PATTERN1", "DECODED1");
    push_pair(&mut definitions, "PATTERN2", "DECODED2");
    proof {
        assert(entry_views(definitions@) =~= seq![
            ("PATTERN1"@, "DECODED1"@),
            ("PATTERN2"@, "DECODED2"@),
        ]);
    }
    definitions
}

} // verus!
