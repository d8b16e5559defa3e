use vstd::prelude::*;
use vstd::pervasive::VecAdditionalExecFns;

use crate::botan_parser::parse_botan_beacon;
use crate::botan_parser::spec_parse;
use crate::botan_parser::BeaconModel;
use crate::botan_parser::BotanBeaconData;
use crate::error::DecodeError;
use crate::text::all_space;
use crate::text::find_char;
use crate::text::find_char_at;
use crate::text::find_double_space_at;
use crate::text::is_blank;
use crate::text::seq_views;
use crate::text::space_tokens;
use crate::text::split_char;
use crate::text::split_double_space;
use crate::text::str_eq;
use crate::text::tokenize_by;
use crate::text::trim_spec;
use crate::text::trim_str;

verus! {

/// A substitution decoder for CW beacon messages: a table mapping pattern
/// strings to replacement strings, applied to space-separated patterns.
///
/// The table is an association list looked up front to back; updating a
/// pattern replaces its first entry, so each pattern's visible mapping is
/// unique even though the list itself may not be.
pub struct BotanDecoder {
    /// The mapping table, in insertion order.
    pub entries: Vec<(String, String)>,
}

/// The views of a table's entries.
pub open spec fn entry_views(entries: Seq<(String, String)>) -> Seq<(Seq<char>, Seq<char>)> {
    Seq::new(entries.len(), |i: int| (entries[i].0@, entries[i].1@))
}

impl View for BotanDecoder {
    type V = Seq<(Seq<char>, Seq<char>)>;

    open spec fn view(&self) -> Seq<(Seq<char>, Seq<char>)> {
        entry_views(self.entries@)
    }
}

/// The replacement for `pattern`: the value of the first table entry
/// whose key is `pattern`, if any.
pub open spec fn spec_lookup(
    table: Seq<(Seq<char>, Seq<char>)>,
    pattern: Seq<char>,
) -> Option<Seq<char>>
    decreases table.len(),
{
    if table.len() == 0 {
        None
    } else if table[0].0 == pattern {
        Some(table[0].1)
    } else {
        spec_lookup(table.drop_first(), pattern)
    }
}

/// The index of the first table entry whose key is `pattern`, or -1.
pub open spec fn find_key(table: Seq<(Seq<char>, Seq<char>)>, pattern: Seq<char>) -> int
    decreases table.len(),
{
    if table.len() == 0 {
        -1
    } else if table[0].0 == pattern {
        0
    } else {
        let tail = find_key(table.drop_first(), pattern);
        if tail == -1 {
            -1
        } else {
            tail + 1
        }
    }
}

/// The table after mapping `pattern` to `value`: the first entry for
/// `pattern` is replaced, or a new entry is appended.
pub open spec fn upsert(
    table: Seq<(Seq<char>, Seq<char>)>,
    pattern: Seq<char>,
    value: Seq<char>,
) -> Seq<(Seq<char>, Seq<char>)> {
    let i = find_key(table, pattern);
    if i == -1 {
        table.push((pattern, value))
    } else {
        table.update(i, (pattern, value))
    }
}

pub proof fn lemma_find_key_at(table: Seq<(Seq<char>, Seq<char>)>, pattern: Seq<char>, k: int)
    requires
        0 <= k < table.len(),
        table[k].0 == pattern,
        forall|j: int| 0 <= j < k ==> (#[trigger] table[j]).0 != pattern,
    ensures
        find_key(table, pattern) == k,
    decreases table.len(),
{
    if k == 0 {
    } else {
        assert(table[0].0 != pattern);
        lemma_find_key_at(table.drop_first(), pattern, k - 1);
    }
}

pub proof fn lemma_find_key_none(table: Seq<(Seq<char>, Seq<char>)>, pattern: Seq<char>)
    requires
        forall|j: int| 0 <= j < table.len() ==> (#[trigger] table[j]).0 != pattern,
    ensures
        find_key(table, pattern) == -1,
    decreases table.len(),
{
    if table.len() == 0 {
    } else {
        lemma_find_key_none(table.drop_first(), pattern);
    }
}

/// The keys of a table, in order.
pub open spec fn keys_of(table: Seq<(Seq<char>, Seq<char>)>) -> Seq<Seq<char>> {
    Seq::new(table.len(), |i: int| table[i].0)
}

/// Decoding one word's patterns: each pattern replaced by its mapping and
/// the replacements concatenated, or `UnknownPattern` at the first miss.
pub open spec fn spec_decode_patterns(
    table: Seq<(Seq<char>, Seq<char>)>,
    patterns: Seq<Seq<char>>,
) -> Result<Seq<char>, DecodeError>
    decreases patterns.len(),
{
    if patterns.len() == 0 {
        Ok(Seq::empty())
    } else {
        match spec_lookup(table, patterns[0]) {
            None => Err(DecodeError::UnknownPattern),
            Some(value) => match spec_decode_patterns(table, patterns.drop_first()) {
                Err(e) => Err(e),
                Ok(rest) => Ok(value + rest),
            },
        }
    }
}

/// Decoding a sequence of words: each word's space-separated patterns
/// decoded and the words joined by single spaces, in order, stopping at
/// the first failure.
pub open spec fn spec_decode_words(
    table: Seq<(Seq<char>, Seq<char>)>,
    words: Seq<Seq<char>>,
) -> Result<Seq<char>, DecodeError>
    decreases words.len(),
{
    if words.len() == 0 {
        Ok(Seq::empty())
    } else if words.len() == 1 {
        spec_decode_patterns(table, space_tokens(words[0]))
    } else {
        match spec_decode_patterns(table, space_tokens(words[0])) {
            Err(e) => Err(e),
            Ok(first) => match spec_decode_words(table, words.drop_first()) {
                Err(e) => Err(e),
                Ok(rest) => Ok(first + seq![' '] + rest),
            },
        }
    }
}

/// What decoding an input against a table returns: the empty string for a
/// blank input; otherwise the input's words (separated by double spaces)
/// decoded and joined by single spaces.
pub open spec fn spec_decode(
    table: Seq<(Seq<char>, Seq<char>)>,
    input: Seq<char>,
) -> Result<Seq<char>, DecodeError> {
    if all_space(input) {
        Ok(Seq::empty())
    } else {
        spec_decode_words(table, split_double_space(input))
    }
}

/// One configuration line's mapping: `pattern = value` with both sides
/// nonempty after trimming.  Blank lines, comment lines starting with
/// `#`, and lines without `=` or with an empty side carry no mapping.
pub open spec fn spec_config_line(line: Seq<char>) -> Option<(Seq<char>, Seq<char>)> {
    let t = trim_spec(line);
    if t.len() == 0 || t[0] == '#' {
        None
    } else {
        let e = find_char(t, '=');
        if e == -1 {
            None
        } else {
            let pattern = trim_spec(t.take(e));
            let value = trim_spec(t.skip(e + 1));
            if pattern.len() > 0 && value.len() > 0 {
                Some((pattern, value))
            } else {
                None
            }
        }
    }
}

/// The mappings of a configuration text's lines, in order.
pub open spec fn spec_config_entries(lines: Seq<Seq<char>>) -> Seq<(Seq<char>, Seq<char>)>
    decreases lines.len(),
{
    if lines.len() == 0 {
        Seq::empty()
    } else {
        match spec_config_line(lines[0]) {
            None => spec_config_entries(lines.drop_first()),
            Some(pair) => seq![pair] + spec_config_entries(lines.drop_first()),
        }
    }
}

/// A table extended by a sequence of mappings, each applied as `upsert`:
/// a later mapping for the same pattern overwrites an earlier one.
pub open spec fn apply_entries(
    table: Seq<(Seq<char>, Seq<char>)>,
    entries: Seq<(Seq<char>, Seq<char>)>,
) -> Seq<(Seq<char>, Seq<char>)>
    decreases entries.len(),
{
    if entries.len() == 0 {
        table
    } else {
        apply_entries(upsert(table, entries[0].0, entries[0].1), entries.drop_first())
    }
}

/// The default table: the international Morse code patterns for the
/// letters A to Z and the digits 0 to 9.
pub open spec fn default_mappings() -> Seq<(Seq<char>, Seq<char>)> {
    seq![
        (".-"@, "A"@),
        ("-..."@, "B"@),
        ("-.-."@, "C"@),
        ("-.."@, "D"@),
        ("."@, "E"@),
        ("..-."@, "F"@),
        ("--."@, "G"@),
        ("...."@, "H"@),
        (".."@, "I"@),
        (".---"@, "J"@),
        ("-.-"@, "K"@),
        (".-.."@, "L"@),
        ("--"@, "M"@),
        ("-."@, "N"@),
        ("---"@, "O"@),
        (".--."@, "P"@),
        ("--.-"@, "Q"@),
        (".-."@, "R"@),
        ("..."@, "S"@),
        ("-"@, "T"@),
        ("..-"@, "U"@),
        ("...-"@, "V"@),
        (".--"@, "W"@),
        ("-..-"@, "X"@),
        ("-.--"@, "Y"@),
        ("--.."@, "Z"@),
        (".----"@, "1"@),
        ("..---"@, "2"@),
        ("...--"@, "3"@),
        ("....-"@, "4"@),
        ("....."@, "5"@),
        ("-...."@, "6"@),
        ("--..."@, "7"@),
        ("---.."@, "8"@),
        ("----."@, "9"@),
        ("-----"@, "0"@),
    ]
}

/// Appends the pair of owned copies of two string slices.
pub(crate) fn push_pair(entries: &mut Vec<(String, String)>, pattern: &str, decoded: &str)
    ensures
        entry_views(final(entries)@) == entry_views(old(entries)@).push((pattern@, decoded@)),
{
    entries.push((pattern.to_owned(), decoded.to_owned()));
    proof {
        assert(entry_views(entries@) =~= entry_views(old(entries)@).push((pattern@, decoded@)));
    }
}

impl BotanDecoder {
    /// A decoder loaded with the default Morse code table.
    pub fn new() -> (decoder: BotanDecoder)
        ensures
            decoder@ == default_mappings(),
    {
        let mut entries: Vec<(String, String)> = Vec::new();
        push_pair(&mut entries, ".-", "A");
        push_pair(&mut entries, "-...", "B");
        push_pair(&mut entries, "-.-.", "C");
        push_pair(&mut entries, "-..", "D");
        push_pair(&mut entries, ".", "E");
        push_pair(&mut entries, "..-.", "F");
        push_pair(&mut entries, "--.", "G");
        push_pair(&mut entries, "....", "H");
        push_pair(&mut entries, "..", "I");
        push_pair(&mut entries, ".---", "J");
        push_pair(&mut entries, "-.-", "K");
        push_pair(&mut entries, ".-..", "L");
        push_pair(&mut entries, "--", "M");
        push_pair(&mut entries, "-.", "N");
        push_pair(&mut entries, "---", "O");
        push_pair(&mut entries, ".--.", "P");
        push_pair(&mut entries, "--.-", "Q");
        push_pair(&mut entries, ".-.", "R");
        push_pair(&mut entries, "...", "S");
        push_pair(&mut entries, "-", "T");
        push_pair(&mut entries, "..-", "U");
        push_pair(&mut entries, "...-", "V");
        push_pair(&mut entries, ".--", "W");
        push_pair(&mut entries, "-..-", "X");
        push_pair(&mut entries, "-.--", "Y");
        push_pair(&mut entries, "--..", "Z");
        push_pair(&mut entries, ".----", "1");
        push_pair(&mut entries, "..---", "2");
        push_pair(&mut entries, "...--", "3");
        push_pair(&mut entries, "....-", "4");
        push_pair(&mut entries, ".....", "5");
        push_pair(&mut entries, "-....", "6");
        push_pair(&mut entries, "--...", "7");
        push_pair(&mut entries, "---..", "8");
        push_pair(&mut entries, "----.", "9");
        push_pair(&mut entries, "-----", "0");
        let decoder = BotanDecoder { entries };
        proof {
            assert(decoder@ =~= default_mappings());
        }
        decoder
    }

    /// A decoder over a caller-supplied table, in the given order.
    pub fn with_custom_mappings(mappings: Vec<(String, String)>) -> (decoder: BotanDecoder)
        ensures
            decoder@ == entry_views(mappings@),
    {
        BotanDecoder { entries: mappings }
    }

    /// A decoder loaded from a configuration text of `pattern = value`
    /// lines; `#` starts a comment line, and a later line for the same
    /// pattern overwrites an earlier one.
    pub fn from_config_str(content: &str) -> (decoder: BotanDecoder)
        ensures
            decoder@ == apply_entries(
                Seq::empty(),
                spec_config_entries(split_char(content@, '\n')),
            ),
    {
        let mut decoder = BotanDecoder { entries: Vec::new() };
        proof {
            assert(decoder@ =~= Seq::<(Seq<char>, Seq<char>)>::empty());
        }
        decoder.apply_config(content);
        decoder
    }

    /// Adds or updates one mapping, as `upsert` describes.
    pub fn add_mapping(&mut self, pattern: String, decoded: String)
        ensures
            final(self)@ == upsert(old(self)@, pattern@, decoded@),
    {
        let n = self.entries.len();
        let mut i: usize = 0;
        while i < n
            invariant
                0 <= i <= n,
                n == self.entries@.len(),
                self.entries@ == old(self).entries@,
                forall|j: int| 0 <= j < i ==> (#[trigger] entry_views(self.entries@)[j]).0
                    != pattern@,
            decreases n - i,
        {
            if str_eq(self.entries[i].0.as_str(), pattern.as_str()) {
                proof {
                    lemma_find_key_at(entry_views(self.entries@), pattern@, i as int);
                }
                self.entries.set(i, (pattern, decoded));
                proof {
                    assert(entry_views(self.entries@) =~= upsert(
                        entry_views(old(self).entries@),
                        pattern@,
                        decoded@,
                    ));
                }
                return ;
            }
            i = i + 1;
        }
        proof {
            lemma_find_key_none(entry_views(self.entries@), pattern@);
        }
        self.entries.push((pattern, decoded));
        proof {
            assert(entry_views(self.entries@) =~= upsert(
                entry_views(old(self).entries@),
                pattern@,
                decoded@,
            ));
        }
    }

    /// All patterns of the table, in table order.
    pub fn get_patterns(&self) -> (patterns: Vec<String>)
        ensures
            seq_views(patterns@) == keys_of(self@),
    {
        let mut patterns: Vec<String> = Vec::new();
        let n = self.entries.len();
        let mut i: usize = 0;
        while i < n
            invariant
                0 <= i <= n,
                n == self.entries@.len(),
                patterns@.len() == i,
                forall|j: int| 0 <= j < i ==> (#[trigger] patterns@[j])@ == self.entries@[j].0@,
            decreases n - i,
        {
            patterns.push(self.entries[i].0.clone());
            i = i + 1;
        }
        proof {
            assert(seq_views(patterns@) =~= keys_of(entry_views(self.entries@)));
        }
        patterns
    }

    /// The replacement for one pattern, as `spec_lookup` describes.
    fn lookup(&self, pattern: &str) -> (result: Option<String>)
        ensures
            match result {
                Some(value) => spec_lookup(self@, pattern@) == Some(value@),
                None => spec_lookup(self@, pattern@) is None,
            },
    {
        let n = self.entries.len();
        let mut i: usize = 0;
        proof {
            assert(entry_views(self.entries@).skip(0) =~= entry_views(self.entries@));
        }
        while i < n
            invariant
                0 <= i <= n,
                n == self.entries@.len(),
                spec_lookup(entry_views(self.entries@), pattern@) == spec_lookup(
                    entry_views(self.entries@).skip(i as int),
                    pattern@,
                ),
            decreases n - i,
        {
            if str_eq(self.entries[i].0.as_str(), pattern) {
                return Some(self.entries[i].1.clone());
            }
            i = i + 1;
            proof {
                assert(entry_views(self.entries@).skip(i - 1).drop_first() =~= entry_views(
                    self.entries@,
                ).skip(i as int));
            }
        }
        proof {
            assert(entry_views(self.entries@).skip(n as int)
                =~= Seq::<(Seq<char>, Seq<char>)>::empty());
        }
        None
    }

    /// Decodes the space-separated patterns of one word and concatenates
    /// their replacements.
    fn decode_word(&self, word: &str) -> (result: Result<String, DecodeError>)
        ensures
            match result {
                Ok(decoded) => spec_decode_patterns(self@, space_tokens(word@)) == Ok::<
                    Seq<char>,
                    DecodeError,
                >(decoded@),
                Err(e) => spec_decode_patterns(self@, space_tokens(word@)) == Err::<
                    Seq<char>,
                    DecodeError,
                >(e),
            },
    {
        let patterns = tokenize_by(word, true);
        let ghost views = space_tokens(word@);
        let mut out = String::new();
        let n = patterns.len();
        let mut i: usize = 0;
        proof {
            assert(views.skip(0) =~= views);
        }
        while i < n
            invariant
                0 <= i <= n,
                n == patterns@.len(),
                seq_views(patterns@) == views,
                views == space_tokens(word@),
                match spec_decode_patterns(self@, views.skip(i as int)) {
                    Ok(rest) => spec_decode_patterns(self@, views) == Ok::<Seq<char>, DecodeError>(
                        out@ + rest,
                    ),
                    Err(e) => spec_decode_patterns(self@, views) == Err::<Seq<char>, DecodeError>(
                        e,
                    ),
                },
            decreases n - i,
        {
            let ghost prev_out = out@;
            match self.lookup(patterns[i].as_str()) {
                None => {
                    proof {
                        assert(seq_views(patterns@)[i as int] == patterns@[i as int]@);
                        assert(views.skip(i as int)[0] == views[i as int]);
                    }
                    return Err(DecodeError::UnknownPattern);
                },
                Some(value) => {
                    out.append(value.as_str());
                    proof {
                        assert(seq_views(patterns@)[i as int] == patterns@[i as int]@);
                        assert(views.skip(i as int)[0] == views[i as int]);
                        assert(views.skip(i as int).drop_first() =~= views.skip(i as int + 1));
                        if spec_decode_patterns(self@, views.skip(i as int + 1)) is Ok {
                            let rest = spec_decode_patterns(
                                self@,
                                views.skip(i as int + 1),
                            )->Ok_0;
                            assert(prev_out + (value@ + rest) =~= out@ + rest);
                        }
                    }
                },
            }
            i = i + 1;
        }
        proof {
            assert(views.skip(n as int) =~= Seq::<Seq<char>>::empty());
            assert(out@ + Seq::<char>::empty() =~= out@);
        }
        Ok(out)
    }

    /// Decodes the words of a non-blank input, joining them by single
    /// spaces, as `spec_decode_words` of the double-space split describes.
    fn decode_words(&self, input: &str) -> (result: Result<String, DecodeError>)
        ensures
            match result {
                Ok(decoded) => spec_decode_words(self@, split_double_space(input@)) == Ok::<
                    Seq<char>,
                    DecodeError,
                >(decoded@),
                Err(e) => spec_decode_words(self@, split_double_space(input@)) == Err::<
                    Seq<char>,
                    DecodeError,
                >(e),
            },
        decreases input@.len(),
    {
        let n = input.unicode_len();
        match find_double_space_at(input) {
            None => self.decode_word(input),
            Some(k) => {
                let word = input.substring_char(0, k);
                let rest = input.substring_char(k + 2, n);
                proof {
                    assert(word@ =~= input@.take(k as int));
                    assert(rest@ =~= input@.skip(k as int + 2));
                    assert((seq![input@.take(k as int)] + split_double_space(
                        input@.skip(k as int + 2),
                    )).drop_first() =~= split_double_space(input@.skip(k as int + 2)));
                }
                let first = match self.decode_word(word) {
                    Ok(decoded) => decoded,
                    Err(e) => {
                        return Err(e);
                    },
                };
                let rest_decoded = match self.decode_words(rest) {
                    Ok(decoded) => decoded,
                    Err(e) => {
                        return Err(e);
                    },
                };
                let mut out = first;
                let ghost first_view = out@;
                out.append(" ");
                out.append(rest_decoded.as_str());
                proof {
                    reveal_strlit(" ");
                    assert(" "@ =~= seq![' ']);
                    assert(out@ =~= first_view + seq![' '] + rest_decoded@);
                }
                Ok(out)
            },
        }
    }

    /// Decodes a CW beacon string: patterns separated by single spaces,
    /// words separated by double spaces.  A blank input decodes to the
    /// empty string; an unmapped pattern fails with `UnknownPattern`.
    /// Pure: the outcome is exactly `spec_decode` of the input and table.
    pub fn decode(&self, input: &str) -> (result: Result<String, DecodeError>)
        ensures
            match result {
                Ok(decoded) => spec_decode(self@, input@) == Ok::<Seq<char>, DecodeError>(
                    decoded@,
                ),
                Err(e) => spec_decode(self@, input@) == Err::<Seq<char>, DecodeError>(e),
            },
    {
        if is_blank(input) {
            let empty = String::new();
            return Ok(empty);
        }
        self.decode_words(input)
    }

    /// Applies every mapping line of a configuration text to the table.
    fn apply_config(&mut self, content: &str)
        ensures
            final(self)@ == apply_entries(
                old(self)@,
                spec_config_entries(split_char(content@, '\n')),
            ),
        decreases content@.len(),
    {
        let n = content.unicode_len();
        match find_char_at(content, '\n') {
            None => {
                self.apply_config_line(content);
                proof {
                    let lines = split_char(content@, '\n');
                    assert(lines =~= seq![content@]);
                    assert(lines[0] == content@);
                    assert(lines.drop_first() =~= Seq::<Seq<char>>::empty());
                    assert(spec_config_entries(Seq::<Seq<char>>::empty()) == Seq::<
                        (Seq<char>, Seq<char>),
                    >::empty());
                    match spec_config_line(content@) {
                        None => {},
                        Some(pair) => {
                            assert(seq![pair] + Seq::<(Seq<char>, Seq<char>)>::empty()
                                =~= seq![pair]);
                        },
                    }
                    lemma_apply_entries_one(old(self)@, spec_config_line(content@));
                }
            },
            Some(k) => {
                let line = content.substring_char(0, k);
                let rest = content.substring_char(k + 1, n);
                proof {
                    assert(line@ =~= content@.take(k as int));
                    assert(rest@ =~= content@.skip(k as int + 1));
                }
                self.apply_config_line(line);
                self.apply_config(rest);
                proof {
                    let lines = split_char(content@, '\n');
                    let rest_lines = split_char(content@.skip(k as int + 1), '\n');
                    assert(lines =~= seq![content@.take(k as int)] + rest_lines);
                    assert(lines[0] == content@.take(k as int));
                    assert(lines.drop_first() =~= rest_lines);
                    lemma_apply_entries_cons(
                        old(self)@,
                        spec_config_line(line@),
                        spec_config_entries(rest_lines),
                    );
                }
            },
        }
    }

    /// Applies one configuration line's mapping to the table, if the line
    /// carries one.
    fn apply_config_line(&mut self, line: &str)
        ensures
            final(self)@ == match spec_config_line(line@) {
                None => old(self)@,
                Some(pair) => upsert(old(self)@, pair.0, pair.1),
            },
    {
        let trimmed = trim_str(line);
        let m = trimmed.unicode_len();
        if m == 0 {
            return ;
        }
        if trimmed.get_char(0) == '#' {
            return ;
        }
        match find_char_at(trimmed, '=') {
            None => {},
            Some(e) => {
                let pattern = trim_str(trimmed.substring_char(0, e));
                let value = trim_str(trimmed.substring_char(e + 1, m));
                proof {
                    assert(trimmed@.subrange(0, e as int) =~= trimmed@.take(e as int));
                    assert(trimmed@.subrange(e as int + 1, m as int) =~= trimmed@.skip(
                        e as int + 1,
                    ));
                }
                if pattern.unicode_len() > 0 && value.unicode_len() > 0 {
                    self.add_mapping(pattern.to_owned(), value.to_owned());
                }
            },
        }
    }
}

/// `apply_entries` over the entries of a single line.
proof fn lemma_apply_entries_one(
    table: Seq<(Seq<char>, Seq<char>)>,
    line: Option<(Seq<char>, Seq<char>)>,
)
    ensures
        (match line {
            None => table,
            Some(pair) => upsert(table, pair.0, pair.1),
        }) == apply_entries(
            table,
            match line {
                None => Seq::<(Seq<char>, Seq<char>)>::empty(),
                Some(pair) => seq![pair],
            },
        ),
{
    match line {
        None => {},
        Some(pair) => {
            assert(seq![pair].drop_first() =~= Seq::<(Seq<char>, Seq<char>)>::empty());
            assert(seq![pair][0] == pair);
            assert(apply_entries(
                upsert(table, pair.0, pair.1),
                Seq::<(Seq<char>, Seq<char>)>::empty(),
            ) == upsert(table, pair.0, pair.1));
        },
    }
}

/// `apply_entries` over a line's entries followed by further entries.
proof fn lemma_apply_entries_cons(
    table: Seq<(Seq<char>, Seq<char>)>,
    line: Option<(Seq<char>, Seq<char>)>,
    rest: Seq<(Seq<char>, Seq<char>)>,
)
    ensures
        apply_entries(
            match line {
                None => table,
                Some(pair) => upsert(table, pair.0, pair.1),
            },
            rest,
        ) == apply_entries(
            table,
            match line {
                None => rest,
                Some(pair) => seq![pair] + rest,
            },
        ),
{
    match line {
        None => {},
        Some(pair) => {
            assert((seq![pair] + rest).drop_first() =~= rest);
            assert((seq![pair] + rest)[0] == pair);
        },
    }
}

impl Default for BotanDecoder {
    /// The default decoder: the Morse code table.
    fn default() -> (decoder: Self)
        ensures
            decoder@ == default_mappings(),
    {
        BotanDecoder::new()
    }
}

/// Parses a beacon line into its structured record: the entry point the
/// front end calls for beacon input.  Rendering the record as text is the
/// front end's concern, not the library's.
pub fn decode_botan_beacon(input: &str) -> (result: Result<BotanBeaconData, DecodeError>)
    ensures
        match result {
            Ok(beacon) => spec_parse(input@) == Ok::<BeaconModel, DecodeError>(beacon@),
            Err(e) => spec_parse(input@) == Err::<BeaconModel, DecodeError>(e),
        },
{
    parse_botan_beacon(input)
}

} // verus!
