use vstd::prelude::*;

verus! {

/// Whether `c` is a hexadecimal digit, in either letter case.
pub open spec fn is_hex_digit(c: char) -> bool {
    (48 <= c as u32 && c as u32 <= 57)  // '0' to '9'
    || (65 <= c as u32 && c as u32 <= 70)  // 'A' to 'F'
    || (97 <= c as u32 && c as u32 <= 102)  // 'a' to 'f'
}

/// The value of a hexadecimal digit, 0 to 15.
pub open spec fn hex_digit_value(c: char) -> u8 {
    if 48 <= c as u32 && c as u32 <= 57 {
        (c as u32 - 48) as u8
    } else if 65 <= c as u32 && c as u32 <= 70 {
        (c as u32 - 55) as u8
    } else {
        (c as u32 - 87) as u8
    }
}

/// The byte written as the two hexadecimal digits `hi`, `lo`.
pub open spec fn hex_byte(hi: char, lo: char) -> u8 {
    (hex_digit_value(hi) * 16 + hex_digit_value(lo)) as u8
}

/// Whether every character of `s` is a hexadecimal digit.
pub open spec fn all_hex(s: Seq<char>) -> bool {
    forall|i: int| 0 <= i < s.len() ==> is_hex_digit(s[i])
}

/// The index of the first character of `s` that is not a hexadecimal digit
/// (the length of `s` if there is none).
pub open spec fn first_non_hex(s: Seq<char>) -> nat
    decreases s.len(),
{
    if s.len() == 0 || !is_hex_digit(s[0]) {
        0
    } else {
        1 + first_non_hex(s.drop_first())
    }
}

/// The bytes written by the adjacent 2-digit groups of `s`, left to right.
pub open spec fn hex_pairs(s: Seq<char>) -> Seq<u8> {
    Seq::new((s.len() / 2) as nat, |i: int| hex_byte(s[2 * i], s[2 * i + 1]))
}

/// `first_non_hex` is the unique cut point: every character before it is a
/// hexadecimal digit and the character at it, if any, is not.
pub proof fn lemma_first_non_hex_at(s: Seq<char>, k: int)
    requires
        0 <= k <= s.len(),
        forall|j: int| 0 <= j < k ==> is_hex_digit(s[j]),
        k == s.len() || !is_hex_digit(s[k]),
    ensures
        first_non_hex(s) == k,
    decreases s.len(),
{
    if k == 0 {
    } else {
        assert(is_hex_digit(s[0]));
        lemma_first_non_hex_at(s.drop_first(), k - 1);
    }
}

/// The value of one hexadecimal digit, or `None` for any other character.
pub fn hex_digit(c: char) -> (value: Option<u8>)
    ensures
        value matches Some(v) ==> is_hex_digit(c) && v == hex_digit_value(c) && v < 16,
        value is None ==> !is_hex_digit(c),
{
    let code = c as u32;
    if 48 <= code && code <= 57 {
        Some((code - 48) as u8)
    } else if 65 <= code && code <= 70 {
        Some((code - 55) as u8)
    } else if 97 <= code && code <= 102 {
        Some((code - 87) as u8)
    } else {
        None
    }
}

/// Converts a string of 2-digit hexadecimal groups to its bytes, left to
/// right, or reports the index of its first non-hexadecimal character.
pub fn hex_pairs_of(s: &str) -> (result: Result<Vec<u8>, usize>)
    requires
        s@.len() % 2 == 0,
    ensures
        match result {
            Ok(bytes) => all_hex(s@) && bytes@ == hex_pairs(s@),
            Err(position) => !all_hex(s@) && position == first_non_hex(s@),
        },
{
    let n = s.unicode_len();
    let mut bytes: Vec<u8> = Vec::new();
    let mut i: usize = 0;
    while i < n
        invariant
            0 <= i <= n,
            n == s@.len(),
            n % 2 == 0,
            i % 2 == 0,
            forall|j: int| 0 <= j < i ==> is_hex_digit(s@[j]),
            bytes@.len() == i / 2,
            forall|j: int| 0 <= j < i / 2 ==> bytes@[j] == hex_byte(s@[2 * j], s@[2 * j + 1]),
        decreases n - i,
    {
        let hi = match hex_digit(s.get_char(i)) {
            Some(v) => v,
            None => {
                proof {
                    lemma_first_non_hex_at(s@, i as int);
                }
                return Err(i);
            },
        };
        let lo = match hex_digit(s.get_char(i + 1)) {
            Some(v) => v,
            None => {
                proof {
                    lemma_first_non_hex_at(s@, i as int + 1);
                }
                return Err(i + 1);
            },
        };
        bytes.push(hi * 16 + lo);
        i = i + 2;
    }
    proof {
        assert(bytes@ =~= hex_pairs(s@));
    }
    Ok(bytes)
}

} // verus!
