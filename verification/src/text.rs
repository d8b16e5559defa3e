use vstd::prelude::*;

verus! {

/// ASCII whitespace: the characters that separate the tokens of a beacon
/// line.  The wire format is plain ASCII, so no other whitespace occurs.
pub open spec fn is_space(c: char) -> bool {
    c == ' ' || c == '\t' || c == '\r' || c == '\n'
}

/// The separator set of a tokenization: every ASCII whitespace character
/// for the beacon frame, the space alone for the pattern decoder.
pub open spec fn sep_pred(only_space: bool) -> spec_fn(char) -> bool {
    if only_space {
        |c: char| c == ' '
    } else {
        |c: char| is_space(c)
    }
}

/// The length of the longest prefix of `s` free of separators.
pub open spec fn prefix_len(s: Seq<char>, sp: spec_fn(char) -> bool) -> nat
    decreases s.len(),
{
    if s.len() == 0 || sp(s[0]) {
        0
    } else {
        1 + prefix_len(s.drop_first(), sp)
    }
}

pub proof fn lemma_prefix_len_le(s: Seq<char>, sp: spec_fn(char) -> bool)
    ensures
        prefix_len(s, sp) <= s.len(),
    decreases s.len(),
{
    if s.len() == 0 || sp(s[0]) {
    } else {
        lemma_prefix_len_le(s.drop_first(), sp);
    }
}

/// `prefix_len` is the unique cut point: every character before it is a
/// non-separator and the character at it, if any, is a separator.
pub proof fn lemma_prefix_len_at(s: Seq<char>, sp: spec_fn(char) -> bool, k: int)
    requires
        0 <= k <= s.len(),
        forall|j: int| 0 <= j < k ==> !sp(s[j]),
        k == s.len() || sp(s[k]),
    ensures
        prefix_len(s, sp) == k,
    decreases s.len(),
{
    if k == 0 {
    } else {
        assert(!sp(s[0]));
        lemma_prefix_len_at(s.drop_first(), sp, k - 1);
    }
}

/// The maximal separator-free runs of `s`, in order: what Rust's
/// whitespace splitting yields once empty fragments are dropped.
pub open spec fn tokens_by(s: Seq<char>, sp: spec_fn(char) -> bool) -> Seq<Seq<char>>
    decreases s.len(),
{
    if s.len() == 0 {
        Seq::empty()
    } else if sp(s[0]) {
        tokens_by(s.drop_first(), sp)
    } else {
        let k = prefix_len(s, sp) as int;
        proof {
            lemma_prefix_len_le(s, sp);
        }
        seq![s.take(k)] + tokens_by(s.skip(k), sp)
    }
}

/// The whitespace tokens of a beacon line.
pub open spec fn frame_tokens(s: Seq<char>) -> Seq<Seq<char>> {
    tokens_by(s, sep_pred(false))
}

/// The space-separated patterns of one word handed to the pattern decoder.
pub open spec fn space_tokens(s: Seq<char>) -> Seq<Seq<char>> {
    tokens_by(s, sep_pred(true))
}

/// The views of a sequence of strings.
pub open spec fn seq_views(strings: Seq<String>) -> Seq<Seq<char>> {
    Seq::new(strings.len(), |i: int| strings[i]@)
}

/// Whether `c` separates tokens, under either separator set.
pub fn is_sep(c: char, only_space: bool) -> (sep: bool)
    ensures
        sep == sep_pred(only_space)(c),
{
    if only_space {
        c == ' '
    } else {
        c == ' ' || c == '\t' || c == '\r' || c == '\n'
    }
}

/// Splits `s` into its maximal separator-free runs, dropping the
/// separators, as `tokens_by` describes.
pub fn tokenize_by(s: &str, only_space: bool) -> (tokens: Vec<String>)
    ensures
        seq_views(tokens@) == tokens_by(s@, sep_pred(only_space)),
    decreases s@.len(),
{
    let ghost sp = sep_pred(only_space);
    let n = s.unicode_len();
    if n == 0 {
        let tokens: Vec<String> = Vec::new();
        proof {
            assert(seq_views(tokens@) =~= tokens_by(s@, sp));
        }
        return tokens;
    }
    let c = s.get_char(0);
    if is_sep(c, only_space) {
        let rest = s.substring_char(1, n);
        proof {
            assert(rest@ =~= s@.drop_first());
        }
        tokenize_by(rest, only_space)
    } else {
        let mut i: usize = 1;
        while i < n && !is_sep(s.get_char(i), only_space)
            invariant
                1 <= i <= n,
                n == s@.len(),
                sp == sep_pred(only_space),
                forall|j: int| 0 <= j < i ==> !sp(s@[j]),
            decreases n - i,
        {
            i = i + 1;
        }
        proof {
            lemma_prefix_len_at(s@, sp, i as int);
        }
        let token = s.substring_char(0, i).to_owned();
        let rest = s.substring_char(i, n);
        let mut rest_tokens = tokenize_by(rest, only_space);
        let mut tokens: Vec<String> = Vec::new();
        tokens.push(token);
        tokens.append(&mut rest_tokens);
        proof {
            assert(rest@ =~= s@.skip(i as int));
            assert(token@ =~= s@.take(i as int));
            assert(seq_views(tokens@) =~= seq![s@.take(i as int)] + tokens_by(
                s@.skip(i as int),
                sp,
            ));
        }
        tokens
    }
}

/// Whether `s` is blank: empty or nothing but whitespace.
pub open spec fn all_space(s: Seq<char>) -> bool {
    forall|i: int| 0 <= i < s.len() ==> is_space(s[i])
}

/// The index of the first occurrence of `c` in `s`, or -1 if there is none.
pub open spec fn find_char(s: Seq<char>, c: char) -> int
    decreases s.len(),
{
    if s.len() == 0 {
        -1
    } else if s[0] == c {
        0
    } else {
        let tail = find_char(s.drop_first(), c);
        if tail == -1 {
            -1
        } else {
            tail + 1
        }
    }
}

pub proof fn lemma_find_char_at(s: Seq<char>, c: char, k: int)
    requires
        0 <= k < s.len(),
        s[k] == c,
        forall|j: int| 0 <= j < k ==> s[j] != c,
    ensures
        find_char(s, c) == k,
    decreases s.len(),
{
    if k == 0 {
    } else {
        assert(s[0] != c);
        lemma_find_char_at(s.drop_first(), c, k - 1);
    }
}

pub proof fn lemma_find_char_none(s: Seq<char>, c: char)
    requires
        forall|j: int| 0 <= j < s.len() ==> s[j] != c,
    ensures
        find_char(s, c) == -1,
    decreases s.len(),
{
    if s.len() == 0 {
    } else {
        lemma_find_char_none(s.drop_first(), c);
    }
}

/// The fragments of `s` between the occurrences of `c`, in order, empty
/// fragments kept: what splitting on every single occurrence yields.
pub open spec fn split_char(s: Seq<char>, c: char) -> Seq<Seq<char>>
    decreases s.len(),
{
    let i = find_char(s, c);
    if 0 <= i && i < s.len() {
        seq![s.take(i)] + split_char(s.skip(i + 1), c)
    } else {
        seq![s]
    }
}

/// The index of the first occurrence of two adjacent spaces in `s`, or -1.
pub open spec fn find_double_space(s: Seq<char>) -> int
    decreases s.len(),
{
    if s.len() < 2 {
        -1
    } else if s[0] == ' ' && s[1] == ' ' {
        0
    } else {
        let tail = find_double_space(s.drop_first());
        if tail == -1 {
            -1
        } else {
            tail + 1
        }
    }
}

pub proof fn lemma_find_double_space_at(s: Seq<char>, k: int)
    requires
        0 <= k,
        k + 1 < s.len(),
        s[k] == ' ',
        s[k + 1] == ' ',
        forall|j: int| 0 <= j < k ==> !((#[trigger] s[j]) == ' ' && s[j + 1] == ' '),
    ensures
        find_double_space(s) == k,
    decreases s.len(),
{
    if k == 0 {
    } else {
        assert(!(s[0] == ' ' && s[1] == ' '));
        lemma_find_double_space_at(s.drop_first(), k - 1);
    }
}

pub proof fn lemma_find_double_space_none(s: Seq<char>)
    requires
        forall|j: int| 0 <= j && j + 1 < s.len() ==> !((#[trigger] s[j]) == ' ' && s[j + 1] == ' '),
    ensures
        find_double_space(s) == -1,
    decreases s.len(),
{
    if s.len() < 2 {
    } else {
        lemma_find_double_space_none(s.drop_first());
    }
}

/// The fragments of `s` between the occurrences of two adjacent spaces:
/// the words handed to the pattern decoder.  A longer run of spaces
/// leaves its extra spaces on the following fragment.
pub open spec fn split_double_space(s: Seq<char>) -> Seq<Seq<char>>
    decreases s.len(),
{
    let i = find_double_space(s);
    if 0 <= i && i + 2 <= s.len() {
        seq![s.take(i)] + split_double_space(s.skip(i + 2))
    } else {
        seq![s]
    }
}

/// The length of the whitespace run that starts `s`.
pub open spec fn leading_spaces(s: Seq<char>) -> nat
    decreases s.len(),
{
    if s.len() == 0 || !is_space(s[0]) {
        0
    } else {
        1 + leading_spaces(s.drop_first())
    }
}

/// The length of the whitespace run that ends `s`.
pub open spec fn trailing_spaces(s: Seq<char>) -> nat
    decreases s.len(),
{
    if s.len() == 0 || !is_space(s[s.len() - 1]) {
        0
    } else {
        1 + trailing_spaces(s.drop_last())
    }
}

/// `s` without its leading and trailing whitespace.
pub open spec fn trim_spec(s: Seq<char>) -> Seq<char> {
    if all_space(s) {
        Seq::empty()
    } else {
        s.subrange(leading_spaces(s) as int, s.len() - trailing_spaces(s))
    }
}

pub proof fn lemma_leading_spaces_at(s: Seq<char>, k: int)
    requires
        0 <= k <= s.len(),
        forall|j: int| 0 <= j < k ==> is_space(s[j]),
        k == s.len() || !is_space(s[k]),
    ensures
        leading_spaces(s) == k,
    decreases s.len(),
{
    if k == 0 {
    } else {
        assert(is_space(s[0]));
        lemma_leading_spaces_at(s.drop_first(), k - 1);
    }
}

pub proof fn lemma_trailing_spaces_at(s: Seq<char>, k: int)
    requires
        0 <= k <= s.len(),
        forall|j: int| s.len() - k <= j < s.len() ==> is_space(s[j]),
        k == s.len() || !is_space(s[s.len() - k - 1]),
    ensures
        trailing_spaces(s) == k,
    decreases s.len(),
{
    if k == 0 {
    } else {
        assert(is_space(s[s.len() - 1]));
        lemma_trailing_spaces_at(s.drop_last(), k - 1);
    }
}

/// Whether `s` is blank, as `all_space` describes.
pub fn is_blank(s: &str) -> (blank: bool)
    ensures
        blank == all_space(s@),
{
    let n = s.unicode_len();
    let mut i: usize = 0;
    while i < n
        invariant
            0 <= i <= n,
            n == s@.len(),
            forall|j: int| 0 <= j < i ==> is_space(s@[j]),
        decreases n - i,
    {
        if !is_sep(s.get_char(i), false) {
            return false;
        }
        i = i + 1;
    }
    true
}

/// The index of the first occurrence of `c`, as `find_char` describes.
pub fn find_char_at(s: &str, c: char) -> (result: Option<usize>)
    ensures
        match result {
            Some(k) => find_char(s@, c) == k && k < s@.len(),
            None => find_char(s@, c) == -1,
        },
{
    let n = s.unicode_len();
    let mut i: usize = 0;
    while i < n
        invariant
            0 <= i <= n,
            n == s@.len(),
            forall|j: int| 0 <= j < i ==> s@[j] != c,
        decreases n - i,
    {
        if s.get_char(i) == c {
            proof {
                lemma_find_char_at(s@, c, i as int);
            }
            return Some(i);
        }
        i = i + 1;
    }
    proof {
        lemma_find_char_none(s@, c);
    }
    None
}

/// The index of the first two adjacent spaces, as `find_double_space`
/// describes.
pub fn find_double_space_at(s: &str) -> (result: Option<usize>)
    ensures
        match result {
            Some(k) => find_double_space(s@) == k && k + 2 <= s@.len(),
            None => find_double_space(s@) == -1,
        },
{
    let n = s.unicode_len();
    if n < 2 {
        return None;
    }
    let mut i: usize = 0;
    while i + 1 < n
        invariant
            0 <= i,
            i + 1 <= n,
            n == s@.len(),
            forall|j: int| 0 <= j < i ==> !((#[trigger] s@[j]) == ' ' && s@[j + 1] == ' '),
        decreases n - i,
    {
        if s.get_char(i) == ' ' && s.get_char(i + 1) == ' ' {
            proof {
                lemma_find_double_space_at(s@, i as int);
            }
            return Some(i);
        }
        i = i + 1;
    }
    proof {
        lemma_find_double_space_none(s@);
    }
    None
}

/// `s` without its leading and trailing whitespace, as `trim_spec`
/// describes.
pub fn trim_str<'a>(s: &'a str) -> (trimmed: &'a str)
    ensures
        trimmed@ == trim_spec(s@),
{
    let n = s.unicode_len();
    let mut start: usize = 0;
    while start < n && is_sep(s.get_char(start), false)
        invariant
            0 <= start <= n,
            n == s@.len(),
            forall|j: int| 0 <= j < start ==> is_space(s@[j]),
        decreases n - start,
    {
        start = start + 1;
    }
    if start == n {
        let empty = s.substring_char(n, n);
        proof {
            assert(all_space(s@));
            assert(empty@ =~= trim_spec(s@));
        }
        return empty;
    }
    let mut end: usize = n;
    while end > start && is_sep(s.get_char(end - 1), false)
        invariant
            start < end <= n,
            n == s@.len(),
            !is_space(s@[start as int]),
            forall|j: int| end <= j < n ==> is_space(s@[j]),
        decreases end,
    {
        end = end - 1;
    }
    proof {
        lemma_leading_spaces_at(s@, start as int);
        lemma_trailing_spaces_at(s@, n - end);
        assert(!all_space(s@));
    }
    s.substring_char(start, end)
}

/// Whether two string slices hold the same characters.
pub fn str_eq(a: &str, b: &str) -> (equal: bool)
    ensures
        equal == (a@ == b@),
{
    let n = a.unicode_len();
    if n != b.unicode_len() {
        return false;
    }
    let mut i: usize = 0;
    while i < n
        invariant
            0 <= i <= n,
            n == a@.len(),
            n == b@.len(),
            forall|j: int| 0 <= j < i ==> a@[j] == b@[j],
        decreases n - i,
    {
        if a.get_char(i) != b.get_char(i) {
            return false;
        }
        i = i + 1;
    }
    proof {
        assert(a@ =~= b@);
    }
    true
}

} // verus!
