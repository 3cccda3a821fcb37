use vstd::prelude::*;
use vstd::string::*;

verus! {

broadcast use vstd::string::group_string_axioms;

/// ASCII whitespace: the characters a token may never contain and
/// that separate the columns of control-plane listings.
pub open spec fn is_space_char(c: char) -> bool {
    c == ' ' || c == '\t' || c == '\n' || c == '\r' || c == '\u{b}' || c == '\u{c}'
}

/// Executable test for `is_space_char`.
pub fn is_space(c: char) -> (r: bool)
    ensures
        r == is_space_char(c),
{
    c == ' ' || c == '\t' || c == '\n' || c == '\r' || c == '\u{b}' || c == '\u{c}'
}

/// Index of the first occurrence of `sep` in `s`, or `s.len()` if absent.
pub open spec fn sep_pos(s: Seq<char>, sep: char) -> int
    decreases s.len(),
{
    if s.len() == 0 {
        0
    } else if s[0] == sep {
        0
    } else {
        1 + sep_pos(s.drop_first(), sep)
    }
}

pub proof fn lemma_sep_pos_bounds(s: Seq<char>, sep: char)
    ensures
        0 <= sep_pos(s, sep) <= s.len(),
        sep_pos(s, sep) < s.len() ==> s[sep_pos(s, sep)] == sep,
        forall|j: int| 0 <= j < sep_pos(s, sep) ==> s[j] != sep,
    decreases s.len(),
{
    if s.len() == 0 {
    } else if s[0] == sep {
    } else {
        lemma_sep_pos_bounds(s.drop_first(), sep);
        assert(forall|j: int| 1 <= j < sep_pos(s, sep) ==> s[j] == s.drop_first()[j - 1]);
    }
}

/// The first occurrence of `sep` in `s` is exactly at `k`, given that no
/// earlier character equals `sep` and either `k` is the end or `s[k] == sep`.
pub proof fn lemma_sep_pos_is(s: Seq<char>, sep: char, k: int)
    requires
        0 <= k <= s.len(),
        forall|j: int| 0 <= j < k ==> s[j] != sep,
        k < s.len() ==> s[k] == sep,
    ensures
        sep_pos(s, sep) == k,
    decreases k,
{
    if k == 0 {
    } else {
        assert(s[0] != sep);
        lemma_sep_pos_is(s.drop_first(), sep, k - 1);
    }
}

/// `s` split on every occurrence of `sep`; the separators themselves are
/// dropped and empty pieces are kept, so the result never has fewer than
/// one piece.
pub open spec fn spec_split(s: Seq<char>, sep: char) -> Seq<Seq<char>>
    decreases s.len(),
    via spec_split_decreases
{
    if sep_pos(s, sep) == s.len() {
        seq![s]
    } else {
        seq![s.take(sep_pos(s, sep))] + spec_split(s.skip(sep_pos(s, sep) + 1), sep)
    }
}

#[via_fn]
proof fn spec_split_decreases(s: Seq<char>, sep: char) {
    lemma_sep_pos_bounds(s, sep);
}

/// Splitting on a character: every separator opens a new piece.
pub fn split_char(s: &str, sep: char) -> (r: Vec<String>)
    ensures
        r@.map_values(|p: String| p@) == spec_split(s@, sep),
        r@.len() >= 1,
{
    let n = s.unicode_len();
    let mut out: Vec<String> = Vec::new();
    let mut start: usize = 0;
    let mut i: usize = 0;
    proof {
        assert(s@.skip(0) =~= s@);
        assert(out@.map_values(|p: String| p@) =~= Seq::<Seq<char>>::empty());
        assert(Seq::<Seq<char>>::empty() + spec_split(s@, sep) =~= spec_split(s@, sep));
    }
    while i < n
        invariant
            n == s@.len(),
            0 <= start <= i <= n,
            forall|j: int| start <= j < i ==> s@[j] != sep,
            spec_split(s@, sep) == out@.map_values(|p: String| p@) + spec_split(
                s@.skip(start as int),
                sep,
            ),
        decreases n - i,
    {
        if s.get_char(i) == sep {
            let piece = s.substring_char(start, i);
            let owned = String::from_str(piece);
            proof {
                let rest = s@.skip(start as int);
                assert(forall|j: int| 0 <= j < rest.len() ==> rest[j] == s@[start + j]);
                lemma_sep_pos_is(rest, sep, i - start);
                assert(rest.take(i - start) =~= s@.subrange(start as int, i as int));
                assert(rest.skip(i - start + 1) =~= s@.skip(i + 1));
                assert(spec_split(rest, sep) == seq![owned@] + spec_split(s@.skip(i + 1), sep));
                assert(out@.push(owned).map_values(|p: String| p@) =~= out@.map_values(
                    |p: String| p@,
                ).push(owned@));
                assert(out@.map_values(|p: String| p@) + spec_split(rest, sep) =~= out@.map_values(
                    |p: String| p@,
                ).push(owned@) + spec_split(s@.skip(i + 1), sep));
            }
            out.push(owned);
            start = i + 1;
        }
        i = i + 1;
    }
    let piece = s.substring_char(start, n);
    let owned = String::from_str(piece);
    proof {
        let rest = s@.skip(start as int);
        assert(forall|j: int| 0 <= j < rest.len() ==> rest[j] == s@[start + j]);
        lemma_sep_pos_is(rest, sep, n - start);
        assert(rest.take(n - start) =~= rest);
        assert(owned@ =~= rest);
        assert(spec_split(rest, sep) == seq![rest]);
        assert(out@.push(owned).map_values(|p: String| p@) =~= out@.map_values(|p: String| p@)
            + seq![rest]);
    }
    out.push(owned);
    out
}

/// Length of the leading run of non-whitespace characters of `s`.
pub open spec fn token_len(s: Seq<char>) -> int
    decreases s.len(),
{
    if s.len() == 0 {
        0
    } else if is_space_char(s[0]) {
        0
    } else {
        1 + token_len(s.drop_first())
    }
}

pub proof fn lemma_token_len_bounds(s: Seq<char>)
    ensures
        0 <= token_len(s) <= s.len(),
        token_len(s) < s.len() ==> is_space_char(s[token_len(s)]),
        forall|j: int| 0 <= j < token_len(s) ==> !is_space_char(s[j]),
    decreases s.len(),
{
    if s.len() == 0 {
    } else if is_space_char(s[0]) {
    } else {
        lemma_token_len_bounds(s.drop_first());
        assert(forall|j: int| 1 <= j < token_len(s) ==> s[j] == s.drop_first()[j - 1]);
    }
}

/// The leading token of `s` ends exactly at `k`, given that no earlier
/// character is whitespace and either `k` is the end or `s[k]` is whitespace.
pub proof fn lemma_token_len_is(s: Seq<char>, k: int)
    requires
        0 <= k <= s.len(),
        forall|j: int| 0 <= j < k ==> !is_space_char(s[j]),
        k < s.len() ==> is_space_char(s[k]),
    ensures
        token_len(s) == k,
    decreases k,
{
    if k == 0 {
    } else {
        assert(!is_space_char(s[0]));
        lemma_token_len_is(s.drop_first(), k - 1);
    }
}

/// `s` cut into maximal runs of non-whitespace characters; runs of
/// whitespace separate tokens and never appear in them.
pub open spec fn spec_tokens(s: Seq<char>) -> Seq<Seq<char>>
    decreases s.len(),
    via spec_tokens_decreases
{
    if s.len() == 0 {
        Seq::empty()
    } else if is_space_char(s[0]) {
        spec_tokens(s.drop_first())
    } else {
        seq![s.take(token_len(s))] + spec_tokens(s.skip(token_len(s)))
    }
}

#[via_fn]
proof fn spec_tokens_decreases(s: Seq<char>) {
    lemma_token_len_bounds(s);
}

/// Skipping a leading whitespace character does not change the tokens.
proof fn lemma_tokens_skip_space(s: Seq<char>, i: int)
    requires
        0 <= i < s.len(),
        is_space_char(s[i]),
    ensures
        spec_tokens(s.skip(i)) == spec_tokens(s.skip(i + 1)),
{
    assert(s.skip(i).len() > 0);
    assert(s.skip(i)[0] == s[i]);
    assert(s.skip(i).drop_first() =~= s.skip(i + 1));
}

/// Tokenization on runs of whitespace, the row discipline of every
/// control-plane listing.
pub fn tokenize(s: &str) -> (r: Vec<String>)
    ensures
        r@.map_values(|t: String| t@) == spec_tokens(s@),
{
    let n = s.unicode_len();
    let mut out: Vec<String> = Vec::new();
    let mut i: usize = 0;
    proof {
        assert(s@.skip(0) =~= s@);
        assert(out@.map_values(|t: String| t@) =~= Seq::<Seq<char>>::empty());
        assert(Seq::<Seq<char>>::empty() + spec_tokens(s@) =~= spec_tokens(s@));
    }
    while i < n
        invariant
            n == s@.len(),
            0 <= i <= n,
            spec_tokens(s@) == out@.map_values(|t: String| t@) + spec_tokens(s@.skip(i as int)),
        decreases n - i,
    {
        if is_space(s.get_char(i)) {
            proof {
                lemma_tokens_skip_space(s@, i as int);
            }
            i = i + 1;
        } else {
            let token_start = i;
            let mut j = i + 1;
            while j < n
                invariant
                    n == s@.len(),
                    0 <= token_start < j <= n,
                    forall|k: int| token_start <= k < j ==> !is_space_char(s@[k]),
                ensures
                    n == s@.len(),
                    token_start < j <= n,
                    forall|k: int| token_start <= k < j ==> !is_space_char(s@[k]),
                    j < n ==> is_space_char(s@[j as int]),
                decreases n - j,
            {
                if is_space(s.get_char(j)) {
                    break ;
                }
                j = j + 1;
            }
            let piece = s.substring_char(token_start, j);
            let owned = String::from_str(piece);
            proof {
                let rest = s@.skip(i as int);
                assert(forall|k: int| 0 <= k < rest.len() ==> rest[k] == s@[i + k]);
                lemma_token_len_is(rest, j - i);
                assert(!is_space_char(rest[0]));
                assert(rest.take(j - i) =~= s@.subrange(i as int, j as int));
                assert(rest.skip(j - i) =~= s@.skip(j as int));
                assert(spec_tokens(rest) == seq![owned@] + spec_tokens(s@.skip(j as int)));
                assert(out@.push(owned).map_values(|t: String| t@) =~= out@.map_values(
                    |t: String| t@,
                ).push(owned@));
                assert(out@.map_values(|t: String| t@) + spec_tokens(rest) =~= out@.map_values(
                    |t: String| t@,
                ).push(owned@) + spec_tokens(s@.skip(j as int)));
            }
            out.push(owned);
            i = j;
        }
    }
    proof {
        assert(s@.skip(n as int) =~= Seq::<char>::empty());
        assert(spec_tokens(s@.skip(n as int)) =~= Seq::<Seq<char>>::empty());
        assert(out@.map_values(|t: String| t@) + Seq::<Seq<char>>::empty() =~= out@.map_values(
            |t: String| t@,
        ));
    }
    out
}

/// Character-for-character equality of two string slices.
pub fn str_eq(a: &str, b: &str) -> (r: bool)
    ensures
        r == (a@ == b@),
{
    let na = a.unicode_len();
    let nb = b.unicode_len();
    if na != nb {
        return false;
    }
    let mut i: usize = 0;
    while i < na
        invariant
            na == a@.len(),
            na == b@.len(),
            0 <= i <= na,
            forall|j: int| 0 <= j < i ==> a@[j] == b@[j],
        decreases na - i,
    {
        if a.get_char(i) != b.get_char(i) {
            return false;
        }
        i = i + 1;
    }
    proof {
        assert(a@ =~= b@);
    }
    true
}

/// `needle` occurs as a contiguous run somewhere in `hay`.
pub open spec fn spec_contains(hay: Seq<char>, needle: Seq<char>) -> bool {
    exists|i: int|
        0 <= i && i + needle.len() <= hay.len() && #[trigger] hay.subrange(i, i + needle.len())
            == needle
}

/// Substring search; classification of control-plane stderr text rests
/// on this function.
pub fn contains_str(hay: &str, needle: &str) -> (r: bool)
    ensures
        r == spec_contains(hay@, needle@),
{
    let nh = hay.unicode_len();
    let nn = needle.unicode_len();
    if nn > nh {
        return false;
    }
    if nn == 0 {
        proof {
            assert(hay@.subrange(0, 0 + needle@.len() as int) =~= needle@);
        }
        return true;
    }
    let mut i: usize = 0;
    while i <= nh - nn
        invariant
            nh == hay@.len(),
            nn == needle@.len(),
            1 <= nn <= nh,
            0 <= i <= nh - nn + 1,
            forall|k: int| 0 <= k < i ==> #[trigger] hay@.subrange(k, k + needle@.len())
                != needle@,
        decreases nh - i,
    {
        let window = hay.substring_char(i, i + nn);
        if str_eq(window, needle) {
            proof {
                assert(hay@.subrange(i as int, i + needle@.len()) == needle@);
            }
            return true;
        }
        i = i + 1;
    }
    false
}

/// `prefix` is a prefix of `s`.
pub open spec fn spec_starts_with(s: Seq<char>, prefix: Seq<char>) -> bool {
    prefix.len() <= s.len() && s.take(prefix.len() as int) == prefix
}

pub fn starts_with(s: &str, prefix: &str) -> (r: bool)
    ensures
        r == spec_starts_with(s@, prefix@),
{
    let ns = s.unicode_len();
    let np = prefix.unicode_len();
    if np > ns {
        return false;
    }
    let window = s.substring_char(0, np);
    proof {
        assert(s@.subrange(0, np as int) =~= s@.take(np as int));
    }
    str_eq(window, prefix)
}

/// Count of leading whitespace characters.
pub open spec fn lead_ws(s: Seq<char>) -> int
    decreases s.len(),
{
    if s.len() == 0 {
        0
    } else if !is_space_char(s[0]) {
        0
    } else {
        1 + lead_ws(s.drop_first())
    }
}

/// Length of `s` once trailing whitespace is removed.
pub open spec fn trim_end_len(s: Seq<char>) -> int
    decreases s.len(),
{
    if s.len() == 0 {
        0
    } else if !is_space_char(s.last()) {
        s.len() as int
    } else {
        trim_end_len(s.drop_last())
    }
}

/// `s` without leading and trailing whitespace.
pub open spec fn spec_trim(s: Seq<char>) -> Seq<char> {
    if lead_ws(s) >= trim_end_len(s) {
        Seq::empty()
    } else {
        s.subrange(lead_ws(s), trim_end_len(s))
    }
}

proof fn lemma_lead_ws_is(s: Seq<char>, k: int)
    requires
        0 <= k <= s.len(),
        forall|j: int| 0 <= j < k ==> is_space_char(s[j]),
        k < s.len() ==> !is_space_char(s[k]),
    ensures
        lead_ws(s) == k,
    decreases k,
{
    if k == 0 {
    } else {
        lemma_lead_ws_is(s.drop_first(), k - 1);
    }
}

proof fn lemma_trim_end_is(s: Seq<char>, k: int)
    requires
        0 <= k <= s.len(),
        forall|j: int| k <= j < s.len() ==> is_space_char(s[j]),
        k > 0 ==> !is_space_char(s[k - 1]),
    ensures
        trim_end_len(s) == k,
    decreases s.len(),
{
    if s.len() == 0 {
    } else if k == s.len() {
    } else {
        assert(is_space_char(s.last()));
        assert(forall|j: int| k <= j < s.drop_last().len() ==> s.drop_last()[j] == s[j]);
        lemma_trim_end_is(s.drop_last(), k);
    }
}

/// `s` with its leading and trailing whitespace removed.
pub fn trim(s: &str) -> (r: String)
    ensures
        r@ == spec_trim(s@),
{
    let n = s.unicode_len();
    let mut b: usize = 0;
    while b < n
        invariant
            n == s@.len(),
            0 <= b <= n,
            forall|j: int| 0 <= j < b ==> is_space_char(s@[j]),
        ensures
            n == s@.len(),
            0 <= b <= n,
            forall|j: int| 0 <= j < b ==> is_space_char(s@[j]),
            b < n ==> !is_space_char(s@[b as int]),
        decreases n - b,
    {
        if !is_space(s.get_char(b)) {
            break ;
        }
        b = b + 1;
    }
    let mut e: usize = n;
    while e > b
        invariant
            n == s@.len(),
            b <= e <= n,
            forall|j: int| e <= j < n ==> is_space_char(s@[j]),
        ensures
            n == s@.len(),
            b <= e <= n,
            forall|j: int| e <= j < n ==> is_space_char(s@[j]),
            e > b ==> !is_space_char(s@[e - 1]),
        decreases e,
    {
        if !is_space(s.get_char(e - 1)) {
            break ;
        }
        e = e - 1;
    }
    proof {
        if b == e {
            // the two scans met, so the whole string is whitespace
            assert(b < n ==> is_space_char(s@[b as int]));
            assert(b == n);
            lemma_lead_ws_is(s@, n as int);
            lemma_trim_end_is(s@, 0);
            assert(s@.subrange(b as int, e as int) =~= spec_trim(s@));
        } else {
            lemma_lead_ws_is(s@, b as int);
            lemma_trim_end_is(s@, e as int);
        }
    }
    let piece = s.substring_char(b, e);
    String::from_str(piece)
}

/// Split at the first occurrence of `sep`: the part before it and the part
/// after it, or nothing when `sep` does not occur.
pub fn split_once_char(s: &str, sep: char) -> (r: Option<(String, String)>)
    ensures
        sep_pos(s@, sep) == s@.len() ==> r is None,
        sep_pos(s@, sep) < s@.len() ==> (r matches Some(p) && p.0@ == s@.take(sep_pos(s@, sep))
            && p.1@ == s@.skip(sep_pos(s@, sep) + 1)),
{
    let n = s.unicode_len();
    let mut i: usize = 0;
    while i < n
        invariant
            n == s@.len(),
            0 <= i <= n,
            forall|j: int| 0 <= j < i ==> s@[j] != sep,
        ensures
            n == s@.len(),
            0 <= i <= n,
            forall|j: int| 0 <= j < i ==> s@[j] != sep,
            i < n ==> s@[i as int] == sep,
        decreases n - i,
    {
        if s.get_char(i) == sep {
            break ;
        }
        i = i + 1;
    }
    proof {
        lemma_sep_pos_is(s@, sep, i as int);
    }
    if i == n {
        None
    } else {
        let before = String::from_str(s.substring_char(0, i));
        let after = String::from_str(s.substring_char(i + 1, n));
        proof {
            assert(s@.subrange(0, i as int) =~= s@.take(i as int));
            assert(s@.subrange(i + 1, n as int) =~= s@.skip(i + 1));
        }
        Some((before, after))
    }
}

/// Decimal digit.
pub open spec fn is_digit_char(c: char) -> bool {
    48 <= c as u32 <= 57
}

/// Numeric value of a decimal digit.
pub open spec fn digit_val(c: char) -> int {
    c as u32 - 48
}

pub open spec fn all_digits(s: Seq<char>) -> bool {
    forall|i: int| 0 <= i < s.len() ==> is_digit_char(#[trigger] s[i])
}

/// The number denoted by a sequence of decimal digits, most significant
/// first.
pub open spec fn spec_digits_val(s: Seq<char>) -> int
    decreases s.len(),
{
    if s.len() == 0 {
        0
    } else {
        spec_digits_val(s.drop_last()) * 10 + digit_val(s.last())
    }
}

pub proof fn lemma_digits_val_nonneg(s: Seq<char>)
    requires
        all_digits(s),
    ensures
        spec_digits_val(s) >= 0,
    decreases s.len(),
{
    if s.len() > 0 {
        assert(all_digits(s.drop_last()));
        lemma_digits_val_nonneg(s.drop_last());
    }
}

/// A prefix of a digit string never denotes more than the whole string.
pub proof fn lemma_digits_val_prefix_le(s: Seq<char>, i: int)
    requires
        all_digits(s),
        0 <= i <= s.len(),
    ensures
        spec_digits_val(s.take(i)) <= spec_digits_val(s),
    decreases s.len(),
{
    if i == s.len() {
        assert(s.take(i) =~= s);
    } else {
        assert(all_digits(s.drop_last()));
        assert(s.take(i) =~= s.drop_last().take(i));
        lemma_digits_val_prefix_le(s.drop_last(), i);
        lemma_digits_val_nonneg(s.drop_last());
    }
}

/// The digit body of a decimal integer literal: everything after one
/// optional leading plus sign.
pub open spec fn spec_uint_body(s: Seq<char>) -> Seq<char> {
    if s.len() > 0 && s[0] == '+' {
        s.drop_first()
    } else {
        s
    }
}

/// A string is a valid `u64` literal: a nonempty all-digit body whose value
/// fits in 64 bits.
pub open spec fn spec_is_u64_string(s: Seq<char>) -> bool {
    let t = spec_uint_body(s);
    t.len() > 0 && all_digits(t) && spec_digits_val(t) <= u64::MAX
}

/// Parse a decimal `u64`, accepting exactly the strings that denote one.
pub fn parse_u64(s: &str) -> (r: Option<u64>)
    ensures
        r is Some <==> spec_is_u64_string(s@),
        r matches Some(v) ==> v == spec_digits_val(spec_uint_body(s@)),
{
    let n = s.unicode_len();
    let mut start: usize = 0;
    if n > 0 && s.get_char(0) == '+' {
        start = 1;
    }
    proof {
        assert(s@.skip(start as int) =~= spec_uint_body(s@));
    }
    if start == n {
        return None;
    }
    let ghost t = spec_uint_body(s@);
    let mut acc: u64 = 0;
    let mut i: usize = start;
    while i < n
        invariant
            n == s@.len(),
            start <= i <= n,
            start < n,
            t == spec_uint_body(s@),
            t == s@.skip(start as int),
            all_digits(t.take(i - start)),
            acc == spec_digits_val(t.take(i - start)),
        decreases n - i,
    {
        let c = s.get_char(i);
        let u = c as u32;
        if u < 48 || u > 57 {
            proof {
                assert(t[i - start] == s@[i as int]);
                assert(!is_digit_char(t[i - start]));
            }
            return None;
        }
        let d = (u - 48) as u64;
        proof {
            assert(t.take(i - start + 1).drop_last() =~= t.take(i - start));
            assert(t.take(i - start + 1).last() == s@[i as int]);
            assert(all_digits(t.take(i - start + 1)));
        }
        if acc > (u64::MAX - d) / 10 {
            proof {
                assert(acc * 10 + d > u64::MAX) by (nonlinear_arith)
                    requires
                        acc > (u64::MAX - d) / 10,
                        0 <= d <= 9,
                ;
                assert(spec_digits_val(t.take(i - start + 1)) > u64::MAX);
                if all_digits(t) && spec_digits_val(t) <= u64::MAX {
                    lemma_digits_val_prefix_le(t, i - start + 1);
                }
            }
            return None;
        }
        acc = acc * 10 + d;
        i = i + 1;
    }
    proof {
        assert(t.take(n - start) =~= t);
    }
    Some(acc)
}

/// Parse a decimal `u32`, accepting exactly the strings that denote one.
pub fn parse_u32(s: &str) -> (r: Option<u32>)
    ensures
        r is Some <==> (spec_is_u64_string(s@) && spec_digits_val(spec_uint_body(s@)) <= u32::MAX),
        r matches Some(v) ==> v == spec_digits_val(spec_uint_body(s@)),
{
    match parse_u64(s) {
        Some(v) => {
            if v <= 0xffff_ffff {
                Some(v as u32)
            } else {
                None
            }
        },
        None => None,
    }
}

/// The decimal digit characters.
pub open spec fn spec_digit_char(d: int) -> char {
    if d == 0 {
        '0'
    } else if d == 1 {
        '1'
    } else if d == 2 {
        '2'
    } else if d == 3 {
        '3'
    } else if d == 4 {
        '4'
    } else if d == 5 {
        '5'
    } else if d == 6 {
        '6'
    } else if d == 7 {
        '7'
    } else if d == 8 {
        '8'
    } else {
        '9'
    }
}

/// The decimal rendering of a nonnegative number, most significant digit
/// first, without leading zeros (except for zero itself).
pub open spec fn spec_u64_str(n: int) -> Seq<char>
    decreases n,
{
    if n < 10 {
        seq![spec_digit_char(n)]
    } else {
        spec_u64_str(n / 10).push(spec_digit_char(n % 10))
    }
}

fn digit_str(d: u64) -> (r: String)
    requires
        d < 10,
    ensures
        r@ == seq![spec_digit_char(d as int)],
{
    let table = "0123456789";
    proof {
        reveal_strlit("0123456789");
    }
    let piece = table.substring_char(d as usize, (d + 1) as usize);
    proof {
        assert(piece@ =~= seq![table@[d as int]]);
    }
    String::from_str(piece)
}

/// Decimal rendering of a `u64`.
pub fn u64_to_string(n: u64) -> (r: String)
    ensures
        r@ == spec_u64_str(n as int),
    decreases n,
{
    if n < 10 {
        digit_str(n)
    } else {
        let mut result = u64_to_string(n / 10);
        let last = digit_str(n % 10);
        result.append(last.as_str());
        proof {
            assert(spec_u64_str((n / 10) as int).push(spec_digit_char((n % 10) as int))
                =~= spec_u64_str((n / 10) as int) + seq![spec_digit_char((n % 10) as int)]);
        }
        result
    }
}

} // verus!
