//! Verified text helpers over `Seq<char>` views: ASCII case folding and
//! case-insensitive comparison, string equality, first-occurrence search,
//! substring containment, and decimal parsing of 8-bit integers.

use vstd::prelude::*;

verus! {

/// ASCII lowercasing of a single character: `'A'..='Z'` shift down by 32,
/// everything else is unchanged.
pub open spec fn lower_char(c: char) -> char {
    if 'A' <= c && c <= 'Z' {
        ((c as int) + 32) as char
    } else {
        c
    }
}

/// Two character sequences are equal up to ASCII case of the first one.
/// `lit` is expected to be already lowercase.
pub open spec fn eq_lower(s: Seq<char>, lit: Seq<char>) -> bool {
    s.len() == lit.len() && forall|i: int| 0 <= i < s.len() ==> lower_char(s[i]) == lit[i]
}

/// ASCII lowercasing of one character.
pub fn lower_char_exec(c: char) -> (r: char)
    ensures
        r == lower_char(c),
{
    let u: u32 = c as u32;
    if 65 <= u && u <= 90 {
        ((u + 32) as u8) as char
    } else {
        c
    }
}

/// Whether `s` equals `lit` after ASCII-lowercasing each character of `s`.
pub fn eq_ignore_ascii_case(s: &str, lit: &str) -> (r: bool)
    ensures
        r == eq_lower(s@, lit@),
{
    let n: usize = s.unicode_len();
    if n != lit.unicode_len() {
        return false;
    }
    let mut i: usize = 0;
    while i < n
        invariant
            0 <= i <= n,
            n == s@.len(),
            n == lit@.len(),
            forall|j: int| 0 <= j < i ==> lower_char(s@[j]) == lit@[j],
        decreases n - i,
    {
        let c = lower_char_exec(s.get_char(i));
        if c != lit.get_char(i) {
            return false;
        }
        i = i + 1;
    }
    true
}

/// Exact string equality over the character views.
pub fn str_eq(a: &str, b: &str) -> (r: bool)
    ensures
        r == (a@ == b@),
{
    let n: usize = a.unicode_len();
    if n != b.unicode_len() {
        return false;
    }
    let mut i: usize = 0;
    while i < n
        invariant
            0 <= i <= n,
            n == a@.len(),
            n == b@.len(),
            forall|j: int| 0 <= j < i ==> a@[j] == b@[j],
        decreases n - i,
    {
        if a.get_char(i) != b.get_char(i) {
            return false;
        }
        i = i + 1;
    }
    proof {
        assert(a@ =~= b@);
    }
    true
}

/// The index of the first occurrence of `sep` in `s`, or -1 when `s` does
/// not contain it.
pub open spec fn spec_find(s: Seq<char>, sep: char) -> int
    decreases s.len(),
{
    if s.len() == 0 {
        -1
    } else if s[0] == sep {
        0
    } else if spec_find(s.drop_first(), sep) == -1 {
        -1
    } else {
        spec_find(s.drop_first(), sep) + 1
    }
}

/// `spec_find` returns -1 exactly when `sep` does not occur, and otherwise
/// the position of its first occurrence.
pub proof fn lemma_spec_find(s: Seq<char>, sep: char)
    ensures
        spec_find(s, sep) == -1 ==> forall|j: int| 0 <= j < s.len() ==> s[j] != sep,
        spec_find(s, sep) != -1 ==> 0 <= spec_find(s, sep) < s.len(),
        spec_find(s, sep) != -1 ==> s[spec_find(s, sep)] == sep,
        forall|j: int| 0 <= j < spec_find(s, sep) ==> s[j] != sep,
    decreases s.len(),
{
    if s.len() == 0 {
    } else if s[0] == sep {
    } else {
        lemma_spec_find(s.drop_first(), sep);
        assert(forall|j: int| 1 <= j < s.len() ==> s[j] == s.drop_first()[j - 1]);
    }
}

/// Find the first occurrence of `sep` in `s`.
pub fn find_char(s: &str, sep: char) -> (r: Option<usize>)
    ensures
        r is Some ==> spec_find(s@, sep) == r.unwrap() as int,
        r is None ==> spec_find(s@, sep) == -1,
{
    let n: usize = s.unicode_len();
    let mut i: usize = 0;
    while i < n
        invariant
            0 <= i <= n,
            n == s@.len(),
            forall|j: int| 0 <= j < i ==> s@[j] != sep,
        decreases n - i,
    {
        if s.get_char(i) == sep {
            proof {
                lemma_spec_find(s@, sep);
                if spec_find(s@, sep) == -1 {
                    assert(false);
                }
                if spec_find(s@, sep) < i {
                    assert(false);
                }
                if spec_find(s@, sep) > i {
                    assert(s@[i as int] != sep);
                    assert(false);
                }
            }
            return Some(i);
        }
        i = i + 1;
    }
    proof {
        lemma_spec_find(s@, sep);
        if spec_find(s@, sep) != -1 {
            assert(s@[spec_find(s@, sep)] == sep);
            assert(false);
        }
    }
    None
}

/// Whether `n` occurs in `h` as a contiguous run of characters.
pub open spec fn spec_contains(h: Seq<char>, n: Seq<char>) -> bool {
    exists|i: int| 0 <= i <= h.len() - n.len() && #[trigger] h.subrange(i, i + n.len() as int) == n
}

/// Whether `needle` matches `hay` at position `at`.
fn match_at(hay: &str, needle: &str, at: usize) -> (r: bool)
    requires
        at + needle@.len() <= hay@.len(),
        hay@.len() <= usize::MAX,
    ensures
        r == (hay@.subrange(at as int, at + needle@.len() as int) == needle@),
{
    let m: usize = needle.unicode_len();
    let mut j: usize = 0;
    while j < m
        invariant
            0 <= j <= m,
            m == needle@.len(),
            at + m <= hay@.len(),
            hay@.len() <= usize::MAX,
            forall|k: int| 0 <= k < j ==> hay@[at + k] == needle@[k],
        decreases m - j,
    {
        if hay.get_char(at + j) != needle.get_char(j) {
            proof {
                let sub = hay@.subrange(at as int, at + needle@.len() as int);
                assert(sub[j as int] == hay@[at + j]);
            }
            return false;
        }
        j = j + 1;
    }
    proof {
        assert(hay@.subrange(at as int, at + needle@.len() as int) =~= needle@);
    }
    true
}

/// Substring containment over the character views.
pub fn str_contains(hay: &str, needle: &str) -> (r: bool)
    ensures
        r == spec_contains(hay@, needle@),
{
    let n: usize = hay.unicode_len();
    let m: usize = needle.unicode_len();
    if m > n {
        proof {
            assert(!spec_contains(hay@, needle@));
        }
        return false;
    }
    if m == 0 {
        proof {
            assert(hay@.subrange(0, 0 + needle@.len() as int) =~= needle@);
        }
        return true;
    }
    let mut i: usize = 0;
    while i <= n - m
        invariant
            1 <= m <= n,
            n == hay@.len(),
            m == needle@.len(),
            0 <= i <= n - m + 1,
            forall|k: int| 0 <= k < i ==> #[trigger] hay@.subrange(k, k + needle@.len() as int) != needle@,
        decreases n - m + 1 - i,
    {
        if match_at(hay, needle, i) {
            return true;
        }
        i = i + 1;
    }
    false
}

/// Whether `c` is an ASCII decimal digit.
pub open spec fn is_digit(c: char) -> bool {
    '0' <= c && c <= '9'
}

/// The numeric value of a decimal digit character.
pub open spec fn spec_digit(c: char) -> int {
    (c as int) - ('0' as int)
}

/// The value of a run of decimal digits, most significant first.
pub open spec fn spec_digits_val(s: Seq<char>) -> int
    decreases s.len(),
{
    if s.len() == 0 {
        0
    } else {
        spec_digits_val(s.drop_last()) * 10 + spec_digit(s.last())
    }
}

/// The digit part of unsigned-integer text: everything after one optional
/// leading plus sign.
pub open spec fn spec_u8_digits(s: Seq<char>) -> Seq<char> {
    if s.len() > 0 && s[0] == '+' {
        s.drop_first()
    } else {
        s
    }
}

/// Whether `s` is valid text for an 8-bit unsigned integer: an optional
/// plus sign, then at least one decimal digit, with a value of at most 255.
pub open spec fn spec_is_u8_text(s: Seq<char>) -> bool {
    &&& spec_u8_digits(s).len() > 0
    &&& forall|i: int|
        0 <= i < spec_u8_digits(s).len() ==> is_digit(#[trigger] spec_u8_digits(s)[i])
    &&& spec_digits_val(spec_u8_digits(s)) <= 255
}

/// The 8-bit unsigned integer that `s` denotes, or `None` when `s` is not
/// valid text for one.
pub open spec fn spec_parse_u8(s: Seq<char>) -> Option<u8> {
    if spec_is_u8_text(s) {
        Some(spec_digits_val(spec_u8_digits(s)) as u8)
    } else {
        None
    }
}

/// Parse decimal text as an 8-bit unsigned integer: an optional leading
/// plus sign, then decimal digits; leading zeros are accepted; any other
/// character, an empty digit run, or a value above 255 is rejected.
pub fn parse_u8(text: &str) -> (r: Option<u8>)
    ensures
        r == spec_parse_u8(text@),
{
    let n: usize = text.unicode_len();
    let start: usize = if n > 0 && text.get_char(0) == '+' {
        1
    } else {
        0
    };
    if start == n {
        return None;
    }
    let ghost d: Seq<char> = spec_u8_digits(text@);
    let mut acc: u32 = 0;
    let mut i: usize = start;
    while i < n
        invariant
            start <= i <= n,
            n == text@.len(),
            start == 0 || start == 1,
            start == 1 ==> n > 0 && text@[0] == '+',
            start == 0 && n > 0 ==> text@[0] != '+',
            d == spec_u8_digits(text@),
            d.len() == n - start,
            forall|j: int| 0 <= j < d.len() ==> d[j] == text@[j + start],
            forall|j: int| 0 <= j < i - start ==> is_digit(#[trigger] d[j]),
            spec_digits_val(d.subrange(0, i - start)) <= 255 ==> acc == spec_digits_val(
                d.subrange(0, i - start),
            ),
            spec_digits_val(d.subrange(0, i - start)) > 255 ==> acc == 256,
            acc <= 256,
        decreases n - i,
    {
        let c = text.get_char(i);
        let u: u32 = c as u32;
        if u < 48 || u > 57 {
            proof {
                assert(d[i - start] == c);
                assert(!is_digit(c));
            }
            return None;
        }
        let dv: u32 = u - 48;
        proof {
            assert(is_digit(c));
            assert(spec_digit(c) == dv as int);
            assert(d.subrange(0, i - start + 1).drop_last() =~= d.subrange(0, i - start));
            assert(d.subrange(0, i - start + 1).last() == d[i - start]);
        }
        let next: u32 = acc * 10 + dv;
        if next > 255 {
            acc = 256;
        } else {
            acc = next;
        }
        i = i + 1;
    }
    proof {
        assert(d.subrange(0, d.len() as int) =~= d);
    }
    if acc <= 255 {
        Some(acc as u8)
    } else {
        None
    }
}

} // verus!
