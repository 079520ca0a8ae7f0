//! Verified text utilities: hex rendering of node ids, prefix and substring
//! search, and ASCII case folding, together with the byte-to-string boundary.
use vstd::prelude::*;
use vstd::string::StrSliceExecFns;
use vstd::utf8::{decode_utf8, valid_utf8};

verus! {

/// One hex digit, lower case, for a value below 16.
pub open spec fn hex_digit(d: u8) -> char
    recommends
        d < 16,
{
    if d < 10 {
        (d + 48) as char
    } else {
        (d + 87) as char
    }
}

/// The i-th nibble of a 32-bit value, counting from the most significant.
pub open spec fn nibble(n: u32, i: int) -> u8
    recommends
        0 <= i < 8,
{
    ((n >> (((7 - i) * 4) as u32)) & 0xf) as u8
}

/// The zero-padded 8-digit lower-case hex rendering of a 32-bit node id.
pub open spec fn hex8(n: u32) -> Seq<char> {
    Seq::new(8, |i: int| hex_digit(nibble(n, i)))
}

/// Relies on `String::push`: it appends the given character to the string.
#[verifier::external_body]
pub fn push_char(s: &mut String, c: char)
    ensures
        final(s)@ == old(s)@.push(c),
{
    s.push(c);
}

/// Renders a 32-bit node id as its zero-padded 8-digit lower-case hex form.
pub fn hex8_string(n: u32) -> (s: String)
    ensures
        s@ == hex8(n),
{
    let mut s = String::new();
    let mut i: usize = 0;
    while i < 8
        invariant
            0 <= i <= 8,
            s@ == hex8(n).take(i as int),
        decreases 8 - i,
    {
        let shift: u32 = (7 - i as u32) * 4;
        proof {
            assert((n >> shift) & 0xf < 16) by (bit_vector);
        }
        let d: u8 = ((n >> shift) & 0xf) as u8;
        let c: char = if d < 10 {
            (d + 48) as char
        } else {
            (d + 87) as char
        };
        proof {
            assert(d == nibble(n, i as int));
            assert(c == hex_digit(nibble(n, i as int)));
            assert(hex8(n).take(i + 1) =~= hex8(n).take(i as int).push(hex8(n)[i as int]));
        }
        push_char(&mut s, c);
        i = i + 1;
    }
    proof {
        assert(hex8(n).take(8) =~= hex8(n));
    }
    s
}

/// One hex digit, upper case, for a value below 16.
pub open spec fn hex_digit_upper(d: u8) -> char
    recommends
        d < 16,
{
    if d < 10 {
        (d + 48) as char
    } else {
        (d + 55) as char
    }
}

/// The i-th nibble of a 16-bit value, counting from the most significant.
pub open spec fn nibble16(n: u16, i: int) -> u8
    recommends
        0 <= i < 4,
{
    ((n >> (((3 - i) * 4) as u16)) & 0xf) as u8
}

/// The zero-padded 4-digit upper-case hex rendering of a 16-bit value.
pub open spec fn hex4_upper(n: u16) -> Seq<char> {
    Seq::new(4, |i: int| hex_digit_upper(nibble16(n, i)))
}

/// Renders a 16-bit value as its zero-padded 4-digit upper-case hex form.
pub fn hex4_upper_string(n: u16) -> (s: String)
    ensures
        s@ == hex4_upper(n),
{
    let mut s = String::new();
    let mut i: usize = 0;
    while i < 4
        invariant
            0 <= i <= 4,
            s@ == hex4_upper(n).take(i as int),
        decreases 4 - i,
    {
        let shift: u16 = (3 - i as u16) * 4;
        proof {
            assert((n >> shift) & 0xf < 16) by (bit_vector);
        }
        let d: u8 = ((n >> shift) & 0xf) as u8;
        let c: char = if d < 10 {
            (d + 48) as char
        } else {
            (d + 55) as char
        };
        proof {
            assert(d == nibble16(n, i as int));
            assert(c == hex_digit_upper(nibble16(n, i as int)));
            assert(hex4_upper(n).take(i + 1) =~= hex4_upper(n).take(i as int).push(
                hex4_upper(n)[i as int],
            ));
        }
        push_char(&mut s, c);
        i = i + 1;
    }
    proof {
        assert(hex4_upper(n).take(4) =~= hex4_upper(n));
    }
    s
}

/// Whether `p` is a prefix of `s`.
pub open spec fn starts_with(s: Seq<char>, p: Seq<char>) -> bool {
    s.len() >= p.len() && s.subrange(0, p.len() as int) == p
}

/// Checks whether the string begins with the given prefix.
pub fn str_starts_with(s: &str, p: &str) -> (r: bool)
    ensures
        r == starts_with(s@, p@),
{
    let n = p.unicode_len();
    if s.unicode_len() < n {
        return false;
    }
    let mut i: usize = 0;
    while i < n
        invariant
            0 <= i <= n,
            n == p@.len(),
            s@.len() >= n,
            forall|j: int| 0 <= j < i ==> s@[j] == p@[j],
        decreases n - i,
    {
        if s.get_char(i) != p.get_char(i) {
            proof {
                assert(s@.subrange(0, p@.len() as int)[i as int] == s@[i as int]);
            }
            return false;
        }
        i = i + 1;
    }
    proof {
        assert(s@.subrange(0, p@.len() as int) =~= p@);
    }
    true
}

/// Whether `n` occurs as a contiguous run inside `h`.
pub open spec fn contains_seq(h: Seq<char>, n: Seq<char>) -> bool {
    exists|i: int| 0 <= i && i + n.len() <= h.len() && #[trigger] h.subrange(i, i + n.len()) == n
}

/// Compares `n` against the run of `h` starting at `at`.
fn match_at(h: &str, n: &str, at: usize, hl: usize, nl: usize) -> (r: bool)
    requires
        hl == h@.len(),
        nl == n@.len(),
        at + nl <= hl,
    ensures
        r == (h@.subrange(at as int, at + n@.len()) == n@),
{
    let mut j: usize = 0;
    while j < nl
        invariant
            0 <= j <= nl,
            hl == h@.len(),
            nl == n@.len(),
            at + nl <= hl,
            forall|k: int| 0 <= k < j ==> h@[at + k] == n@[k],
        decreases nl - j,
    {
        if h.get_char(at + j) != n.get_char(j) {
            proof {
                assert(h@.subrange(at as int, at + n@.len())[j as int] == h@[at + j]);
            }
            return false;
        }
        j = j + 1;
    }
    proof {
        assert(h@.subrange(at as int, at + n@.len()) =~= n@);
    }
    true
}

/// Checks whether the string `h` contains the string `n`.
pub fn str_contains(h: &str, n: &str) -> (r: bool)
    ensures
        r == contains_seq(h@, n@),
{
    let hl = h.unicode_len();
    let nl = n.unicode_len();
    if nl > hl {
        return false;
    }
    if nl == 0 {
        proof {
            assert(h@.subrange(0, 0 + n@.len() as int) =~= n@);
        }
        return true;
    }
    let mut i: usize = 0;
    while i <= hl - nl
        invariant
            hl == h@.len(),
            nl == n@.len(),
            0 < nl <= hl,
            0 <= i <= hl - nl + 1,
            forall|j: int| 0 <= j < i ==> #[trigger] h@.subrange(j, j + n@.len()) != n@,
        decreases hl - nl + 1 - i,
    {
        if match_at(h, n, i, hl, nl) {
            return true;
        }
        i = i + 1;
    }
    false
}

/// Whether any needle of the list occurs in `h`.
pub open spec fn any_contained(h: Seq<char>, needles: Seq<Seq<char>>) -> bool {
    exists|i: int| 0 <= i < needles.len() && contains_seq(h, needles[i])
}

/// The ASCII lower-case fold of one character; other characters are unchanged.
pub open spec fn lower_char(c: char) -> char {
    if 'A' <= c && c <= 'Z' {
        ((c as u8) + 32) as char
    } else {
        c
    }
}

/// The ASCII lower-case fold of a character sequence.
pub open spec fn lower(s: Seq<char>) -> Seq<char> {
    s.map_values(|c: char| lower_char(c))
}

/// Folds one character to ASCII lower case.
pub fn char_lower(c: char) -> (r: char)
    ensures
        r == lower_char(c),
{
    if 'A' <= c && c <= 'Z' {
        ((c as u8) + 32) as char
    } else {
        c
    }
}

/// Compares `n` against the case-folded run of `h` starting at `at`.
fn match_at_fold(h: &str, n: &str, at: usize, hl: usize, nl: usize) -> (r: bool)
    requires
        hl == h@.len(),
        nl == n@.len(),
        at + nl <= hl,
    ensures
        r == (lower(h@).subrange(at as int, at + n@.len()) == n@),
{
    let mut j: usize = 0;
    while j < nl
        invariant
            0 <= j <= nl,
            hl == h@.len(),
            nl == n@.len(),
            at + nl <= hl,
            forall|k: int| 0 <= k < j ==> lower(h@)[at + k] == n@[k],
        decreases nl - j,
    {
        if char_lower(h.get_char(at + j)) != n.get_char(j) {
            proof {
                assert(lower(h@)[at + j] == lower_char(h@[at + j]));
                assert(lower(h@).subrange(at as int, at + n@.len())[j as int] == lower(h@)[at + j]);
            }
            return false;
        }
        proof {
            assert(lower(h@)[at + j] == lower_char(h@[at + j]));
        }
        j = j + 1;
    }
    proof {
        assert(lower(h@).subrange(at as int, at + n@.len()) =~= n@);
    }
    true
}

/// Checks whether the ASCII lower-case fold of `h` contains `n`
/// (so the needle is expected in lower case already).
pub fn str_contains_fold(h: &str, n: &str) -> (r: bool)
    ensures
        r == contains_seq(lower(h@), n@),
{
    let hl = h.unicode_len();
    let nl = n.unicode_len();
    proof {
        assert(lower(h@).len() == h@.len());
    }
    if nl > hl {
        return false;
    }
    if nl == 0 {
        proof {
            assert(lower(h@).subrange(0, 0 + n@.len() as int) =~= n@);
        }
        return true;
    }
    let mut i: usize = 0;
    while i <= hl - nl
        invariant
            hl == h@.len(),
            lower(h@).len() == hl,
            nl == n@.len(),
            0 < nl <= hl,
            0 <= i <= hl - nl + 1,
            forall|j: int| 0 <= j < i ==> #[trigger] lower(h@).subrange(j, j + n@.len()) != n@,
        decreases hl - nl + 1 - i,
    {
        if match_at_fold(h, n, i, hl, nl) {
            return true;
        }
        i = i + 1;
    }
    false
}

/// Relies on `core::str::from_utf8`: it succeeds exactly on valid UTF-8 input,
/// and the returned string's characters are the input's UTF-8 decoding.
#[verifier::external_body]
pub fn bytes_to_string(v: &Vec<u8>) -> (r: Option<String>)
    ensures
        r is Some <==> valid_utf8(v@),
        r matches Some(s) ==> s@ == decode_utf8(v@),
{
    match core::str::from_utf8(v.as_slice()) {
        Ok(s) => Some(s.to_string()),
        Err(_) => None,
    }
}

} // verus!
