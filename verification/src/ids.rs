//! Well-formedness of the opaque identifiers used throughout the catalogs and
//! the ledger: the four textual shapes that uuid parsing accepts — simple
//! (32 hexadecimal digits), canonical hyphenated
//! (eight-four-four-four-twelve), braced, and URN — and the canonical form a
//! parsed id prints as.

use vstd::prelude::*;

verus! {

/// A hexadecimal digit, either case.
pub open spec fn is_hex_digit(c: char) -> bool {
    let n = c as u32;
    (('0' as u32) <= n && n <= ('9' as u32)) || (('a' as u32) <= n && n <= ('f' as u32)) || ((
    'A' as u32) <= n && n <= ('F' as u32))
}

/// What the character at position `i` of the hyphenated form must be: a
/// hyphen at the four separator positions, a hexadecimal digit everywhere
/// else.
pub open spec fn uuid_char_ok(s: Seq<char>, i: int) -> bool {
    if i == 8 || i == 13 || i == 18 || i == 23 {
        s[i] == '-'
    } else {
        is_hex_digit(s[i])
    }
}

/// The canonical hyphenated shape: 36 characters in five hyphen-separated
/// groups of hexadecimal digits.
pub open spec fn hyphenated_uuid(s: Seq<char>) -> bool {
    s.len() == 36 && forall|i: int| 0 <= i < 36 ==> uuid_char_ok(s, i)
}

/// The simple shape: 32 hexadecimal digits, no hyphens.
pub open spec fn simple_uuid(s: Seq<char>) -> bool {
    s.len() == 32 && forall|i: int| 0 <= i < 32 ==> is_hex_digit(#[trigger] s[i])
}

/// The braced shape: the hyphenated form wrapped in curly braces.
pub open spec fn braced_uuid(s: Seq<char>) -> bool {
    s.len() == 38 && s[0] == '{' && s[37] == '}' && hyphenated_uuid(s.subrange(1, 37))
}

/// The URN shape: the hyphenated form after a case-insensitive `urn:uuid:`
/// prefix.
pub open spec fn urn_uuid(s: Seq<char>) -> bool {
    &&& s.len() == 45
    &&& (s[0] == 'u' || s[0] == 'U')
    &&& (s[1] == 'r' || s[1] == 'R')
    &&& (s[2] == 'n' || s[2] == 'N')
    &&& s[3] == ':'
    &&& (s[4] == 'u' || s[4] == 'U')
    &&& (s[5] == 'u' || s[5] == 'U')
    &&& (s[6] == 'i' || s[6] == 'I')
    &&& (s[7] == 'd' || s[7] == 'D')
    &&& s[8] == ':'
    &&& hyphenated_uuid(s.subrange(9, 45))
}

/// A well-formed opaque id: any of the four textual shapes that
/// `uuid::Uuid::parse_str` accepts.
pub open spec fn spec_is_uuid(s: Seq<char>) -> bool {
    simple_uuid(s) || hyphenated_uuid(s) || braced_uuid(s) || urn_uuid(s)
}

/// How many hyphens the hyphenated form holds before its `i`-th hexadecimal
/// digit.
pub open spec fn hyph_gap(i: int) -> int {
    if i < 8 {
        0
    } else if i < 12 {
        1
    } else if i < 16 {
        2
    } else if i < 20 {
        3
    } else {
        4
    }
}

/// The 32 hexadecimal digits of the hyphenated form, hyphens skipped.
pub open spec fn hyphenated_digits(s: Seq<char>) -> Seq<char> {
    Seq::new(32, |i: int| s[i + hyph_gap(i)])
}

/// The 32 hexadecimal digits of a well-formed id, in order, whichever of the
/// four shapes carries them.
pub open spec fn uuid_digits(s: Seq<char>) -> Seq<char> {
    if simple_uuid(s) {
        s
    } else if hyphenated_uuid(s) {
        hyphenated_digits(s)
    } else if braced_uuid(s) {
        hyphenated_digits(s.subrange(1, 37))
    } else {
        hyphenated_digits(s.subrange(9, 45))
    }
}

/// A hexadecimal digit folded to lowercase.
pub open spec fn lower_hex_digit(c: char) -> char {
    if c == 'A' {
        'a'
    } else if c == 'B' {
        'b'
    } else if c == 'C' {
        'c'
    } else if c == 'D' {
        'd'
    } else if c == 'E' {
        'e'
    } else if c == 'F' {
        'f'
    } else {
        c
    }
}

/// How many hyphens the canonical form holds before position `i`.
pub open spec fn canonical_gap(i: int) -> int {
    if i < 8 {
        0
    } else if i < 13 {
        1
    } else if i < 18 {
        2
    } else if i < 23 {
        3
    } else {
        4
    }
}

/// The canonical form of a well-formed id: its 32 digits folded to
/// lowercase, hyphenated eight-four-four-four-twelve.
pub open spec fn spec_canonical(s: Seq<char>) -> Seq<char> {
    Seq::new(
        36,
        |i: int|
            if i == 8 || i == 13 || i == 18 || i == 23 {
                '-'
            } else {
                lower_hex_digit(uuid_digits(s)[i - canonical_gap(i)])
            },
    )
}

/// Relies on `uuid::Uuid::new_v4` and its `Display` impl: the formatter
/// writes the canonical hyphenated shape, 36 characters of lowercase
/// hexadecimal digits with hyphens at positions 8, 13, 18 and 23.
#[verifier::external_body]
pub(crate) fn fresh_uuid() -> (r: String)
    ensures
        hyphenated_uuid(r@),
{
    uuid::Uuid::new_v4().to_string()
}

/// Relies on `uuid::Uuid::parse_str` and the `Display` impl: parsing accepts
/// exactly the four textual shapes, and the parsed value prints as the
/// canonical hyphenated lowercase form of the same 32 digits, in order.
#[verifier::external_body]
pub(crate) fn canonical_uuid(s: &str) -> (r: Option<String>)
    ensures
        r is Some <==> spec_is_uuid(s@),
        r matches Some(c) ==> c@ == spec_canonical(s@),
{
    match uuid::Uuid::parse_str(s) {
        Ok(u) => Some(u.to_string()),
        Err(_) => None,
    }
}

fn is_hex_digit_exec(c: char) -> (r: bool)
    ensures
        r == is_hex_digit(c),
{
    let n = c as u32;
    (('0' as u32) <= n && n <= ('9' as u32)) || (('a' as u32) <= n && n <= ('f' as u32)) || ((
    'A' as u32) <= n && n <= ('F' as u32))
}

/// Whether the 36 characters of `s` starting at `off` are the hyphenated
/// form.
fn hyphenated_at(s: &str, off: usize) -> (r: bool)
    requires
        off <= 9,
        off + 36 <= s@.len(),
    ensures
        r == hyphenated_uuid(s@.subrange(off as int, off as int + 36)),
{
    let ghost sub = s@.subrange(off as int, off as int + 36);
    let mut i: usize = 0;
    while i < 36
        invariant
            off <= 9,
            off + 36 <= s@.len(),
            i <= 36,
            sub == s@.subrange(off as int, off as int + 36),
            forall|j: int| 0 <= j < i ==> uuid_char_ok(sub, j),
        decreases 36 - i,
    {
        let c = s.get_char(off + i);
        proof {
            assert(sub[i as int] == s@[off + i]);
        }
        if i == 8 || i == 13 || i == 18 || i == 23 {
            if c != '-' {
                assert(!uuid_char_ok(sub, i as int));
                return false;
            }
        } else {
            if !is_hex_digit_exec(c) {
                assert(!uuid_char_ok(sub, i as int));
                return false;
            }
        }
        i = i + 1;
    }
    true
}

/// Whether `s` is a well-formed opaque id, in any of the four shapes.
/// Malformed ids are rejected by every request validator before any state is
/// touched.
pub fn is_uuid(s: &str) -> (r: bool)
    ensures
        r == spec_is_uuid(s@),
{
    let len = s.unicode_len();
    if len == 32 {
        let mut i: usize = 0;
        while i < 32
            invariant
                s@.len() == 32,
                i <= 32,
                forall|j: int| 0 <= j < i ==> is_hex_digit(#[trigger] s@[j]),
            decreases 32 - i,
        {
            if !is_hex_digit_exec(s.get_char(i)) {
                return false;
            }
            i = i + 1;
        }
        true
    } else if len == 36 {
        let r = hyphenated_at(s, 0);
        proof {
            assert(s@.subrange(0, 36) =~= s@);
        }
        r
    } else if len == 38 {
        if s.get_char(0) != '{' || s.get_char(37) != '}' {
            return false;
        }
        hyphenated_at(s, 1)
    } else if len == 45 {
        let c0 = s.get_char(0);
        let c1 = s.get_char(1);
        let c2 = s.get_char(2);
        let c4 = s.get_char(4);
        let c5 = s.get_char(5);
        let c6 = s.get_char(6);
        let c7 = s.get_char(7);
        let prefix_ok = (c0 == 'u' || c0 == 'U') && (c1 == 'r' || c1 == 'R') && (c2 == 'n' || c2
            == 'N') && s.get_char(3) == ':' && (c4 == 'u' || c4 == 'U') && (c5 == 'u' || c5 == 'U')
            && (c6 == 'i' || c6 == 'I') && (c7 == 'd' || c7 == 'D') && s.get_char(8) == ':';
        if !prefix_ok {
            return false;
        }
        hyphenated_at(s, 9)
    } else {
        false
    }
}

} // verus!
