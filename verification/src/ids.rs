//! Lower-case hexadecimal text and UUID normalization.
use vstd::prelude::*;

use crate::text::{chars_of, string_from};

verus! {

/// The lower-case hexadecimal digit of `n` (`n < 16`).
pub open spec fn hex_digit(n: u8) -> char {
    if n < 10 {
        (48 + n) as char
    } else {
        (87 + n) as char
    }
}

/// Two lower-case hexadecimal digits of a byte (`{:02x}`).
pub open spec fn hex_pair(b: u8) -> Seq<char> {
    seq![hex_digit(b / 16), hex_digit(b % 16)]
}

/// Lower-case hexadecimal text of a byte sequence.
pub open spec fn hex_lower(s: Seq<u8>) -> Seq<char>
    decreases s.len(),
{
    if s.len() == 0 {
        Seq::empty()
    } else {
        hex_lower(s.drop_last()) + hex_pair(s.last())
    }
}

pub proof fn lemma_hex_lower_len(s: Seq<u8>)
    ensures
        hex_lower(s).len() == 2 * s.len(),
    decreases s.len(),
{
    if s.len() > 0 {
        lemma_hex_lower_len(s.drop_last());
    }
}

fn hex_digit_exec(n: u8) -> (c: char)
    requires
        n < 16,
    ensures
        c == hex_digit(n),
{
    if n < 10 {
        (48 + n) as char
    } else {
        (87 + n) as char
    }
}

/// Appends the lower-case hexadecimal text of `bytes[from..to]`.
pub fn push_hex(out: &mut Vec<char>, bytes: &[u8], from: usize, to: usize)
    requires
        from <= to <= bytes@.len(),
    ensures
        final(out)@ == old(out)@ + hex_lower(bytes@.subrange(from as int, to as int)),
{
    let ghost o = out@;
    let mut i: usize = from;
    proof {
        assert(bytes@.subrange(from as int, from as int) =~= Seq::<u8>::empty());
        assert(o + hex_lower(Seq::<u8>::empty()) =~= o);
    }
    while i < to
        invariant
            from <= i <= to <= bytes@.len(),
            out@ == o + hex_lower(bytes@.subrange(from as int, i as int)),
        decreases to - i,
    {
        let b = bytes[i];
        out.push(hex_digit_exec(b / 16));
        out.push(hex_digit_exec(b % 16));
        proof {
            let s = bytes@.subrange(from as int, i + 1);
            assert(s.drop_last() =~= bytes@.subrange(from as int, i as int));
            assert(s.last() == b);
            assert(out@ =~= o + hex_lower(s));
        }
        i = i + 1;
    }
}

/// Lower-case hexadecimal text of a byte slice.
pub fn to_hex_lower(bytes: &[u8]) -> (s: String)
    ensures
        s@ == hex_lower(bytes@),
{
    let mut out: Vec<char> = Vec::new();
    push_hex(&mut out, bytes, 0, bytes.len());
    assert(bytes@.subrange(0, bytes@.len() as int) =~= bytes@);
    assert(out@ =~= hex_lower(bytes@));
    string_from(out.as_slice())
}

/// The hyphenated lower-case text of 16 UUID bytes
/// (`xxxxxxxx-xxxx-xxxx-xxxx-xxxxxxxxxxxx`).
pub open spec fn uuid_text(b: Seq<u8>) -> Seq<char> {
    hex_lower(b.subrange(0, 4)) + seq!['-'] + hex_lower(b.subrange(4, 6)) + seq!['-'] + hex_lower(
        b.subrange(6, 8),
    ) + seq!['-'] + hex_lower(b.subrange(8, 10)) + seq!['-'] + hex_lower(b.subrange(10, 16))
}

/// The hyphenated lower-case text of a UUID given by its bytes.
pub fn format_uuid(b: &[u8; 16]) -> (s: String)
    ensures
        s@ == uuid_text(b@),
{
    let bs: &[u8] = b;
    let mut out: Vec<char> = Vec::new();
    push_hex(&mut out, bs, 0, 4);
    out.push('-');
    push_hex(&mut out, bs, 4, 6);
    out.push('-');
    push_hex(&mut out, bs, 6, 8);
    out.push('-');
    push_hex(&mut out, bs, 8, 10);
    out.push('-');
    push_hex(&mut out, bs, 10, 16);
    assert(out@ =~= uuid_text(b@));
    string_from(out.as_slice())
}

/// The 16 bytes of the UUID that a text spells, if it spells one, as
/// decided by `uuid::Uuid::parse_str`.
pub uninterp spec fn uuid_parse_bytes(s: Seq<char>) -> Option<Seq<u8>>;

/// Calls `uuid::Uuid::parse_str`; its result is named `uuid_parse_bytes`.
#[verifier::external_body]
fn parse_uuid(s: &str) -> (r: Option<[u8; 16]>)
    ensures
        r matches Some(b) ==> uuid_parse_bytes(s@) == Some(b@),
        r is None ==> uuid_parse_bytes(s@) is None,
{
    match uuid::Uuid::parse_str(s) {
        Ok(id) => Some(*id.as_bytes()),
        Err(_) => None,
    }
}

/// The canonical (hyphenated, lower-case) text of the UUID spelled by `s`.
pub open spec fn canonical_uuid(s: Seq<char>) -> Option<Seq<char>> {
    match uuid_parse_bytes(s) {
        Some(b) => Some(uuid_text(b)),
        None => None,
    }
}

/// Parses a UUID and returns its canonical text.
pub fn normalize_uuid(s: &str) -> (r: Option<String>)
    ensures
        r is Some == canonical_uuid(s@) is Some,
        r matches Some(t) ==> canonical_uuid(s@) == Some(t@),
{
    match parse_uuid(s) {
        Some(b) => Some(format_uuid(&b)),
        None => None,
    }
}

/// Whether `s` spells a UUID.
pub fn is_uuid(s: &str) -> (r: bool)
    ensures
        r == uuid_parse_bytes(s@) is Some,
{
    parse_uuid(s).is_some()
}

} // verus!
