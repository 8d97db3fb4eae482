use vstd::prelude::*;
use hex::FromHexError;
use crate::hash::Hash32;

verus! {

#[verifier::external_type_specification]
#[verifier::external_body]
pub struct ExFromHexError(FromHexError);

/// A hexadecimal digit of either case.
pub open spec fn is_hex_char(c: char) -> bool {
    ('0' <= c && c <= '9') || ('a' <= c && c <= 'f') || ('A' <= c && c <= 'F')
}

/// Every character is a hexadecimal digit.
pub open spec fn all_hex(s: Seq<char>) -> bool {
    forall|i: int| 0 <= i < s.len() ==> is_hex_char(#[trigger] s[i])
}

/// The value of a hexadecimal digit.
pub open spec fn hex_digit_value(c: char) -> int {
    if '0' <= c && c <= '9' {
        c as int - '0' as int
    } else if 'a' <= c && c <= 'f' {
        c as int - 'a' as int + 10
    } else {
        c as int - 'A' as int + 10
    }
}

/// The bytes that a string of hexadecimal digit pairs spells, high digit first.
pub open spec fn hex_bytes(s: Seq<char>) -> Seq<u8> {
    Seq::new(
        s.len() / 2,
        |i: int| (hex_digit_value(s[2 * i]) * 16 + hex_digit_value(s[2 * i + 1])) as u8,
    )
}

/// Relies on hex::decode: it accepts exactly the strings of an even number
/// of hexadecimal digits (any other byte, including the bytes of a
/// non-ASCII character, is `InvalidHexCharacter`), and returns one byte per
/// digit pair.
#[verifier::external_body]
fn hex_decode(s: &str) -> (r: Result<Vec<u8>, FromHexError>)
    ensures
        r is Ok <==> (s@.len() % 2 == 0 && all_hex(s@)),
        r matches Ok(v) ==> v@ == hex_bytes(s@),
{
    hex::decode(s)
}

/// `s` with every leading `0x` removed.
pub open spec fn strip_0x(s: Seq<char>) -> Seq<char>
    decreases s.len(),
{
    if s.len() >= 2 && s[0] == '0' && s[1] == 'x' {
        strip_0x(s.subrange(2, s.len() as int))
    } else {
        s
    }
}

/// A hex string that `hex_to_bytes32` takes: after its `0x` prefixes, an
/// even number of hexadecimal digits, at most 64.
pub open spec fn is_hex32(s: Seq<char>) -> bool {
    let digits = strip_0x(s);
    digits.len() % 2 == 0 && digits.len() <= 64 && all_hex(digits)
}

/// The 32-byte word that a hex string denotes, right-aligned.
pub open spec fn hex32_value(s: Seq<char>) -> Seq<u8> {
    let b = hex_bytes(strip_0x(s));
    Seq::new((32 - b.len()) as nat, |i: int| 0u8) + b
}

/// Decodes a hex string, with or without `0x`, into a big-endian 32-byte
/// word, padding it with leading zero bytes.
pub fn hex_to_bytes32(hex: &str) -> (r: Hash32)
    requires
        is_hex32(hex@),
    ensures
        r@ == hex32_value(hex@),
{
    let len = hex.unicode_len();
    let mut start: usize = 0;
    assert(hex@.subrange(0, len as int) =~= hex@);
    while len - start >= 2 && hex.get_char(start) == '0' && hex.get_char(start + 1) == 'x'
        invariant
            start <= len,
            len == hex@.len(),
            strip_0x(hex@) == strip_0x(hex@.subrange(start as int, len as int)),
        decreases len - start,
    {
        let ghost rest = hex@.subrange(start as int, len as int);
        assert(rest.subrange(2, rest.len() as int) =~= hex@.subrange(
            start + 2,
            len as int,
        ));
        start = start + 2;
    }
    let digits = hex.substring_char(start, len);
    assert(strip_0x(digits@) == digits@);
    let decoded = match hex_decode(digits) {
        Ok(v) => v,
        Err(_) => {
            // not reached: the precondition makes `digits` an even run of digits
            return [0u8; 32];
        },
    };
    let n = decoded.len();
    let offset: usize = 32 - n;
    let mut bytes: Hash32 = [0u8; 32];
    let mut i: usize = 0;
    while i < n
        invariant
            n == decoded@.len(),
            n <= 32,
            offset == 32 - n,
            0 <= i <= n,
            forall|j: int| 0 <= j < offset ==> bytes@[j] == 0u8,
            forall|j: int| 0 <= j < i ==> bytes@[offset + j] == decoded@[j],
        decreases n - i,
    {
        bytes[offset + i] = decoded[i];
        i = i + 1;
    }
    assert(bytes@ =~= hex32_value(hex@));
    bytes
}

} // verus!
