//! Hexadecimal primitives: one ASCII digit to a 4-bit value, two digits
//! to a byte.  Only `'0'..='9'` and lowercase `'a'..='f'` are accepted.

use vstd::prelude::*;

verus! {

/// True when `b` is an ASCII hex digit of the wire alphabet:
/// `'0'..='9'` or lowercase `'a'..='f'`.
pub open spec fn is_hex_digit(b: u8) -> bool {
    (0x30 <= b && b <= 0x39) || (0x61 <= b && b <= 0x66)
}

/// Numeric value of a hex digit: `'0'..='9'` map to 0..=9,
/// `'a'..='f'` map to 10..=15.
pub open spec fn hex_val(b: u8) -> int
    recommends
        is_hex_digit(b),
{
    if 0x30 <= b && b <= 0x39 {
        b - 0x30
    } else {
        b - 0x61 + 10
    }
}

/// Decodes one ASCII hex digit to its 4-bit value; a byte outside the
/// alphabet (uppercase included) is returned unchanged as the error.
pub fn read_u4(a: u8) -> (r: Result<u8, u8>)
    ensures
        is_hex_digit(a) <==> r is Ok,
        r matches Ok(v) ==> v == hex_val(a) && v < 16,
        r matches Err(e) ==> e == a,
{
    if 0x30 <= a && a <= 0x39 {
        Ok(a - 0x30)
    } else if 0x61 <= a && a <= 0x66 {
        Ok(a - 0x61 + 10)
    } else {
        Err(a)
    }
}

/// Combines two hex digits, high nibble first, into one byte; the first
/// invalid digit is returned unchanged as the error.
pub fn read_u8(d: [u8; 2]) -> (r: Result<u8, u8>)
    ensures
        (is_hex_digit(d[0]) && is_hex_digit(d[1])) <==> r is Ok,
        r matches Ok(v) ==> v == 16 * hex_val(d[0]) + hex_val(d[1]),
        r matches Err(e) ==> e == (if is_hex_digit(d[0]) {
            d[1]
        } else {
            d[0]
        }),
{
    let hi = match read_u4(d[0]) {
        Ok(v) => v,
        Err(e) => {
            return Err(e);
        },
    };
    let lo = match read_u4(d[1]) {
        Ok(v) => v,
        Err(e) => {
            return Err(e);
        },
    };
    assert((hi << 4 | lo) == 16 * hi + lo) by (bit_vector)
        requires
            hi < 16 && lo < 16,
    ;
    Ok(hi << 4 | lo)
}

/// The lowercase hex digit for a 4-bit value: `0..=9` map to `'0'..='9'`,
/// `10..=15` map to `'a'..='f'`.
pub open spec fn spec_hex_char(n: u8) -> u8
    recommends
        n < 16,
{
    if n < 10 {
        (0x30 + n) as u8
    } else {
        (0x61 + n - 10) as u8
    }
}

/// A byte as two lowercase hex digits, high nibble first.
pub open spec fn spec_encode_byte(b: u8) -> Seq<u8> {
    seq![spec_hex_char(b >> 4 & 0x0F), spec_hex_char(b & 0x0F)]
}

/// The lowercase hex digit for a 4-bit value.
fn hex_char(n: u8) -> (r: u8)
    requires
        n < 16,
    ensures
        r == spec_hex_char(n),
{
    if n < 10 {
        0x30 + n
    } else {
        0x61 + n - 10
    }
}

/// Appends the two-digit lowercase hex encoding of a byte, high nibble
/// first.
pub fn print_byte(b: u8, out: &mut Vec<u8>)
    ensures
        final(out)@ == old(out)@ + spec_encode_byte(b),
{
    proof {
        assert(b >> 4 & 0x0F < 16 && b & 0x0F < 16) by (bit_vector);
    }
    out.push(hex_char(b >> 4 & 0x0F));
    out.push(hex_char(b & 0x0F));
    proof {
        assert(out@ =~= old(out)@ + spec_encode_byte(b));
    }
}

/// The digit for a 4-bit value is a valid lowercase hex digit, decodes
/// back to the value, and is plain ASCII.
pub proof fn lemma_hex_char_val(n: u8)
    requires
        n < 16,
    ensures
        is_hex_digit(spec_hex_char(n)),
        hex_val(spec_hex_char(n)) == n,
        spec_hex_char(n) < 128,
{
}

} // verus!
