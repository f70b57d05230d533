//! Parsing infrastructure: the error model, a forward-only byte cursor,
//! and the fixed-width numeric readers (8-bit and 16-bit values written
//! as 2 and 4 hex digits).
//!
//! Each parser is specified against a mathematical model: a spec function
//! from the remaining input to either the parsed value and the unread
//! remainder, or the error and the remainder.

use vstd::prelude::*;
use crate::hex;

verus! {

/// Why decoding failed.  Every failure aborts the current command and is
/// reported verbatim; the decoder never resynchronizes on its own.
#[derive(Debug, Eq, PartialEq)]
pub enum ParseError {
    /// A byte is not a valid hex digit where one was expected, or an
    /// opcode byte is unrecognized; carries the offending byte.
    Byte(u8),
    /// The input ended before a fixed-width field was fully read.
    End,
    /// A command's payload parsed, but it was not followed by exactly
    /// one newline.
    NotNewLine,
    /// An image upload named the reserved slot 0.
    ZeroIndex,
}

/// Outcome of running one parser on a byte sequence: the parsed value and
/// the unread remainder, or the error together with what is left after
/// the bytes the parser consumed before failing.
pub enum Parsed<T> {
    Done(T, Seq<u8>),
    Fail(ParseError, Seq<u8>),
}

/// A forward-only cursor over an owned byte sequence.  Once a byte is
/// read it is never re-examined; the view is the remaining, unread bytes.
pub struct Cursor {
    bytes: Vec<u8>,
    pos: usize,
}

impl View for Cursor {
    type V = Seq<u8>;

    closed spec fn view(&self) -> Seq<u8> {
        self.bytes@.skip(self.pos as int)
    }
}

impl Cursor {
    #[verifier::type_invariant]
    spec fn wf(self) -> bool {
        self.pos <= self.bytes@.len()
    }

    /// Wraps a byte sequence; nothing has been consumed yet.
    pub fn new(bytes: Vec<u8>) -> (c: Cursor)
        ensures
            c@ == bytes@,
    {
        let c = Cursor { bytes, pos: 0 };
        proof {
            assert(c@ =~= c.bytes@);
        }
        c
    }

    /// Consumes and returns the front byte, or `None` when the input is
    /// exhausted.
    pub fn next(&mut self) -> (r: Option<u8>)
        ensures
            old(self)@.len() == 0 ==> r is None && final(self)@ == old(self)@,
            old(self)@.len() > 0 ==> r == Some(old(self)@[0]) && final(self)@ == old(self)@.skip(1),
    {
        proof {
            use_type_invariant(&*self);
        }
        if self.pos < self.bytes.len() {
            let b = self.bytes[self.pos];
            self.pos = self.pos + 1;
            proof {
                assert(self@ =~= old(self)@.skip(1));
            }
            Some(b)
        } else {
            None
        }
    }
}

/// One byte off the front: the head and the tail, or `End` on empty
/// input with nothing consumed.
pub open spec fn spec_next(s: Seq<u8>) -> Parsed<u8> {
    if s.len() == 0 {
        Parsed::Fail(ParseError::End, s)
    } else {
        Parsed::Done(s[0], s.skip(1))
    }
}

/// An unsigned 8-bit value: two hex digits, high nibble first.  Both
/// bytes are consumed before either is validated, and the first invalid
/// one is reported.
pub open spec fn spec_parse_u8(s: Seq<u8>) -> Parsed<u8> {
    match spec_next(s) {
        Parsed::Done(a, s1) => match spec_next(s1) {
            Parsed::Done(b, s2) => if !hex::is_hex_digit(a) {
                Parsed::Fail(ParseError::Byte(a), s2)
            } else if !hex::is_hex_digit(b) {
                Parsed::Fail(ParseError::Byte(b), s2)
            } else {
                Parsed::Done((16 * hex::hex_val(a) + hex::hex_val(b)) as u8, s2)
            },
            Parsed::Fail(e, s2) => Parsed::Fail(e, s2),
        },
        Parsed::Fail(e, s1) => Parsed::Fail(e, s1),
    }
}

/// An unsigned 16-bit value: two 8-bit values, big-endian at the byte
/// level.
pub open spec fn spec_parse_u16(s: Seq<u8>) -> Parsed<u16> {
    match spec_parse_u8(s) {
        Parsed::Done(a, s1) => match spec_parse_u8(s1) {
            Parsed::Done(b, s2) => Parsed::Done((a as u16) << 8 | (b as u16), s2),
            Parsed::Fail(e, s2) => Parsed::Fail(e, s2),
        },
        Parsed::Fail(e, s1) => Parsed::Fail(e, s1),
    }
}

impl ParseError {
    /// Reads one byte from the cursor, reporting `End` when the input is
    /// exhausted.
    pub(crate) fn next(bytes: &mut Cursor) -> (r: Result<u8, ParseError>)
        ensures
            match spec_next(old(bytes)@) {
                Parsed::Done(v, rest) => r matches Ok(b) && b == v && final(bytes)@ == rest,
                Parsed::Fail(e, rest) => r matches Err(e2) && e2 == e && final(bytes)@ == rest,
            },
    {
        match bytes.next() {
            Some(b) => Ok(b),
            None => Err(ParseError::End),
        }
    }
}

/// Parses an unsigned 8-bit value from two hex digits.
pub fn parse_u8(bytes: &mut Cursor) -> (r: Result<u8, ParseError>)
    ensures
        match spec_parse_u8(old(bytes)@) {
            Parsed::Done(v, rest) => r matches Ok(b) && b == v && final(bytes)@ == rest,
            Parsed::Fail(e, rest) => r matches Err(e2) && e2 == e && final(bytes)@ == rest,
        },
{
    let a = match ParseError::next(bytes) {
        Ok(b) => b,
        Err(e) => {
            return Err(e);
        },
    };
    let b = match ParseError::next(bytes) {
        Ok(b) => b,
        Err(e) => {
            return Err(e);
        },
    };
    match hex::read_u8([a, b]) {
        Ok(v) => Ok(v),
        Err(e) => Err(ParseError::Byte(e)),
    }
}

/// Parses an unsigned 16-bit value from four hex digits, big-endian at
/// the byte level.
pub fn parse_u16(bytes: &mut Cursor) -> (r: Result<u16, ParseError>)
    ensures
        match spec_parse_u16(old(bytes)@) {
            Parsed::Done(v, rest) => r matches Ok(b) && b == v && final(bytes)@ == rest,
            Parsed::Fail(e, rest) => r matches Err(e2) && e2 == e && final(bytes)@ == rest,
        },
{
    let a = match parse_u8(bytes) {
        Ok(b) => b,
        Err(e) => {
            return Err(e);
        },
    };
    let b = match parse_u8(bytes) {
        Ok(b) => b,
        Err(e) => {
            return Err(e);
        },
    };
    Ok((a as u16) << 8 | (b as u16))
}

/// Round trip at the byte level: the two-digit encoding of any byte,
/// followed by anything, parses back to exactly that byte, consuming
/// exactly the two digits.
pub proof fn lemma_parse_encoded_byte(b: u8, rest: Seq<u8>)
    ensures
        spec_parse_u8(hex::spec_encode_byte(b) + rest) == Parsed::Done(b, rest),
{
    let hi = b >> 4 & 0x0F;
    let lo = b & 0x0F;
    assert((b >> 4 & 0x0F) < 16 && (b & 0x0F) < 16 && 16 * (b >> 4 & 0x0F) + (b & 0x0F) == b)
        by (bit_vector);
    hex::lemma_hex_char_val(hi);
    hex::lemma_hex_char_val(lo);
    let s = hex::spec_encode_byte(b) + rest;
    assert(s[0] == hex::spec_hex_char(hi));
    assert(s[1] == hex::spec_hex_char(lo));
    assert(s.skip(1)[0] == s[1]);
    assert(s.skip(1).skip(1) =~= rest);
}

} // verus!
