//! A 4-bit palette/color index.  The constructor rejects out-of-range
//! input, so a value of this type always lies in `0..=15`.

use vstd::prelude::*;
use crate::hex;
use crate::parse::{Cursor, Parsed, ParseError};

verus! {

/// A 4-bit unsigned index; always in `0..=15`.
#[derive(Copy, Clone, Debug, Eq, PartialEq)]
pub struct Nib(u8);

impl View for Nib {
    type V = u8;

    closed spec fn view(&self) -> u8 {
        self.0
    }
}

/// The numeric values of a sequence of nibbles, in order.
pub open spec fn nib_values(s: Seq<Nib>) -> Seq<u8> {
    Seq::new(s.len(), |i: int| s[i]@)
}

/// A nibble on the wire: one hex digit.  Any digit value `0..=15` is
/// representable, so decoding fails only on an invalid byte.
pub open spec fn spec_parse_nib(s: Seq<u8>) -> Parsed<u8> {
    match crate::parse::spec_next(s) {
        Parsed::Done(b, s1) => if hex::is_hex_digit(b) {
            Parsed::Done(hex::hex_val(b) as u8, s1)
        } else {
            Parsed::Fail(ParseError::Byte(b), s1)
        },
        Parsed::Fail(e, s1) => Parsed::Fail(e, s1),
    }
}

impl Nib {
    #[verifier::type_invariant]
    spec fn wf(self) -> bool {
        self.0 <= 0x0F
    }

    /// Wraps a 4-bit value; values above 15 are rejected.
    pub fn new(byte: u8) -> (r: Option<Nib>)
        ensures
            byte <= 0x0F <==> r is Some,
            r matches Some(n) ==> n@ == byte,
    {
        if byte <= 0x0F {
            Some(Nib(byte))
        } else {
            None
        }
    }

    /// The index as a byte; always at most 15.
    pub fn get(self) -> (r: u8)
        ensures
            r == self@,
            r <= 0x0F,
    {
        proof {
            use_type_invariant(self);
        }
        self.0
    }

    /// Parses one nibble: a single hex digit.
    pub fn parse(bytes: &mut Cursor) -> (r: Result<Nib, ParseError>)
        ensures
            match spec_parse_nib(old(bytes)@) {
                Parsed::Done(v, rest) => r matches Ok(n) && n@ == v && final(bytes)@ == rest,
                Parsed::Fail(e, rest) => r matches Err(e2) && e2 == e && final(bytes)@ == rest,
            },
    {
        let byte = match ParseError::next(bytes) {
            Ok(b) => b,
            Err(e) => {
                return Err(e);
            },
        };
        let idx = match hex::read_u4(byte) {
            Ok(v) => v,
            Err(e) => {
                return Err(ParseError::Byte(e));
            },
        };
        match Nib::new(idx) {
            Some(n) => Ok(n),
            None => vstd::pervasive::unreached(),
        }
    }

    /// Parses one nibble from an owned byte sequence; bytes after the
    /// digit are left unread.
    pub fn from_bytes(bytes: Vec<u8>) -> (r: Result<Nib, ParseError>)
        ensures
            match spec_parse_nib(bytes@) {
                Parsed::Done(v, _) => r matches Ok(n) && n@ == v,
                Parsed::Fail(e, _) => r matches Err(e2) && e2 == e,
            },
    {
        let mut cursor = Cursor::new(bytes);
        Nib::parse(&mut cursor)
    }
}

} // verus!
