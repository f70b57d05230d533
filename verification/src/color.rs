//! An RGB color: three bytes, written on the wire as six lowercase hex
//! digits in the order red, green, blue.

use vstd::prelude::*;
use crate::hex;
use crate::parse::{self, Cursor, Parsed, ParseError};

verus! {

/// An RGB color; the array holds red, green and blue in that order.
#[derive(Copy, Clone, Debug, Eq, PartialEq)]
pub struct Col(pub [u8; 3]);

/// A color on the wire: three 8-bit values in the order red, green,
/// blue.
pub open spec fn spec_parse_col(s: Seq<u8>) -> Parsed<(u8, u8, u8)> {
    match parse::spec_parse_u8(s) {
        Parsed::Done(r, s1) => match parse::spec_parse_u8(s1) {
            Parsed::Done(g, s2) => match parse::spec_parse_u8(s2) {
                Parsed::Done(b, s3) => Parsed::Done((r, g, b), s3),
                Parsed::Fail(e, s3) => Parsed::Fail(e, s3),
            },
            Parsed::Fail(e, s2) => Parsed::Fail(e, s2),
        },
        Parsed::Fail(e, s1) => Parsed::Fail(e, s1),
    }
}

/// A color as six lowercase hex digits: red, green, blue, two digits
/// each.
pub open spec fn spec_encode_col(c: Col) -> Seq<u8> {
    hex::spec_encode_byte(c.0[0]) + hex::spec_encode_byte(c.0[1]) + hex::spec_encode_byte(c.0[2])
}

impl Col {
    /// The components as (red, green, blue).
    pub open spec fn rgb(self) -> (u8, u8, u8) {
        (self.0[0], self.0[1], self.0[2])
    }

    /// Builds a color from its red, green and blue components.
    pub fn new(r: u8, g: u8, b: u8) -> (c: Col)
        ensures
            c.rgb() == (r, g, b),
    {
        Col([r, g, b])
    }

    /// Parses a color: three 8-bit values in order red, green, blue.
    pub fn parse(bytes: &mut Cursor) -> (res: Result<Col, ParseError>)
        ensures
            match spec_parse_col(old(bytes)@) {
                Parsed::Done(v, rest) => res matches Ok(c) && c.rgb() == v
                    && final(bytes)@ == rest,
                Parsed::Fail(e, rest) => res matches Err(e2) && e2 == e && final(bytes)@ == rest,
            },
    {
        let r = match parse::parse_u8(bytes) {
            Ok(v) => v,
            Err(e) => {
                return Err(e);
            },
        };
        let g = match parse::parse_u8(bytes) {
            Ok(v) => v,
            Err(e) => {
                return Err(e);
            },
        };
        let b = match parse::parse_u8(bytes) {
            Ok(v) => v,
            Err(e) => {
                return Err(e);
            },
        };
        Ok(Col::new(r, g, b))
    }

    /// Parses a color from an owned byte sequence; bytes after the six
    /// digits are left unread.
    pub fn from_bytes(bytes: Vec<u8>) -> (res: Result<Col, ParseError>)
        ensures
            match spec_parse_col(bytes@) {
                Parsed::Done(v, _) => res matches Ok(c) && c.rgb() == v,
                Parsed::Fail(e, _) => res matches Err(e2) && e2 == e,
            },
    {
        let mut cursor = Cursor::new(bytes);
        Col::parse(&mut cursor)
    }

    /// Encodes the color as six lowercase hex digits: red, green, blue,
    /// two digits each.
    pub fn encode(&self) -> (r: Vec<u8>)
        ensures
            r@ == spec_encode_col(*self),
    {
        let mut out: Vec<u8> = Vec::new();
        hex::print_byte(self.0[0], &mut out);
        hex::print_byte(self.0[1], &mut out);
        hex::print_byte(self.0[2], &mut out);
        proof {
            assert(out@ =~= spec_encode_col(*self));
        }
        out
    }
}

/// Round trip: the six-digit encoding of any color parses back to
/// exactly that color's components, consuming the whole encoding.
pub proof fn lemma_color_round_trip(c: Col)
    ensures
        spec_parse_col(spec_encode_col(c)) == Parsed::<(u8, u8, u8)>::Done(
            c.rgb(),
            Seq::<u8>::empty(),
        ),
{
    let e0 = hex::spec_encode_byte(c.0[0]);
    let e1 = hex::spec_encode_byte(c.0[1]);
    let e2 = hex::spec_encode_byte(c.0[2]);
    assert(spec_encode_col(c) =~= e0 + (e1 + (e2 + Seq::<u8>::empty())));
    parse::lemma_parse_encoded_byte(c.0[0], e1 + (e2 + Seq::<u8>::empty()));
    parse::lemma_parse_encoded_byte(c.0[1], e2 + Seq::<u8>::empty());
    parse::lemma_parse_encoded_byte(c.0[2], Seq::<u8>::empty());
}

} // verus!
