//! A vertex: a signed 16-bit position, an unsigned 8-bit texture
//! coordinate pair, and a 4-bit color index.  Positions travel on the
//! wire as unsigned 16-bit values and are reinterpreted as signed
//! two's-complement quantities, so values at or above 0x8000 come out
//! negative.

use vstd::prelude::*;
use crate::nibble::{self, Nib};
use crate::parse::{self, Cursor, Parsed, ParseError};

verus! {

/// A vertex: position, texture coordinates and color index.
#[derive(Copy, Clone, Debug, Eq, PartialEq)]
pub struct Pnt {
    /// Position x, y, z; each the two's-complement reinterpretation of
    /// an unsigned 16-bit parse result.
    pub pos: [i16; 3],
    /// Texture coordinates u, v.
    pub tex: [u8; 2],
    /// Color index.
    pub col: Nib,
}

/// The parsed fields of a vertex, with the color index as its numeric
/// value.
pub struct SpecPnt {
    pub x: i16,
    pub y: i16,
    pub z: i16,
    pub u: u8,
    pub v: u8,
    pub c: u8,
}

/// Whether a vertex carries exactly the given parsed fields.
pub open spec fn pnt_matches(p: Pnt, sp: SpecPnt) -> bool {
    &&& p.pos[0] == sp.x
    &&& p.pos[1] == sp.y
    &&& p.pos[2] == sp.z
    &&& p.tex[0] == sp.u
    &&& p.tex[1] == sp.v
    &&& p.col@ == sp.c
}

/// A vertex on the wire: three 16-bit positions (reinterpreted signed),
/// two 8-bit texture coordinates, one nibble color index; 17 hex
/// characters in all.
pub open spec fn spec_parse_pnt(s: Seq<u8>) -> Parsed<SpecPnt> {
    match parse::spec_parse_u16(s) {
        Parsed::Done(x, s1) => match parse::spec_parse_u16(s1) {
            Parsed::Done(y, s2) => match parse::spec_parse_u16(s2) {
                Parsed::Done(z, s3) => match parse::spec_parse_u8(s3) {
                    Parsed::Done(u, s4) => match parse::spec_parse_u8(s4) {
                        Parsed::Done(v, s5) => match nibble::spec_parse_nib(s5) {
                            Parsed::Done(c, s6) => Parsed::Done(
                                SpecPnt {
                                    x: x as i16,
                                    y: y as i16,
                                    z: z as i16,
                                    u,
                                    v,
                                    c,
                                },
                                s6,
                            ),
                            Parsed::Fail(e, s6) => Parsed::Fail(e, s6),
                        },
                        Parsed::Fail(e, s5) => Parsed::Fail(e, s5),
                    },
                    Parsed::Fail(e, s4) => Parsed::Fail(e, s4),
                },
                Parsed::Fail(e, s3) => Parsed::Fail(e, s3),
            },
            Parsed::Fail(e, s2) => Parsed::Fail(e, s2),
        },
        Parsed::Fail(e, s1) => Parsed::Fail(e, s1),
    }
}

impl Pnt {
    /// Parses a vertex: positions x, y, z, texture u, v, then the color
    /// index.
    pub fn parse(bytes: &mut Cursor) -> (r: Result<Pnt, ParseError>)
        ensures
            match spec_parse_pnt(old(bytes)@) {
                Parsed::Done(v, rest) => r matches Ok(p) && pnt_matches(p, v)
                    && final(bytes)@ == rest,
                Parsed::Fail(e, rest) => r matches Err(e2) && e2 == e && final(bytes)@ == rest,
            },
    {
        let x = match parse::parse_u16(bytes) {
            Ok(v) => v as i16,
            Err(e) => {
                return Err(e);
            },
        };
        let y = match parse::parse_u16(bytes) {
            Ok(v) => v as i16,
            Err(e) => {
                return Err(e);
            },
        };
        let z = match parse::parse_u16(bytes) {
            Ok(v) => v as i16,
            Err(e) => {
                return Err(e);
            },
        };
        let u = match parse::parse_u8(bytes) {
            Ok(v) => v,
            Err(e) => {
                return Err(e);
            },
        };
        let v = match parse::parse_u8(bytes) {
            Ok(v) => v,
            Err(e) => {
                return Err(e);
            },
        };
        let col = match Nib::parse(bytes) {
            Ok(n) => n,
            Err(e) => {
                return Err(e);
            },
        };
        Ok(Pnt { pos: [x, y, z], tex: [u, v], col })
    }

    /// Parses a vertex from an owned byte sequence; bytes after the 17
    /// digits are left unread.
    pub fn from_bytes(bytes: Vec<u8>) -> (r: Result<Pnt, ParseError>)
        ensures
            match spec_parse_pnt(bytes@) {
                Parsed::Done(v, _) => r matches Ok(p) && pnt_matches(p, v),
                Parsed::Fail(e, _) => r matches Err(e2) && e2 == e,
            },
    {
        let mut cursor = Cursor::new(bytes);
        Pnt::parse(&mut cursor)
    }
}

} // verus!
