//! A triangle: exactly three vertices, 51 hex characters on the wire, no
//! separators and no degeneracy check.

use vstd::prelude::*;
use crate::point::{self, Pnt, SpecPnt};
use crate::parse::{Cursor, Parsed, ParseError};

verus! {

/// A triangle face: its three vertices in wire order.
#[derive(Copy, Clone, Debug, Eq, PartialEq)]
pub struct Tri(pub [Pnt; 3]);

/// The parsed fields of a triangle's three vertices.
pub struct SpecTri {
    pub a: SpecPnt,
    pub b: SpecPnt,
    pub c: SpecPnt,
}

/// Whether a triangle carries exactly the given parsed vertices.
pub open spec fn tri_matches(t: Tri, st: SpecTri) -> bool {
    &&& point::pnt_matches(t.0[0], st.a)
    &&& point::pnt_matches(t.0[1], st.b)
    &&& point::pnt_matches(t.0[2], st.c)
}

/// A triangle on the wire: three vertices in order.
pub open spec fn spec_parse_tri(s: Seq<u8>) -> Parsed<SpecTri> {
    match point::spec_parse_pnt(s) {
        Parsed::Done(a, s1) => match point::spec_parse_pnt(s1) {
            Parsed::Done(b, s2) => match point::spec_parse_pnt(s2) {
                Parsed::Done(c, s3) => Parsed::Done(SpecTri { a, b, c }, s3),
                Parsed::Fail(e, s3) => Parsed::Fail(e, s3),
            },
            Parsed::Fail(e, s2) => Parsed::Fail(e, s2),
        },
        Parsed::Fail(e, s1) => Parsed::Fail(e, s1),
    }
}

impl Tri {
    /// Parses a triangle: its first, second and third vertex in order.
    #[verifier::rlimit(30)]
    pub fn parse(bytes: &mut Cursor) -> (r: Result<Tri, ParseError>)
        ensures
            match spec_parse_tri(old(bytes)@) {
                Parsed::Done(v, rest) => r matches Ok(t) && tri_matches(t, v)
                    && final(bytes)@ == rest,
                Parsed::Fail(e, rest) => r matches Err(e2) && e2 == e && final(bytes)@ == rest,
            },
    {
        let a = match Pnt::parse(bytes) {
            Ok(p) => p,
            Err(e) => {
                return Err(e);
            },
        };
        let b = match Pnt::parse(bytes) {
            Ok(p) => p,
            Err(e) => {
                return Err(e);
            },
        };
        let c = match Pnt::parse(bytes) {
            Ok(p) => p,
            Err(e) => {
                return Err(e);
            },
        };
        Ok(Tri([a, b, c]))
    }

    /// Parses a triangle from an owned byte sequence; bytes after the 51
    /// digits are left unread.
    pub fn from_bytes(bytes: Vec<u8>) -> (r: Result<Tri, ParseError>)
        ensures
            match spec_parse_tri(bytes@) {
                Parsed::Done(v, _) => r matches Ok(t) && tri_matches(t, v),
                Parsed::Fail(e, _) => r matches Err(e2) && e2 == e,
            },
    {
        let mut cursor = Cursor::new(bytes);
        Tri::parse(&mut cursor)
    }
}

} // verus!
