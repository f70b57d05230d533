//! An image: a width × height grid of 4-bit color indices, stored as an
//! owned flat sequence in row-major order.  The length always equals
//! `width * height`; the general constructor enforces it and the parser
//! satisfies it by construction.

use vstd::prelude::*;
use crate::nibble::{self, Nib, nib_values};
use crate::parse::{self, Cursor, Parsed, ParseError};

verus! {

/// An image: row-major 4-bit indices and the (width, height) pair.
/// Invariant: the data holds exactly `width * height` entries.
#[derive(Debug, Eq, PartialEq)]
pub struct Img {
    data: Vec<Nib>,
    size: (u8, u8),
}

/// The parsed fields of an image, with the indices as numeric values.
pub struct SpecImg {
    pub w: u8,
    pub h: u8,
    pub data: Seq<u8>,
}

/// Exactly `n` nibbles off the front, in order.
pub open spec fn spec_parse_nibs(s: Seq<u8>, n: nat) -> Parsed<Seq<u8>>
    decreases n,
{
    if n == 0 {
        Parsed::Done(Seq::empty(), s)
    } else {
        match nibble::spec_parse_nib(s) {
            Parsed::Done(v, s1) => match spec_parse_nibs(s1, (n - 1) as nat) {
                Parsed::Done(vs, s2) => Parsed::Done(seq![v] + vs, s2),
                Parsed::Fail(e, s2) => Parsed::Fail(e, s2),
            },
            Parsed::Fail(e, s1) => Parsed::Fail(e, s1),
        }
    }
}

/// An image on the wire: an 8-bit width, an 8-bit height, then exactly
/// `width * height` nibbles in row-major order.
pub open spec fn spec_parse_img(s: Seq<u8>) -> Parsed<SpecImg> {
    match parse::spec_parse_u8(s) {
        Parsed::Done(w, s1) => match parse::spec_parse_u8(s1) {
            Parsed::Done(h, s2) => match spec_parse_nibs(s2, (w * h) as nat) {
                Parsed::Done(d, s3) => Parsed::Done(SpecImg { w, h, data: d }, s3),
                Parsed::Fail(e, s3) => Parsed::Fail(e, s3),
            },
            Parsed::Fail(e, s2) => Parsed::Fail(e, s2),
        },
        Parsed::Fail(e, s1) => Parsed::Fail(e, s1),
    }
}

impl Img {
    #[verifier::type_invariant]
    spec fn wf(self) -> bool {
        self.data@.len() == self.size.0 * self.size.1
    }

    /// The numeric values of the stored indices, row-major.
    pub closed spec fn spec_data(self) -> Seq<u8> {
        nib_values(self.data@)
    }

    /// The (width, height) pair.
    pub closed spec fn spec_size(self) -> (u8, u8) {
        self.size
    }

    /// Builds an image from a flat index sequence and its dimensions;
    /// succeeds exactly when the sequence holds `width * height`
    /// entries, and fails cleanly otherwise.
    pub fn new(data: Vec<Nib>, size: (u8, u8)) -> (r: Option<Img>)
        ensures
            r is Some <==> data@.len() == size.0 * size.1,
            r matches Some(img) ==> img.spec_size() == size && img.spec_data() == nib_values(
                data@,
            ),
    {
        proof {
            assert(size.0 * size.1 <= 255 * 255) by (nonlinear_arith)
                requires
                    size.0 <= 255 && size.1 <= 255,
            ;
        }
        if data.len() != size.0 as usize * size.1 as usize {
            return None;
        }
        Some(Img { data, size })
    }

    /// The stored indices, row-major; the length is `width * height`.
    pub fn data(&self) -> (r: &[Nib])
        ensures
            nib_values(r@) == self.spec_data(),
            r@.len() == self.spec_size().0 * self.spec_size().1,
    {
        proof {
            use_type_invariant(self);
        }
        self.data.as_slice()
    }

    /// The (width, height) pair.
    pub fn size(&self) -> (r: (u8, u8))
        ensures
            r == self.spec_size(),
    {
        self.size
    }

    /// Parses an image: width, height, then exactly `width * height`
    /// nibbles.
    pub fn parse(bytes: &mut Cursor) -> (r: Result<Img, ParseError>)
        ensures
            match spec_parse_img(old(bytes)@) {
                Parsed::Done(v, rest) => r matches Ok(img) && img.spec_size() == (v.w, v.h)
                    && img.spec_data() == v.data && final(bytes)@ == rest,
                Parsed::Fail(e, rest) => r matches Err(e2) && e2 == e && final(bytes)@ == rest,
            },
    {
        let w = match parse::parse_u8(bytes) {
            Ok(v) => v,
            Err(e) => {
                return Err(e);
            },
        };
        let h = match parse::parse_u8(bytes) {
            Ok(v) => v,
            Err(e) => {
                return Err(e);
            },
        };
        let ghost start = bytes@;
        proof {
            assert(w * h <= 255 * 255) by (nonlinear_arith)
                requires
                    w <= 255 && h <= 255,
            ;
        }
        let len: usize = w as usize * h as usize;
        let mut data: Vec<Nib> = Vec::new();
        let mut i: usize = 0;
        while i < len
            invariant
                i <= len,
                len == w * h,
                data@.len() == i,
                spec_parse_img(old(bytes)@) == (match spec_parse_nibs(start, len as nat) {
                    Parsed::Done(d, rest) => Parsed::Done(SpecImg { w, h, data: d }, rest),
                    Parsed::Fail(e, rest) => Parsed::<SpecImg>::Fail(e, rest),
                }),
                match spec_parse_nibs(bytes@, (len - i) as nat) {
                    Parsed::Done(d, rest) => spec_parse_nibs(start, len as nat) == Parsed::Done(
                        nib_values(data@) + d,
                        rest,
                    ),
                    Parsed::Fail(e, rest) => spec_parse_nibs(start, len as nat)
                        == Parsed::<Seq<u8>>::Fail(e, rest),
                },
            decreases len - i,
        {
            let ghost before = bytes@;
            let ghost prefix = nib_values(data@);
            let n = match Nib::parse(bytes) {
                Ok(n) => n,
                Err(e) => {
                    return Err(e);
                },
            };
            data.push(n);
            i = i + 1;
            proof {
                let d0 = nibble::spec_parse_nib(before)->Done_0;
                assert(nib_values(data@) =~= prefix + seq![d0]);
                match spec_parse_nibs(bytes@, (len - i) as nat) {
                    Parsed::Done(d, rest) => {
                        assert(prefix + (seq![d0] + d) =~= nib_values(data@) + d);
                    },
                    Parsed::Fail(_, _) => {},
                }
            }
        }
        proof {
            assert(nib_values(data@) + Seq::<u8>::empty() =~= nib_values(data@));
        }
        match Img::new(data, (w, h)) {
            Some(img) => Ok(img),
            None => vstd::pervasive::unreached(),
        }
    }

    /// Parses an image from an owned byte sequence; bytes after the
    /// payload are left unread.
    pub fn from_bytes(bytes: Vec<u8>) -> (r: Result<Img, ParseError>)
        ensures
            match spec_parse_img(bytes@) {
                Parsed::Done(v, _) => r matches Ok(img) && img.spec_size() == (v.w, v.h)
                    && img.spec_data() == v.data,
                Parsed::Fail(e, _) => r matches Err(e2) && e2 == e,
            },
    {
        let mut cursor = Cursor::new(bytes);
        Img::parse(&mut cursor)
    }
}

} // verus!
