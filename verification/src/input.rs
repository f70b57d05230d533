//! Input events encoded onto the wire: cursor moves, button presses and
//! window resizes, written with the same lowercase-hex alphabet the
//! command decoder reads.

use vstd::prelude::*;
use crate::hex;

verus! {

/// True when every byte is plain ASCII.
pub open spec fn all_ascii(s: Seq<u8>) -> bool {
    forall|i: int| 0 <= i < s.len() ==> s[i] < 128
}

/// The bytes as characters, one per byte.
pub open spec fn chars_of(s: Seq<u8>) -> Seq<char> {
    Seq::new(s.len(), |i: int| s[i] as char)
}

proof fn lemma_ascii_concat(a: Seq<u8>, b: Seq<u8>)
    requires
        all_ascii(a),
        all_ascii(b),
    ensures
        all_ascii(a + b),
{
    assert forall|i: int| 0 <= i < (a + b).len() implies (a + b)[i] < 128 by {
        if i < a.len() {
            assert((a + b)[i] == a[i]);
        } else {
            assert((a + b)[i] == b[i - a.len()]);
        }
    }
}

proof fn lemma_encode_byte_ascii(b: u8)
    ensures
        all_ascii(hex::spec_encode_byte(b)),
{
    assert((b >> 4 & 0x0F) < 16 && (b & 0x0F) < 16) by (bit_vector);
    hex::lemma_hex_char_val(b >> 4 & 0x0F);
    hex::lemma_hex_char_val(b & 0x0F);
}

/// Relies on `String::from_utf8`: a vector of ASCII bytes converts to
/// the string of exactly those characters, one per byte.
#[verifier::external_body]
fn ascii_to_string(bytes: Vec<u8>) -> (r: String)
    requires
        all_ascii(bytes@),
    ensures
        r@.len() == bytes@.len(),
        forall|i: int| 0 <= i < bytes@.len() ==> r@[i] == bytes@[i] as char,
{
    match String::from_utf8(bytes) {
        Ok(s) => s,
        Err(_) => String::new(),
    }
}

/// A cursor direction.
#[derive(Copy, Clone, Debug, Eq, PartialEq)]
pub enum Direction {
    Left,
    Right,
    Up,
    Down,
}

/// The single character a direction is written as.
pub open spec fn spec_dir_char(d: Direction) -> u8 {
    match d {
        Direction::Left => 0x6C,
        Direction::Right => 0x72,
        Direction::Up => 0x75,
        Direction::Down => 0x64,
    }
}

impl Direction {
    /// The single character this direction is written as.
    pub fn code(self) -> (r: u8)
        ensures
            r == spec_dir_char(self),
    {
        match self {
            Direction::Left => 0x6C,
            Direction::Right => 0x72,
            Direction::Up => 0x75,
            Direction::Down => 0x64,
        }
    }
}

/// An input action, written as `'a'` followed by the action's own code
/// and payload.
#[derive(Copy, Clone, Debug, Eq, PartialEq)]
pub enum Action {
    /// Cursor moved with the left button: x and y deltas.
    CursorLeft(i8, i8),
    /// Cursor moved with the right button: x and y deltas.
    CursorRight(i8, i8),
    /// A direction key.
    Direction(Direction),
    /// Shoulder left.
    Left,
    /// Shoulder right.
    Right,
    /// Button a.
    A,
    /// Button b.
    B,
    /// Button c.
    C,
    /// Button d.
    D,
    /// Start button.
    Start,
    /// Select button.
    Select,
    /// Quit request.
    Quit,
}

/// An action on the wire: `'a'`, then the action's code, then for the
/// cursor moves each delta as two hex digits (two's complement).
pub open spec fn spec_action_bytes(a: Action) -> Seq<u8> {
    match a {
        Action::CursorLeft(x, y) => seq![0x61u8, 0x6Cu8] + hex::spec_encode_byte(x as u8)
            + hex::spec_encode_byte(y as u8),
        Action::CursorRight(x, y) => seq![0x61u8, 0x72u8] + hex::spec_encode_byte(x as u8)
            + hex::spec_encode_byte(y as u8),
        Action::Direction(d) => seq![0x61u8, 0x64u8, spec_dir_char(d)],
        Action::Left => seq![0x61u8, 0x3Eu8],
        Action::Right => seq![0x61u8, 0x3Cu8],
        Action::A => seq![0x61u8, 0x61u8],
        Action::B => seq![0x61u8, 0x62u8],
        Action::C => seq![0x61u8, 0x63u8],
        Action::D => seq![0x61u8, 0x64u8],
        Action::Start => seq![0x61u8, 0x21u8],
        Action::Select => seq![0x61u8, 0x40u8],
        Action::Quit => seq![0x61u8, 0x71u8],
    }
}

proof fn lemma_action_ascii(a: Action)
    ensures
        all_ascii(spec_action_bytes(a)),
{
    match a {
        Action::CursorLeft(x, y) => {
            lemma_encode_byte_ascii(x as u8);
            lemma_encode_byte_ascii(y as u8);
            lemma_ascii_concat(seq![0x61u8, 0x6Cu8], hex::spec_encode_byte(x as u8));
            lemma_ascii_concat(
                seq![0x61u8, 0x6Cu8] + hex::spec_encode_byte(x as u8),
                hex::spec_encode_byte(y as u8),
            );
        },
        Action::CursorRight(x, y) => {
            lemma_encode_byte_ascii(x as u8);
            lemma_encode_byte_ascii(y as u8);
            lemma_ascii_concat(seq![0x61u8, 0x72u8], hex::spec_encode_byte(x as u8));
            lemma_ascii_concat(
                seq![0x61u8, 0x72u8] + hex::spec_encode_byte(x as u8),
                hex::spec_encode_byte(y as u8),
            );
        },
        _ => {},
    }
}

impl Action {
    /// Encodes the action as wire bytes.
    pub fn encode_bytes(&self) -> (r: Vec<u8>)
        ensures
            r@ == spec_action_bytes(*self),
    {
        let mut out: Vec<u8> = Vec::new();
        out.push(0x61);
        match *self {
            Action::CursorLeft(x, y) => {
                out.push(0x6C);
                hex::print_byte(x as u8, &mut out);
                hex::print_byte(y as u8, &mut out);
            },
            Action::CursorRight(x, y) => {
                out.push(0x72);
                hex::print_byte(x as u8, &mut out);
                hex::print_byte(y as u8, &mut out);
            },
            Action::Direction(d) => {
                out.push(0x64);
                out.push(d.code());
            },
            Action::Left => out.push(0x3E),
            Action::Right => out.push(0x3C),
            Action::A => out.push(0x61),
            Action::B => out.push(0x62),
            Action::C => out.push(0x63),
            Action::D => out.push(0x64),
            Action::Start => out.push(0x21),
            Action::Select => out.push(0x40),
            Action::Quit => out.push(0x71),
        }
        proof {
            assert(out@ =~= spec_action_bytes(*self));
        }
        out
    }

    /// Encodes the action as a string of the same characters.
    pub fn encode(&self) -> (r: String)
        ensures
            r@ == chars_of(spec_action_bytes(*self)),
    {
        proof {
            lemma_action_ascii(*self);
        }
        let s = ascii_to_string(self.encode_bytes());
        proof {
            assert(s@ =~= chars_of(spec_action_bytes(*self)));
        }
        s
    }
}

/// A window resize: width and height.
#[derive(Copy, Clone, Debug, Eq, PartialEq)]
pub struct Resize(pub u16, pub u16);

/// A resize on the wire: `'r'`, then width and height, each as four hex
/// digits, big-endian at the byte level.
pub open spec fn spec_resize_bytes(r: Resize) -> Seq<u8> {
    seq![0x72u8] + hex::spec_encode_byte((r.0 >> 8 & 0xFF) as u8) + hex::spec_encode_byte(
        (r.0 & 0xFF) as u8,
    ) + hex::spec_encode_byte((r.1 >> 8 & 0xFF) as u8) + hex::spec_encode_byte((r.1 & 0xFF) as u8)
}

impl Resize {
    /// Encodes the resize as wire bytes.
    pub fn encode_bytes(&self) -> (r: Vec<u8>)
        ensures
            r@ == spec_resize_bytes(*self),
    {
        let mut out: Vec<u8> = Vec::new();
        out.push(0x72);
        hex::print_byte((self.0 >> 8 & 0xFF) as u8, &mut out);
        hex::print_byte((self.0 & 0xFF) as u8, &mut out);
        hex::print_byte((self.1 >> 8 & 0xFF) as u8, &mut out);
        hex::print_byte((self.1 & 0xFF) as u8, &mut out);
        proof {
            assert(out@ =~= spec_resize_bytes(*self));
        }
        out
    }

    /// Encodes the resize as a string of the same characters.
    pub fn encode(&self) -> (r: String)
        ensures
            r@ == chars_of(spec_resize_bytes(*self)),
    {
        proof {
            lemma_encode_byte_ascii((self.0 >> 8 & 0xFF) as u8);
            lemma_encode_byte_ascii((self.0 & 0xFF) as u8);
            lemma_encode_byte_ascii((self.1 >> 8 & 0xFF) as u8);
            lemma_encode_byte_ascii((self.1 & 0xFF) as u8);
            let s0 = seq![0x72u8];
            let e0 = hex::spec_encode_byte((self.0 >> 8 & 0xFF) as u8);
            let e1 = hex::spec_encode_byte((self.0 & 0xFF) as u8);
            let e2 = hex::spec_encode_byte((self.1 >> 8 & 0xFF) as u8);
            let e3 = hex::spec_encode_byte((self.1 & 0xFF) as u8);
            lemma_ascii_concat(s0, e0);
            lemma_ascii_concat(s0 + e0, e1);
            lemma_ascii_concat(s0 + e0 + e1, e2);
            lemma_ascii_concat(s0 + e0 + e1 + e2, e3);
        }
        let s = ascii_to_string(self.encode_bytes());
        proof {
            assert(s@ =~= chars_of(spec_resize_bytes(*self)));
        }
        s
    }
}

} // verus!
