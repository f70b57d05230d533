//! The command dispatcher: reads one opcode byte, parses the fixed
//! layout payload, and invokes one method on the rendering sink; then
//! enforces the trailing-newline framing rule.
//!
//! Each invocation handles exactly one line.  The caller loops: call
//! again while the result signals more commands, stop on stream
//! complete, propagate errors.

use vstd::prelude::*;
use crate::color::{self, Col};
use crate::image::{self, Img, SpecImg};
use crate::nibble::{self, Nib};
use crate::parse::{self, Cursor, Parsed, ParseError};
use crate::triangle::{self, Tri, SpecTri};

verus! {

/// Opcode: set a palette entry.
pub const OP_PALETTE: u8 = 0x70;

/// Opcode: clear to a palette color.
pub const OP_CLEAR: u8 = 0x63;

/// Opcode: draw a triangle.
pub const OP_TRIANGLE: u8 = 0x74;

/// Opcode: upload an image.
pub const OP_IMAGE: u8 = 0x69;

/// Opcode: select the active image slot (followed by the image opcode).
pub const OP_SELECT: u8 = 0x73;

/// The line terminator; alone on a line it ends the stream.
pub const NEWLINE: u8 = 0x0A;

/// The rendering-sink capability interface.  The decoder calls at most
/// one of these methods per successfully decoded line, with fully
/// validated arguments; what the sink does internally is its own
/// concern, and it has no failure channel.
pub trait Output {
    /// Sets palette entry `idx` to `col`.
    fn palette(&mut self, idx: Nib, col: Col);

    /// Clears the screen to palette color `idx`.
    fn clear(&mut self, idx: Nib);

    /// Draws one triangle.
    fn draw_triangle(&mut self, tri: Tri);

    /// Uploads `img` to image slot `idx`; the decoder never passes
    /// `idx == 0`.
    fn image(&mut self, idx: u8, img: Img);

    /// Selects image slot `idx` as the active one.
    fn set_image(&mut self, idx: u8);

    /// Flushes at end of stream.
    fn finish(&mut self);
}

/// One fully decoded draw instruction.
pub enum Command {
    /// Set palette entry to a color.
    Palette(Nib, Col),
    /// Clear to a palette color.
    Clear(Nib),
    /// Draw one triangle.
    DrawTriangle(Tri),
    /// Upload an image to a slot; the slot is never 0.
    Image(u8, Img),
    /// Select the active image slot.
    SetImage(u8),
}

/// What one call of the dispatcher does before the terminator check.
pub enum Step {
    /// No byte was available: the stream is complete.
    Stop,
    /// An empty line: flush and end the stream.
    Finish,
    /// A command to hand to the sink.
    Run(Command),
}

/// The parsed fields of a command.
pub enum SpecCommand {
    /// Palette index and (red, green, blue).
    Palette { idx: u8, rgb: (u8, u8, u8) },
    /// Palette index to clear to.
    Clear { idx: u8 },
    /// The three vertices.
    DrawTriangle { tri: SpecTri },
    /// Slot (never 0) and image fields.
    Image { idx: u8, img: SpecImg },
    /// Slot to select.
    SetImage { idx: u8 },
}

/// Outcome of reading one opcode and its payload, before the
/// terminator check.
pub enum SpecStep {
    /// No byte was available; nothing was consumed.
    Stop,
    /// An empty line: the stream ends here, no terminator expected.
    Finish(Seq<u8>),
    /// A fully decoded command and the bytes after its payload.
    Run(SpecCommand, Seq<u8>),
    /// Decoding failed.
    Fail(ParseError, Seq<u8>),
}

/// Outcome of one whole dispatcher call, terminator included.
pub enum SpecLine {
    /// No byte was available: stream complete, nothing consumed.
    Stop,
    /// An empty line: the sink is flushed and the stream ends.
    Finish(Seq<u8>),
    /// A command was dispatched and its newline consumed.
    Run(SpecCommand, Seq<u8>),
    /// Decoding failed, or the terminator was missing.
    Fail(ParseError, Seq<u8>),
}

/// Whether a decoded command carries exactly the given parsed fields.
pub open spec fn command_matches(c: Command, sc: SpecCommand) -> bool {
    match sc {
        SpecCommand::Palette { idx, rgb } => c matches Command::Palette(n, col) && n@ == idx
            && col.rgb() == rgb,
        SpecCommand::Clear { idx } => c matches Command::Clear(n) && n@ == idx,
        SpecCommand::DrawTriangle { tri } => c matches Command::DrawTriangle(t)
            && triangle::tri_matches(t, tri),
        SpecCommand::Image { idx, img } => c matches Command::Image(i, im) && i == idx
            && im.spec_size() == (img.w, img.h) && im.spec_data() == img.data,
        SpecCommand::SetImage { idx } => c matches Command::SetImage(i) && i == idx,
    }
}

/// One opcode byte and its payload: which command the line denotes, or
/// how decoding it fails.  The terminator is not part of this step.
pub open spec fn spec_step(s: Seq<u8>) -> SpecStep {
    if s.len() == 0 {
        SpecStep::Stop
    } else {
        let op = s[0];
        let s1 = s.skip(1);
        if op == OP_PALETTE {
            match nibble::spec_parse_nib(s1) {
                Parsed::Done(idx, r1) => match color::spec_parse_col(r1) {
                    Parsed::Done(rgb, r2) => SpecStep::Run(SpecCommand::Palette { idx, rgb }, r2),
                    Parsed::Fail(e, r2) => SpecStep::Fail(e, r2),
                },
                Parsed::Fail(e, r1) => SpecStep::Fail(e, r1),
            }
        } else if op == OP_CLEAR {
            match nibble::spec_parse_nib(s1) {
                Parsed::Done(idx, r1) => SpecStep::Run(SpecCommand::Clear { idx }, r1),
                Parsed::Fail(e, r1) => SpecStep::Fail(e, r1),
            }
        } else if op == OP_TRIANGLE {
            match triangle::spec_parse_tri(s1) {
                Parsed::Done(tri, r1) => SpecStep::Run(SpecCommand::DrawTriangle { tri }, r1),
                Parsed::Fail(e, r1) => SpecStep::Fail(e, r1),
            }
        } else if op == OP_IMAGE {
            match parse::spec_parse_u8(s1) {
                Parsed::Done(idx, r1) => if idx == 0 {
                    SpecStep::Fail(ParseError::ZeroIndex, r1)
                } else {
                    match image::spec_parse_img(r1) {
                        Parsed::Done(img, r2) => SpecStep::Run(SpecCommand::Image { idx, img }, r2),
                        Parsed::Fail(e, r2) => SpecStep::Fail(e, r2),
                    }
                },
                Parsed::Fail(e, r1) => SpecStep::Fail(e, r1),
            }
        } else if op == OP_SELECT {
            match parse::spec_next(s1) {
                Parsed::Done(b, r1) => if b == OP_IMAGE {
                    match parse::spec_parse_u8(r1) {
                        Parsed::Done(idx, r2) => SpecStep::Run(SpecCommand::SetImage { idx }, r2),
                        Parsed::Fail(e, r2) => SpecStep::Fail(e, r2),
                    }
                } else {
                    SpecStep::Fail(ParseError::Byte(b), r1)
                },
                Parsed::Fail(e, r1) => SpecStep::Fail(e, r1),
            }
        } else if op == NEWLINE {
            SpecStep::Finish(s1)
        } else {
            SpecStep::Fail(ParseError::Byte(op), s1)
        }
    }
}

/// One whole line: the step of `spec_step`, then — for a command —
/// exactly one newline, whose absence is `NotNewLine`.
pub open spec fn spec_line(s: Seq<u8>) -> SpecLine {
    match spec_step(s) {
        SpecStep::Stop => SpecLine::Stop,
        SpecStep::Finish(r) => SpecLine::Finish(r),
        SpecStep::Run(c, r) => if r.len() == 0 {
            SpecLine::Fail(ParseError::NotNewLine, r)
        } else if r[0] == NEWLINE {
            SpecLine::Run(c, r.skip(1))
        } else {
            SpecLine::Fail(ParseError::NotNewLine, r.skip(1))
        },
        SpecStep::Fail(e, r) => SpecLine::Fail(e, r),
    }
}

/// Reads one opcode byte and its payload, without the terminator:
/// the decoded command, the end-of-stream markers, or the error.
#[verifier::rlimit(60)]
pub fn parse_step(bytes: &mut Cursor) -> (r: Result<Step, ParseError>)
    ensures
        match spec_step(old(bytes)@) {
            SpecStep::Stop => r matches Ok(st) && st is Stop && final(bytes)@ == old(bytes)@,
            SpecStep::Finish(rest) => r matches Ok(st) && st is Finish && final(bytes)@ == rest,
            SpecStep::Run(sc, rest) => r matches Ok(st) && st matches Step::Run(c)
                && command_matches(c, sc) && final(bytes)@ == rest,
            SpecStep::Fail(e, rest) => r matches Err(e2) && e2 == e && final(bytes)@ == rest,
        },
{
    let next = match bytes.next() {
        None => {
            return Ok(Step::Stop);
        },
        Some(next) => next,
    };
    if next == OP_PALETTE {
        let idx = match Nib::parse(bytes) {
            Ok(n) => n,
            Err(e) => {
                return Err(e);
            },
        };
        let col = match Col::parse(bytes) {
            Ok(c) => c,
            Err(e) => {
                return Err(e);
            },
        };
        Ok(Step::Run(Command::Palette(idx, col)))
    } else if next == OP_CLEAR {
        let idx = match Nib::parse(bytes) {
            Ok(n) => n,
            Err(e) => {
                return Err(e);
            },
        };
        Ok(Step::Run(Command::Clear(idx)))
    } else if next == OP_TRIANGLE {
        let tri = match Tri::parse(bytes) {
            Ok(t) => t,
            Err(e) => {
                return Err(e);
            },
        };
        Ok(Step::Run(Command::DrawTriangle(tri)))
    } else if next == OP_IMAGE {
        let idx = match parse::parse_u8(bytes) {
            Ok(v) => v,
            Err(e) => {
                return Err(e);
            },
        };
        if idx == 0 {
            return Err(ParseError::ZeroIndex);
        }
        let img = match Img::parse(bytes) {
            Ok(im) => im,
            Err(e) => {
                return Err(e);
            },
        };
        Ok(Step::Run(Command::Image(idx, img)))
    } else if next == OP_SELECT {
        let sub = match ParseError::next(bytes) {
            Ok(b) => b,
            Err(e) => {
                return Err(e);
            },
        };
        if sub == OP_IMAGE {
            let idx = match parse::parse_u8(bytes) {
                Ok(v) => v,
                Err(e) => {
                    return Err(e);
                },
            };
            Ok(Step::Run(Command::SetImage(idx)))
        } else {
            Err(ParseError::Byte(sub))
        }
    } else if next == NEWLINE {
        Ok(Step::Finish)
    } else {
        Err(ParseError::Byte(next))
    }
}

/// Decodes one command line and drives the sink: reads one opcode byte
/// and its payload, invokes at most one sink method, then requires the
/// trailing newline.  Returns whether more commands may follow:
/// `Ok(true)` after a dispatched command, `Ok(false)` when the stream is
/// complete (no byte available, or an empty line after flushing the
/// sink).
pub fn parse_command<O: Output>(bytes: &mut Cursor, out: &mut O) -> (r: Result<bool, ParseError>)
    ensures
        match spec_line(old(bytes)@) {
            SpecLine::Stop => r matches Ok(more) && !more && final(bytes)@ == old(bytes)@,
            SpecLine::Finish(rest) => r matches Ok(more) && !more && final(bytes)@ == rest,
            SpecLine::Run(_, rest) => r matches Ok(more) && more && final(bytes)@ == rest,
            SpecLine::Fail(e, rest) => r matches Err(e2) && e2 == e && final(bytes)@ == rest,
        },
{
    let step = match parse_step(bytes) {
        Ok(st) => st,
        Err(e) => {
            return Err(e);
        },
    };
    match step {
        Step::Stop => Ok(false),
        Step::Finish => {
            out.finish();
            Ok(false)
        },
        Step::Run(cmd) => {
            match cmd {
                Command::Palette(idx, col) => out.palette(idx, col),
                Command::Clear(idx) => out.clear(idx),
                Command::DrawTriangle(tri) => out.draw_triangle(tri),
                Command::Image(idx, img) => out.image(idx, img),
                Command::SetImage(idx) => out.set_image(idx),
            }
            match bytes.next() {
                Some(b) => if b == NEWLINE {
                    Ok(true)
                } else {
                    Err(ParseError::NotNewLine)
                },
                None => Err(ParseError::NotNewLine),
            }
        },
    }
}

} // verus!
