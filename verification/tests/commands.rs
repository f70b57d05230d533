use gni::{parse_command, Col, Cursor, Img, Nib, Output, ParseError, Tri};

#[derive(Debug, PartialEq, Eq)]
enum Call {
    Palette(Nib, Col),
    Clear(Nib),
    DrawTriangle(Tri),
    Image(u8, Img),
    SetImage(u8),
    Finish,
}

#[derive(Debug, Default)]
struct Recorder {
    calls: Vec<Call>,
}

impl Output for Recorder {
    fn palette(&mut self, idx: Nib, col: Col) {
        self.calls.push(Call::Palette(idx, col));
    }

    fn clear(&mut self, idx: Nib) {
        self.calls.push(Call::Clear(idx));
    }

    fn draw_triangle(&mut self, tri: Tri) {
        self.calls.push(Call::DrawTriangle(tri));
    }

    fn image(&mut self, idx: u8, img: Img) {
        self.calls.push(Call::Image(idx, img));
    }

    fn set_image(&mut self, idx: u8) {
        self.calls.push(Call::SetImage(idx));
    }

    fn finish(&mut self) {
        self.calls.push(Call::Finish);
    }
}

#[test]
fn palette_command() {
    let mut cursor = Cursor::new(b"p0ff0000\n".to_vec());
    let mut out = Recorder::default();
    let result = parse_command(&mut cursor, &mut out);
    assert_eq!(result, Ok(true));
    assert_eq!(
        out.calls,
        vec![Call::Palette(Nib::new(0).unwrap(), Col::new(255, 0, 0))]
    );
}

#[test]
fn clear_command() {
    let mut cursor = Cursor::new(b"c0\n".to_vec());
    let mut out = Recorder::default();
    let result = parse_command(&mut cursor, &mut out);
    assert_eq!(result, Ok(true));
    assert_eq!(out.calls, vec![Call::Clear(Nib::new(0).unwrap())]);
}

#[test]
fn image_command() {
    let mut cursor = Cursor::new(b"i0101023f\n".to_vec());
    let mut out = Recorder::default();
    let result = parse_command(&mut cursor, &mut out);
    assert_eq!(result, Ok(true));
    let img = Img::new(
        vec![Nib::new(3).unwrap(), Nib::new(15).unwrap()],
        (1, 2),
    )
    .unwrap();
    assert_eq!(out.calls, vec![Call::Image(1, img)]);
}

#[test]
fn set_image_command() {
    let mut cursor = Cursor::new(b"si01\n".to_vec());
    let mut out = Recorder::default();
    let result = parse_command(&mut cursor, &mut out);
    assert_eq!(result, Ok(true));
    assert_eq!(out.calls, vec![Call::SetImage(1)]);
}

#[test]
fn triangle_command() {
    let mut cursor =
        Cursor::new(b"t001122334455667780011223344556677800112233445566778\n".to_vec());
    let mut out = Recorder::default();
    let result = parse_command(&mut cursor, &mut out);
    assert_eq!(result, Ok(true));
    assert_eq!(out.calls.len(), 1);
    match &out.calls[0] {
        Call::DrawTriangle(Tri(points)) => {
            for p in points {
                assert_eq!(p.pos, [0x0011, 0x2233, 0x4455]);
                assert_eq!(p.tex, [0x66, 0x77]);
                assert_eq!(p.col, Nib::new(8).unwrap());
            }
        }
        other => panic!("unexpected call: {:?}", other),
    }
}

#[test]
fn empty_line_finishes() {
    // The empty line flushes the sink, reports stream-complete, and
    // consumes nothing past its own newline: a following command is
    // still decodable from the same cursor.
    let mut cursor = Cursor::new(b"\nc0\n".to_vec());
    let mut out = Recorder::default();
    let result = parse_command(&mut cursor, &mut out);
    assert_eq!(result, Ok(false));
    assert_eq!(out.calls, vec![Call::Finish]);

    let result = parse_command(&mut cursor, &mut out);
    assert_eq!(result, Ok(true));
    assert_eq!(
        out.calls,
        vec![Call::Finish, Call::Clear(Nib::new(0).unwrap())]
    );
}

#[test]
fn exhausted_input_stops() {
    let mut cursor = Cursor::new(Vec::new());
    let mut out = Recorder::default();
    let result = parse_command(&mut cursor, &mut out);
    assert_eq!(result, Ok(false));
    assert_eq!(out.calls, Vec::new());
}

#[test]
fn zero_image_index_rejected() {
    let mut cursor = Cursor::new(b"i000102ab\n".to_vec());
    let mut out = Recorder::default();
    let result = parse_command(&mut cursor, &mut out);
    assert_eq!(result, Err(ParseError::ZeroIndex));
    assert_eq!(out.calls, Vec::new());
}

#[test]
fn uppercase_digit_rejected() {
    let mut cursor = Cursor::new(b"p0FF0000\n".to_vec());
    let mut out = Recorder::default();
    let result = parse_command(&mut cursor, &mut out);
    assert_eq!(result, Err(ParseError::Byte(b'F')));
    assert_eq!(out.calls, Vec::new());
}

#[test]
fn missing_terminator_rejected() {
    let mut cursor = Cursor::new(b"c0".to_vec());
    let mut out = Recorder::default();
    let result = parse_command(&mut cursor, &mut out);
    assert_eq!(result, Err(ParseError::NotNewLine));
    // The command itself parsed, so the sink call had already happened
    // when the terminator turned out to be missing.
    assert_eq!(out.calls, vec![Call::Clear(Nib::new(0).unwrap())]);
}

#[test]
fn unknown_opcode_rejected() {
    let mut cursor = Cursor::new(b"x0\n".to_vec());
    let mut out = Recorder::default();
    let result = parse_command(&mut cursor, &mut out);
    assert_eq!(result, Err(ParseError::Byte(b'x')));
    assert_eq!(out.calls, Vec::new());
}

#[test]
fn select_needs_image_opcode() {
    let mut cursor = Cursor::new(b"sq01\n".to_vec());
    let mut out = Recorder::default();
    let result = parse_command(&mut cursor, &mut out);
    assert_eq!(result, Err(ParseError::Byte(b'q')));
    assert_eq!(out.calls, Vec::new());
}

#[test]
fn truncated_payload_reports_end() {
    let mut cursor = Cursor::new(b"p0ff00".to_vec());
    let mut out = Recorder::default();
    let result = parse_command(&mut cursor, &mut out);
    assert_eq!(result, Err(ParseError::End));
    assert_eq!(out.calls, Vec::new());
}
