use gni::{read_u8, Col, Img, Nib, ParseError, Pnt, Tri};
use gni::input::{Action, Direction, Resize};

#[test]
fn read() {
    let actual = read_u8(*b"00");
    let expected = Ok(0x00);
    assert_eq!(actual, expected);

    let actual = read_u8(*b"0f");
    let expected = Ok(0x0F);
    assert_eq!(actual, expected);

    let actual = read_u8(*b"ff");
    let expected = Ok(0xFF);
    assert_eq!(actual, expected);

    let actual = read_u8(*b"FF");
    let expected = Err(b'F');
    assert_eq!(actual, expected);

    let actual = read_u8(*b"qw");
    let expected = Err(b'q');
    assert_eq!(actual, expected);
}

#[test]
fn nibble_parse() {
    let actual = Nib::from_bytes(b"a".to_vec());
    let expected = Ok(Nib::new(0x0A).unwrap());
    assert_eq!(actual, expected);

    let actual = Nib::from_bytes(b"q".to_vec());
    let expected = Err(ParseError::Byte(b'q'));
    assert_eq!(actual, expected);
}

#[test]
fn color_parse() {
    let actual = Col::from_bytes(b"001122".to_vec());
    let expected = Ok(Col::new(0x00, 0x11, 0x22));
    assert_eq!(actual, expected);
}

#[test]
fn image_parse() {
    let actual = Img::from_bytes(
        b"0404\
        0123\
        4567\
        89ab\
        cdef"
            .to_vec(),
    );

    let expected = Ok(Img::new(
        vec![
            Nib::new(0x0).unwrap(),
            Nib::new(0x1).unwrap(),
            Nib::new(0x2).unwrap(),
            Nib::new(0x3).unwrap(),
            Nib::new(0x4).unwrap(),
            Nib::new(0x5).unwrap(),
            Nib::new(0x6).unwrap(),
            Nib::new(0x7).unwrap(),
            Nib::new(0x8).unwrap(),
            Nib::new(0x9).unwrap(),
            Nib::new(0xA).unwrap(),
            Nib::new(0xB).unwrap(),
            Nib::new(0xC).unwrap(),
            Nib::new(0xD).unwrap(),
            Nib::new(0xE).unwrap(),
            Nib::new(0xF).unwrap(),
        ],
        (4, 4),
    )
    .unwrap());

    assert_eq!(actual, expected);
}

#[test]
fn point_parse() {
    let actual = Pnt::from_bytes(b"0011223344551122e".to_vec());
    let expected = Ok(Pnt {
        pos: [0x0011, 0x2233, 0x4455],
        tex: [0x11, 0x22],
        col: Nib::new(0x0E).unwrap(),
    });
    assert_eq!(actual, expected);
}

#[test]
fn triangle_parse() {
    let point = Pnt {
        pos: [0x0011, 0x2233, 0x4455],
        tex: [0x66, 0x77],
        col: Nib::new(0x08).unwrap(),
    };
    let actual =
        Tri::from_bytes(b"001122334455667780011223344556677800112233445566778".to_vec());
    let expected = Ok(Tri([point, point, point]));
    assert_eq!(actual, expected);
}

#[test]
fn action() {
    let actual = Action::CursorLeft(0x12u8 as i8, 0xAFu8 as i8).encode();
    let expected = "al12af";
    assert_eq!(actual, expected);

    let actual = Action::Direction(Direction::Up).encode();
    let expected = "adu";
    assert_eq!(actual, expected);

    let actual = Action::Quit.encode();
    let expected = "aq";
    assert_eq!(actual, expected);
}

#[test]
fn resize() {
    let actual = Resize(0x1234, 0xABEF).encode();
    let expected = "r1234abef";
    assert_eq!(actual, expected);
}
