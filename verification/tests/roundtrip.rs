use gni::{read_u4, Col, Img, Nib, ParseError, Pnt};

#[test]
fn every_hex_digit_reads() {
    let digits = b"0123456789abcdef";
    for (value, digit) in digits.iter().enumerate() {
        assert_eq!(read_u4(*digit), Ok(value as u8));
    }
}

#[test]
fn invalid_digits_returned_unchanged() {
    for bad in [b'A', b'F', b'G', b'g', b'z', b' ', b'/', b':', b'`', 0xFF] {
        assert_eq!(read_u4(bad), Err(bad));
    }
}

#[test]
fn color_round_trip() {
    let col = Col::new(0x01, 0x23, 0xEF);
    let encoded = col.encode();
    assert_eq!(encoded, b"0123ef".to_vec());
    assert_eq!(Col::from_bytes(encoded), Ok(col));

    let col = Col::new(0xFF, 0x00, 0xA5);
    assert_eq!(Col::from_bytes(col.encode()), Ok(col));
}

#[test]
fn image_length_must_match() {
    let data = vec![Nib::new(1).unwrap(), Nib::new(2).unwrap()];
    assert!(Img::new(data.clone(), (1, 2)).is_some());
    assert!(Img::new(data.clone(), (2, 2)).is_none());
    assert!(Img::new(data, (0, 0)).is_none());
    assert!(Img::new(Vec::new(), (0, 5)).is_some());
}

#[test]
fn image_accessors() {
    let data = vec![Nib::new(3).unwrap(), Nib::new(15).unwrap()];
    let img = Img::new(data.clone(), (2, 1)).unwrap();
    assert_eq!(img.size(), (2, 1));
    assert_eq!(img.data(), data.as_slice());
}

#[test]
fn empty_image_parses() {
    let img = Img::from_bytes(b"0005".to_vec()).unwrap();
    assert_eq!(img.size(), (0, 5));
    assert_eq!(img.data(), &[]);
}

#[test]
fn nibble_range() {
    assert_eq!(Nib::new(0x0F).map(Nib::get), Some(0x0F));
    assert_eq!(Nib::new(0).map(Nib::get), Some(0));
    assert!(Nib::new(0x10).is_none());
    assert!(Nib::new(0xFF).is_none());
}

#[test]
fn position_reinterpreted_as_signed() {
    // 0x8000 and above wrap to negative two's-complement positions;
    // 0x7FFF stays the largest positive one.
    let p = Pnt::from_bytes(b"80007fffffff1122e".to_vec()).unwrap();
    assert_eq!(p.pos, [-32768, 32767, -1]);
}

#[test]
fn exhausted_scalar_reports_end() {
    assert_eq!(Col::from_bytes(b"0011".to_vec()), Err(ParseError::End));
    assert_eq!(Nib::from_bytes(Vec::new()), Err(ParseError::End));
}
