use midi_msg::util::{
    checksum, i14_from_u7s, i_to_u14, i_to_u7, push_vlq, read_vlq, to_i14, to_u14, to_u21,
    to_u28, to_u35, to_u7, u14_from_midi, u7_to_i,
};
use midi_msg::ParseError;

#[test]
fn test_to_u7() {
    assert_eq!(to_u7(0xff), 127); // Overflow is treated as max value
    assert_eq!(to_u7(0x77), 0x77);
    assert_eq!(to_u7(0x00), 0x00);
    assert_eq!(to_u7(0x7f), 127);
}

#[test]
fn test_to_u14() {
    assert_eq!(to_u14(0xff), [1, 127]);
    assert_eq!(to_u14(0xff00), [127, 127]); // Overflow is treated as max value
    assert_eq!(to_u14(0x00), [0, 0]);
    assert_eq!(to_u14(0xfff), [0x1f, 127]);
    assert_eq!(to_u14(1000), [0x07, 0x68]);
}

#[test]
fn test_i_to_u() {
    assert_eq!(i_to_u7(63), 127);
    assert_eq!(i_to_u7(0), 64);
    assert_eq!(i_to_u7(-64), 0);

    assert_eq!(i_to_u14(0), to_u14(8192));
    assert_eq!(i_to_u14(-8192), to_u14(0));
    assert_eq!(i_to_u14(8191), to_u14(16383));
}

#[test]
fn test_u_to_i() {
    assert_eq!(u7_to_i(127), 63);
    assert_eq!(u7_to_i(64), 0);
    assert_eq!(u7_to_i(0), -64);

    assert_eq!(i14_from_u7s(to_u14(8192)[0], to_u14(8192)[1]), 0);
    assert_eq!(i14_from_u7s(0, 0), -8192);
    assert_eq!(i14_from_u7s(to_u14(16383)[0], to_u14(16383)[1]), 8191);
}

#[test]
fn util_test_to_i14() {
    assert_eq!(to_i14(0xff), [0x01, 0x7f]);
    assert_eq!(to_i14(0x6f00), [0x3f, 0x7f]); // Overflow is treated as max value
    assert_eq!(to_i14(0x00), [0, 0]);
    assert_eq!(to_i14(0xfff), [0x1f, 0x7f]);
    assert_eq!(to_i14(1000), [0x07, 0x68]);
    assert_eq!(to_i14(-10000), [0x40, 0x00]); // Min overflow is treated as min value
    assert_eq!(to_i14(-8192), [0x40, 0x00]);
    assert_eq!(to_i14(-8191), [0x40, 0x01]);
    assert_eq!(to_i14(-1), [0x7f, 0x7f]);
}

#[test]
fn util_test_to_u21() {
    assert_eq!(to_u21(0xff), [0, 1, 127]);
    assert_eq!(to_u21(0xff00), [3, 126, 0]);
    assert_eq!(to_u21(0xffff00), [127, 127, 127]); // Overflow is treated as max value
    assert_eq!(to_u21(0x00), [0, 0, 0]);
    assert_eq!(to_u21(0xfff), [0, 0x1f, 127]);
    assert_eq!(
        to_u21(0b1000011010100000),
        [0b00000010, 0b00001101, 0b00100000]
    );
}

#[test]
fn util_text_checksum() {
    assert_eq!(checksum(&[0b11110000, 0b00001111, 0b10101010]), 0b01010101);
    assert_eq!(
        checksum(&[0x41, 0x4D, 0x02, 0x41, 0x21, 0x04, 0x02, 0x02]),
        0x6A
    )
}

fn vlq_round_trip(x: u32, expected_len: usize) {
    let mut v = Vec::new();
    push_vlq(x, &mut v);
    let (y, len) = read_vlq(&v).unwrap();
    assert_eq!(
        x, y,
        "Got {} after converting {} to and from a variable-length quantity",
        y, x
    );
    assert_eq!(
        len, expected_len,
        "Expected a variable-length quantity of length {} but got {}",
        expected_len, len
    );
}

#[test]
fn test_vlq() {
    vlq_round_trip(0, 1);
    vlq_round_trip(0x40, 1);
    vlq_round_trip(0x7F, 1);
    vlq_round_trip(0x80, 2);
    vlq_round_trip(0x2000, 2);
    vlq_round_trip(0x3FFF, 2);
    vlq_round_trip(0x4000, 3);
    vlq_round_trip(0x100000, 3);
    vlq_round_trip(0x1FFFFF, 3);
    vlq_round_trip(0x200000, 4);
    vlq_round_trip(0x8000000, 4);
    vlq_round_trip(0xFFFFFFF, 4);

    assert_eq!(
        read_vlq(&[0x80, 0x80, 0x80, 0x80]),
        Err(ParseError::VlqOverflow)
    );
}

#[test]
fn vlq_bytes_are_big_endian_with_continuation_bits() {
    let mut v = Vec::new();
    push_vlq(0x2000, &mut v);
    assert_eq!(v, vec![0xC0, 0x00]);
    let mut w = vec![0x11];
    push_vlq(0x0FFFFFFF, &mut w);
    assert_eq!(w, vec![0x11, 0xFF, 0xFF, 0xFF, 0x7F]);
}

#[test]
fn vlq_reads_stop_at_the_first_terminal_byte() {
    assert_eq!(read_vlq(&[0x81, 0x00, 0x55]), Ok((0x80, 2)));
    assert_eq!(read_vlq(&[0x81]), Err(ParseError::UnexpectedEnd));
    assert_eq!(read_vlq(&[]), Err(ParseError::UnexpectedEnd));
}

#[test]
fn wide_u7_encodings() {
    assert_eq!(to_u28(0x0FFF_FFFF), [127, 127, 127, 127]);
    assert_eq!(to_u28(0xFFFF_FFFF), [127, 127, 127, 127]);
    assert_eq!(to_u28(0x1000_0000), [127, 127, 127, 127]);
    assert_eq!(to_u28(0x0020_0000), [1, 0, 0, 0]);
    assert_eq!(to_u28(0x80), [0, 0, 1, 0]);
    assert_eq!(to_u35(0x80), [0, 0, 0, 1, 0]);
    assert_eq!(to_u35(u64::MAX), [127, 127, 127, 127, 127]);
}

#[test]
fn u14_read_back() {
    assert_eq!(u14_from_midi(&[0x68, 0x07]), Ok(1000));
    assert_eq!(u14_from_midi(&[0x68]), Err(ParseError::UnexpectedEnd));
    assert_eq!(u14_from_midi(&[0x80, 0x07]), Err(ParseError::ByteOverflow));
}

/// The same checks, as the system exclusive helpers state them.
#[test]
fn test_to_i14() {
    assert_eq!(to_i14(0xff), [0x01, 0x7f]);
    assert_eq!(to_i14(0x6f00), [0x3f, 0x7f]); // Overflow is treated as max value
    assert_eq!(to_i14(0x00), [0, 0]);
    assert_eq!(to_i14(0xfff), [0x1f, 0x7f]);
    assert_eq!(to_i14(1000), [0x07, 0x68]);
    assert_eq!(to_i14(-10000), [0x40, 0x00]); // Min overflow is treated as min value
    assert_eq!(to_i14(-8192), [0x40, 0x00]);
    assert_eq!(to_i14(-8191), [0x40, 0x01]);
    assert_eq!(to_i14(-1), [0x7f, 0x7f]);
}

/// The same checks, as the system exclusive helpers state them.
#[test]
fn test_to_u21() {
    assert_eq!(to_u21(0xff), [0, 1, 127]);
    assert_eq!(to_u21(0xff00), [3, 126, 0]);
    assert_eq!(to_u21(0xffff00), [127, 127, 127]); // Overflow is treated as max value
    assert_eq!(to_u21(0x00), [0, 0, 0]);
    assert_eq!(to_u21(0xfff), [0, 0x1f, 127]);
    assert_eq!(
        to_u21(0b1000011010100000),
        [0b00000010, 0b00001101, 0b00100000]
    );
}

/// The same checks, as the system exclusive helpers state them.
#[test]
fn text_checksum() {
    assert_eq!(checksum(&[0b11110000, 0b00001111, 0b10101010]), 0b01010101);
    assert_eq!(
        checksum(&[0x41, 0x4D, 0x02, 0x41, 0x21, 0x04, 0x02, 0x02]),
        0x6A
    )
}

#[test]
fn checksum_of_checksummed_bytes_is_zero() {
    let body = [0x7E, 0x7F, 0x07, 0x02, 0x01, 9, 0x66, 0x7F];
    let c = checksum(&body);
    let mut whole = body.to_vec();
    whole.push(c);
    assert_eq!(checksum(&whole), 0);
}

#[test]
fn signed_values_read_back() {
    for x in [-8192i16, -1, 0, 1, 8191] {
        let [msb, lsb] = i_to_u14(x);
        assert_eq!(i14_from_u7s(msb, lsb), x);
    }
    for x in [-64i8, -1, 0, 63] {
        assert_eq!(u7_to_i(i_to_u7(x)), x);
    }
}
