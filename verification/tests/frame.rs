use l3::frame::Frame;
use l3::frame::FrameError;

#[test]
fn from_bytes_return_error_if_version_is_not_one() -> Result<(), FrameError> {
    let b: [u8; 8] = [0x00, 0x02, 0x03, 0x04, 0x05, 0x06, 0x07, 0x08];
    let result = Frame::from_bytes(&b);
    match result.unwrap_err() {
        FrameError::InvalidVersion(0) => Ok(()),
        _ => {
            panic!("invalid error");
        }
    }
}

#[test]
fn from_bytes_return_error_if_message_len_is_zero() -> Result<(), FrameError> {
    let b: [u8; 8] = [0x01, 0x02, 0x03, 0x04, 0x00, 0x00, 0x00, 0x00];
    let result = Frame::from_bytes(&b);
    match result.unwrap_err() {
        FrameError::ZeroMessageLength => Ok(()),
        _ => {
            panic!("invalid error");
        }
    }
}

#[test]
fn from_bytes_properly_constructs_a_frame() -> Result<(), FrameError> {
    let b: [u8; 8] = [0x01, 0x02, 0x03, 0x04, 0x05, 0x06, 0x07, 0x08];
    let expected = Frame {
        version: 1,
        p1: 2,
        p2: 3,
        p3: 4,
        msg_len: u32::from_le_bytes([0x05, 0x06, 0x07, 0x08]),
    };

    let result = Frame::from_bytes(&b)?;

    assert_eq!(expected, result);
    Ok(())
}

#[test]
fn new_zeroes_the_reserved_bytes() {
    let f = Frame::new(1, 17);
    assert_eq!(f.version, 1);
    assert_eq!(f.p1, 0);
    assert_eq!(f.p2, 0);
    assert_eq!(f.p3, 0);
    assert_eq!(f.msg_len, 17);
}

#[test]
fn as_bytes_writes_the_length_little_endian() {
    let f = Frame { version: 1, p1: 9, p2: 8, p3: 7, msg_len: 0x0403_0201 };
    assert_eq!(f.as_bytes(), [1, 9, 8, 7, 0x01, 0x02, 0x03, 0x04]);
}

#[test]
fn decode_then_encode_reproduces_the_bytes() {
    let b: [u8; 8] = [0x01, 0xaa, 0xbb, 0xcc, 0xff, 0x00, 0x10, 0x80];
    let f = Frame::from_bytes(&b).unwrap();
    assert_eq!(f.as_bytes(), b);
}

#[test]
fn encode_then_decode_reproduces_the_frame() {
    let f = Frame { version: 1, p1: 3, p2: 1, p3: 4, msg_len: u32::MAX };
    let b = f.as_bytes();
    assert_eq!(Frame::from_bytes(&b).unwrap(), f);
}

#[test]
fn reserved_bytes_pass_through_unchanged() {
    let b: [u8; 8] = [0x01, 0x11, 0x22, 0x33, 0x2a, 0x00, 0x00, 0x00];
    let f = Frame::from_bytes(&b).unwrap();
    assert_eq!((f.p1, f.p2, f.p3), (0x11, 0x22, 0x33));
    assert_eq!(f.msg_len, 42);
}

#[test]
fn zero_length_is_rejected_whatever_the_reserved_bytes_hold() {
    for p in [0x00u8, 0x7f, 0xff] {
        let b: [u8; 8] = [0x01, p, p, p, 0x00, 0x00, 0x00, 0x00];
        assert_eq!(Frame::from_bytes(&b).unwrap_err(), FrameError::ZeroMessageLength);
    }
}

#[test]
fn bad_version_error_carries_the_observed_byte() {
    for v in [0x00u8, 0x02, 0x80, 0xff] {
        let b: [u8; 8] = [v, 0, 0, 0, 0x05, 0x00, 0x00, 0x00];
        assert_eq!(Frame::from_bytes(&b).unwrap_err(), FrameError::InvalidVersion(v));
    }
}

#[test]
fn bad_version_takes_precedence_over_zero_length() {
    let b: [u8; 8] = [0x00, 0x00, 0x00, 0x00, 0x00, 0x00, 0x00, 0x00];
    assert_eq!(Frame::from_bytes(&b).unwrap_err(), FrameError::InvalidVersion(0));
}
