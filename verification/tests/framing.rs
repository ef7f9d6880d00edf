use neodlp_bridge::framing::{
    declared_length, decode_payload, length_prefix, native_byte_order, order_of_probe,
    read_message, write_message, ByteOrder, FramingError,
};

#[test]
fn native_order_matches_the_machine() {
    let expected = if 1u32.to_ne_bytes()[0] == 1 { ByteOrder::Little } else { ByteOrder::Big };
    assert_eq!(native_byte_order(), expected);
}

#[test]
fn native_frame_matches_ne_bytes() {
    let message = "{\"status\":\"received\"}";
    let bytes = write_message(message, native_byte_order()).unwrap();
    let mut expected = (message.len() as u32).to_ne_bytes().to_vec();
    expected.extend_from_slice(message.as_bytes());
    assert_eq!(bytes, expected);
}

#[test]
fn prefix_in_both_orders() {
    assert_eq!(length_prefix(ByteOrder::Little, 0x0102_0304), [4, 3, 2, 1]);
    assert_eq!(length_prefix(ByteOrder::Big, 0x0102_0304), [1, 2, 3, 4]);
    assert_eq!(length_prefix(ByteOrder::Little, 0), [0, 0, 0, 0]);
    assert_eq!(length_prefix(ByteOrder::Big, u32::MAX), [255, 255, 255, 255]);
    assert_eq!(declared_length(ByteOrder::Little, &[4, 3, 2, 1]), 0x0102_0304);
    assert_eq!(declared_length(ByteOrder::Big, &[4, 3, 2, 1]), 0x0403_0201);
    assert_eq!(declared_length(ByteOrder::Big, &[255, 255, 255, 255]), u32::MAX);
    assert_eq!(length_prefix(ByteOrder::Little, 300), 300u32.to_le_bytes());
    assert_eq!(length_prefix(ByteOrder::Big, 300), 300u32.to_be_bytes());
}

#[test]
fn write_then_read_gives_the_message_back() {
    for order in [ByteOrder::Little, ByteOrder::Big] {
        for message in ["", "a", "{\"a\":1}", "héllo wörld", "日本語 🎉", "line\nbreak\u{0}nul"] {
            let bytes = write_message(message, order).unwrap();
            assert_eq!(bytes.len(), 4 + message.len());
            let (text, used) = read_message(&bytes, order).unwrap();
            assert_eq!(text, message);
            assert_eq!(used, bytes.len());
        }
    }
}

#[test]
fn empty_message_is_four_zero_bytes() {
    assert_eq!(write_message("", ByteOrder::Little).unwrap(), vec![0, 0, 0, 0]);
    assert_eq!(read_message(&[0, 0, 0, 0], ByteOrder::Big), Ok((String::new(), 4)));
}

#[test]
fn write_places_prefix_before_payload() {
    assert_eq!(write_message("ok", ByteOrder::Little).unwrap(), vec![2, 0, 0, 0, b'o', b'k']);
    assert_eq!(write_message("ok", ByteOrder::Big).unwrap(), vec![0, 0, 0, 2, b'o', b'k']);
    assert_eq!(write_message("é", ByteOrder::Little).unwrap(), vec![2, 0, 0, 0, 0xc3, 0xa9]);
}

#[test]
fn read_leaves_following_bytes_alone() {
    let mut bytes = write_message("first", ByteOrder::Big).unwrap();
    bytes.extend_from_slice(&write_message("second", ByteOrder::Big).unwrap());
    let (text, used) = read_message(&bytes, ByteOrder::Big).unwrap();
    assert_eq!(text, "first");
    assert_eq!(used, 9);
    let (text, used) = read_message(&bytes[used..], ByteOrder::Big).unwrap();
    assert_eq!(text, "second");
    assert_eq!(used, 10);
}

#[test]
fn short_input_is_truncated() {
    assert_eq!(read_message(&[], ByteOrder::Little), Err(FramingError::Truncated));
    assert_eq!(read_message(&[1, 0, 0], ByteOrder::Little), Err(FramingError::Truncated));
    assert_eq!(read_message(&[3, 0, 0, 0, b'a', b'b'], ByteOrder::Little), Err(FramingError::Truncated));
    assert_eq!(read_message(&[0, 0, 0, 3, b'a', b'b'], ByteOrder::Big), Err(FramingError::Truncated));
    assert_eq!(
        read_message(&[255, 255, 255, 255, b'a'], ByteOrder::Little),
        Err(FramingError::Truncated)
    );
    let whole = write_message("hello", ByteOrder::Little).unwrap();
    for kept in 0..whole.len() {
        assert_eq!(read_message(&whole[..kept], ByteOrder::Little), Err(FramingError::Truncated));
    }
}

#[test]
fn payload_that_is_not_utf8_is_rejected() {
    assert_eq!(read_message(&[2, 0, 0, 0, 0xff, 0xfe], ByteOrder::Little), Err(FramingError::InvalidUtf8));
    assert_eq!(read_message(&[0, 0, 0, 1, 0xc3], ByteOrder::Big), Err(FramingError::InvalidUtf8));
    assert_eq!(decode_payload(vec![0xed, 0xa0, 0x80]), Err(FramingError::InvalidUtf8));
    assert_eq!(decode_payload(vec![0xc0, 0x80]), Err(FramingError::InvalidUtf8));
    assert_eq!(decode_payload(vec![0xf4, 0x90, 0x80, 0x80]), Err(FramingError::InvalidUtf8));
    assert_eq!(decode_payload(vec![0xf8, 0x88, 0x80, 0x80, 0x80]), Err(FramingError::InvalidUtf8));
    assert_eq!(decode_payload(vec![0x80]), Err(FramingError::InvalidUtf8));
    assert_eq!(decode_payload(vec![0xf4, 0x8f, 0xbf, 0xbf]), Ok("\u{10ffff}".to_string()));
    assert_eq!(decode_payload(vec![0xe6, 0x97, 0xa5]), Ok("日".to_string()));
    assert_eq!(decode_payload(Vec::new()), Ok(String::new()));
}

#[test]
fn the_order_of_the_prefix_matters() {
    let bytes = write_message("ab", ByteOrder::Little).unwrap();
    assert_eq!(read_message(&bytes, ByteOrder::Big), Err(FramingError::Truncated));
}

#[test]
fn probe_tells_the_order_of_the_number_one() {
    assert_eq!(order_of_probe(&1u32.to_le_bytes()), ByteOrder::Little);
    assert_eq!(order_of_probe(&1u32.to_be_bytes()), ByteOrder::Big);
    assert_eq!(order_of_probe(&length_prefix(ByteOrder::Little, 1)), ByteOrder::Little);
    assert_eq!(order_of_probe(&length_prefix(ByteOrder::Big, 1)), ByteOrder::Big);
    assert_eq!(order_of_probe(&1u32.to_ne_bytes()), native_byte_order());
    assert_eq!(order_of_probe(&[]), ByteOrder::Big);
    assert_eq!(order_of_probe(&[2, 0, 0, 0]), ByteOrder::Big);
}
