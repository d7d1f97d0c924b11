use stationuli_core::p2p::tcp::{
    decode_frame, decode_length, encode_frame, encode_length, PREFIX_LEN,
};

#[test]
fn length_goes_first_most_significant_byte_first() {
    assert_eq!(PREFIX_LEN, 4);
    assert_eq!(encode_length(0), [0, 0, 0, 0]);
    assert_eq!(encode_length(1), [0, 0, 0, 1]);
    assert_eq!(encode_length(258), [0, 0, 1, 2]);
    assert_eq!(encode_length(0x0102_0304), [1, 2, 3, 4]);
    assert_eq!(encode_length(0xffff_ffff), [255, 255, 255, 255]);
}

#[test]
fn length_is_read_back() {
    assert_eq!(decode_length(&[0, 0, 0, 0]), 0);
    assert_eq!(decode_length(&[0, 0, 1, 2]), 258);
    assert_eq!(decode_length(&[1, 2, 3, 4]), 0x0102_0304);
    assert_eq!(decode_length(&[255, 255, 255, 255]), u32::MAX);
    for n in [0usize, 1, 255, 256, 65_535, 65_536, 16_777_215, 16_777_216, 1_048_576] {
        assert_eq!(decode_length(&encode_length(n)) as usize, n);
    }
}

#[test]
fn frame_is_prefix_and_payload() {
    assert_eq!(encode_frame(&[]), vec![0, 0, 0, 0]);
    assert_eq!(encode_frame(&[7, 8, 9]), vec![0, 0, 0, 3, 7, 8, 9]);
    let payload: Vec<u8> = (0..300).map(|i| (i % 256) as u8).collect();
    let frame = encode_frame(&payload);
    assert_eq!(&frame[..4], &[0, 0, 1, 44]);
    assert_eq!(&frame[4..], &payload[..]);
}

#[test]
fn frame_comes_off_a_buffer_whole_or_not_at_all() {
    assert_eq!(decode_frame(&[]), None);
    assert_eq!(decode_frame(&[0, 0, 0]), None);
    assert_eq!(decode_frame(&[0, 0, 0, 0]), Some((vec![], 4)));
    assert_eq!(decode_frame(&[0, 0, 0, 2, 5]), None);
    assert_eq!(decode_frame(&[0, 0, 0, 2, 5, 6]), Some((vec![5, 6], 6)));
    assert_eq!(decode_frame(&[0, 0, 0, 2, 5, 6, 0, 0]), Some((vec![5, 6], 6)));
    assert_eq!(decode_frame(&[255, 255, 255, 255, 1, 2, 3]), None);
}

#[test]
fn frames_in_a_row_come_off_one_by_one() {
    let mut buffer = encode_frame(b"first");
    buffer.extend(encode_frame(b""));
    buffer.extend(encode_frame(b"third"));
    let (a, used_a) = decode_frame(&buffer).unwrap();
    assert_eq!(a, b"first".to_vec());
    let (b, used_b) = decode_frame(&buffer[used_a..]).unwrap();
    assert_eq!(b, Vec::<u8>::new());
    let (c, used_c) = decode_frame(&buffer[used_a + used_b..]).unwrap();
    assert_eq!(c, b"third".to_vec());
    assert_eq!(used_a + used_b + used_c, buffer.len());
}
