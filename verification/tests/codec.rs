use peer_node::codec::{decode, encode, read_decoded, PayloadError};

#[test]
fn encodes_a_sample() {
    assert_eq!(encode(1000, 7), vec![0x82, 0x19, 0x03, 0xe8, 0x07]);
}

#[test]
fn encodes_small_numbers_in_one_byte() {
    assert_eq!(encode(0, 0), vec![0x82, 0x00, 0x00]);
    assert_eq!(encode(23, 23), vec![0x82, 0x17, 0x17]);
}

#[test]
fn encodes_one_byte_numbers_behind_a_marker() {
    assert_eq!(encode(24, 24), vec![0x82, 0x18, 0x18, 0x18, 0x18]);
    assert_eq!(encode(255, 255), vec![0x82, 0x18, 0xff, 0x18, 0xff]);
}

#[test]
fn encodes_two_byte_numbers_big_endian() {
    assert_eq!(encode(256, 256), vec![0x82, 0x19, 0x01, 0x00, 0x19, 0x01, 0x00]);
    assert_eq!(encode(65535, 65535), vec![0x82, 0x19, 0xff, 0xff, 0x19, 0xff, 0xff]);
}

#[test]
fn encodes_four_byte_numbers_big_endian() {
    assert_eq!(encode(65536, 1), vec![0x82, 0x1a, 0x00, 0x01, 0x00, 0x00, 0x01]);
    assert_eq!(
        encode(0x1234_5678, 2),
        vec![0x82, 0x1a, 0x12, 0x34, 0x56, 0x78, 0x02]
    );
    assert_eq!(
        encode(u32::MAX as u64, 3),
        vec![0x82, 0x1a, 0xff, 0xff, 0xff, 0xff, 0x03]
    );
}

#[test]
fn encodes_eight_byte_numbers_big_endian() {
    assert_eq!(
        encode(u32::MAX as u64 + 1, 4),
        vec![0x82, 0x1b, 0x00, 0x00, 0x00, 0x01, 0x00, 0x00, 0x00, 0x00, 0x04]
    );
    assert_eq!(
        encode(0x0102_0304_0506_0708, 5),
        vec![0x82, 0x1b, 0x01, 0x02, 0x03, 0x04, 0x05, 0x06, 0x07, 0x08, 0x05]
    );
    assert_eq!(
        encode(u64::MAX, u16::MAX),
        vec![
            0x82, 0x1b, 0xff, 0xff, 0xff, 0xff, 0xff, 0xff, 0xff, 0xff, 0x19, 0xff, 0xff
        ]
    );
}

#[test]
fn decodes_what_was_encoded() {
    let timestamps = [
        0u64,
        1,
        23,
        24,
        255,
        256,
        1000,
        65535,
        65536,
        u32::MAX as u64,
        u32::MAX as u64 + 1,
        1_700_000_000_000,
        u64::MAX,
    ];
    let indices = [0u16, 1, 7, 23, 24, 255, 256, 4096, u16::MAX];
    for timestamp in timestamps {
        for sample_index in indices {
            let bytes = encode(timestamp, sample_index);
            assert_eq!(decode(&bytes), Ok((timestamp, sample_index)));
        }
    }
}

#[test]
fn decodes_a_sample() {
    assert_eq!(decode(&[0x82, 0x19, 0x03, 0xe8, 0x07]), Ok((1000, 7)));
}

#[test]
fn different_samples_have_different_payloads() {
    assert_ne!(encode(1000, 7), encode(1000, 8));
    assert_ne!(encode(1000, 7), encode(1001, 7));
    assert_ne!(encode(7, 1000), encode(1000, 7));
    assert_ne!(encode(0, 24), encode(24, 0));
}

#[test]
fn refuses_an_empty_payload() {
    assert_eq!(decode(&[]), Err(PayloadError));
}

#[test]
fn refuses_a_truncated_payload() {
    let bytes = encode(1000, 7);
    for len in 0..bytes.len() {
        assert_eq!(decode(&bytes[..len]), Err(PayloadError));
    }
}

#[test]
fn refuses_every_payload_cut_short() {
    let samples = [
        (0u64, 0u16),
        (23, 24),
        (255, 256),
        (65535, 65535),
        (65536, 23),
        (u32::MAX as u64, 255),
        (u32::MAX as u64 + 1, 4096),
        (u64::MAX, u16::MAX),
    ];
    for (timestamp, sample_index) in samples {
        let bytes = encode(timestamp, sample_index);
        for len in 0..bytes.len() {
            assert_eq!(decode(&bytes[..len]), Err(PayloadError));
        }
        assert_eq!(decode(&bytes), Ok((timestamp, sample_index)));
    }
}

#[test]
fn refuses_a_payload_of_another_shape() {
    // a text string
    assert_eq!(decode(&[0x61, 0x61]), Err(PayloadError));
    // a single number
    assert_eq!(decode(&[0x07]), Err(PayloadError));
    // an array of one
    assert_eq!(decode(&[0x81, 0x07]), Err(PayloadError));
    // a negative timestamp
    assert_eq!(decode(&[0x82, 0x20, 0x07]), Err(PayloadError));
    // a reserved head
    assert_eq!(decode(&[0x82, 0x1c, 0x07]), Err(PayloadError));
}

#[test]
fn refuses_a_sample_index_beyond_sixteen_bits() {
    assert_eq!(
        decode(&[0x82, 0x01, 0x1a, 0x00, 0x01, 0x00, 0x00]),
        Err(PayloadError)
    );
}

#[test]
fn reads_a_number_that_is_not_in_its_shortest_form() {
    assert_eq!(decode(&[0x82, 0x18, 0x05, 0x19, 0x00, 0x06]), Ok((5, 6)));
}

#[test]
fn read_decoded_keeps_the_pair() {
    assert_eq!(read_decoded(Some((1000, 7))), Ok((1000, 7)));
    assert_eq!(read_decoded(Some((0, 0))), Ok((0, 0)));
}

#[test]
fn read_decoded_reports_a_missing_pair() {
    assert_eq!(read_decoded(None), Err(PayloadError));
}
