use neural_control::message::{Message, MessageError};

fn bits(v: &[f32]) -> Vec<u32> {
    v.iter().map(|x| x.to_bits()).collect()
}

#[test]
fn encode_ping_is_a_bare_header() {
    assert_eq!(Message::Ping.encode(), vec![0u8, 0, 0, 0]);
    assert_eq!(Message::Pong.encode(), vec![1u8, 0, 0, 0]);
}

#[test]
fn encode_writes_floats_little_endian() {
    let data = [1.0f32, -2.5, 0.1];
    let out = Message::State(bits(&data)).encode();
    let mut expected = vec![2u8, 3, 0, 0];
    for x in data.iter() {
        expected.extend(x.to_le_bytes());
    }
    assert_eq!(out, expected);
    let out = Message::Action(bits(&[1.0f32])).encode();
    assert_eq!(out, vec![3u8, 1, 0, 0, 0x00, 0x00, 0x80, 0x3f]);
}

#[test]
fn encode_writes_word_bytes_in_order() {
    let out = Message::Action(vec![0x0403_0201u32, 0xddcc_bbaa]).encode();
    assert_eq!(out, vec![3u8, 2, 0, 0, 1, 2, 3, 4, 0xaa, 0xbb, 0xcc, 0xdd]);
}

#[test]
fn decode_missing_header() {
    assert_eq!(Message::decode(&[]).unwrap_err(), MessageError::MissingHeader);
    assert_eq!(Message::decode(&[2, 0, 0]).unwrap_err(), MessageError::MissingHeader);
}

#[test]
fn decode_length_incorrect() {
    assert_eq!(Message::decode(&[2, 1, 0, 0]).unwrap_err(), MessageError::LengthIncorrect);
    assert_eq!(Message::decode(&[0, 0, 0, 0, 9]).unwrap_err(), MessageError::LengthIncorrect);
    assert_eq!(Message::decode(&[3, 1, 0, 0, 1, 2, 3, 4, 5]).unwrap_err(), MessageError::LengthIncorrect);
}

#[test]
fn decode_unknown_type() {
    assert_eq!(Message::decode(&[4, 0, 0, 0]).unwrap_err(), MessageError::UnknownMessageType);
    assert_eq!(Message::decode(&[200, 1, 0, 0, 1, 2, 3, 4]).unwrap_err(), MessageError::UnknownMessageType);
}

#[test]
fn decode_reads_floats() {
    let mut datagram = vec![2u8, 2, 0, 0];
    datagram.extend(1.5f32.to_le_bytes());
    datagram.extend((-7.25f32).to_le_bytes());
    match Message::decode(&datagram).unwrap() {
        Message::State(d) => {
            assert_eq!(d.len(), 2);
            assert_eq!(f32::from_bits(d[0]), 1.5);
            assert_eq!(f32::from_bits(d[1]), -7.25);
        }
        other => panic!("unexpected {:?}", other),
    }
}

#[test]
fn decode_ping_drops_payload_and_ignores_padding() {
    assert!(matches!(Message::decode(&[0, 1, 9, 9, 1, 2, 3, 4]).unwrap(), Message::Ping));
    assert!(matches!(Message::decode(&[1, 0, 7, 8]).unwrap(), Message::Pong));
    match Message::decode(&[3, 1, 0xff, 0xff, 1, 0, 0, 0]).unwrap() {
        Message::Action(d) => assert_eq!(d, vec![1u32]),
        other => panic!("unexpected {:?}", other),
    }
}

#[test]
fn roundtrip_decode_of_encode() {
    let words: Vec<u32> = (0..255u32).map(|i| i.wrapping_mul(0x9e37_79b9)).collect();
    let datagram = Message::Action(words.clone()).encode();
    assert_eq!(datagram.len(), 4 + 4 * 255);
    match Message::decode(&datagram).unwrap() {
        Message::Action(d) => assert_eq!(d, words),
        other => panic!("unexpected {:?}", other),
    }
    assert!(matches!(Message::decode(&Message::Ping.encode()).unwrap(), Message::Ping));
}

#[test]
fn roundtrip_encode_of_decode() {
    let datagram = vec![2u8, 2, 0, 0, 10, 20, 30, 40, 50, 60, 70, 80];
    let m = Message::decode(&datagram).unwrap();
    assert_eq!(m.encode(), datagram);
}
