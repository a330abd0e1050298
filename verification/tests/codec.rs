use coap::codec::{CoapCodec, ParsedMsg};
use coap::message::body::Body;
use coap::message::code::RawCode;
use coap::message::error::{ErrorKind, FormatError};
use coap::message::header::{Header, MessageType};
use coap::message::message::{Message, MessageKind};
use coap::message::option::Opts;
use coap::message::token::Token;

fn decode(bytes: &[u8]) -> Option<ParsedMsg> {
    let mut buf = bytes.to_vec();
    CoapCodec.decode(&mut buf).unwrap()
}

fn encode(msg: Message) -> Vec<u8> {
    let mut out = Vec::new();
    CoapCodec.encode(msg, &mut out).unwrap();
    out
}

#[test]
fn decode_get_with_uri_path() {
    let bytes = [0x40, 0x01, 0x00, 0x01, 0xB5, 0x68, 0x65, 0x6C, 0x6C, 0x6F];
    match decode(&bytes) {
        Some(ParsedMsg::Valid(msg)) => {
            assert_eq!(msg.header().mtype, MessageType::Confirmable);
            assert_eq!(msg.header().code, RawCode(0, 1));
            assert_eq!(msg.header().message_id, 1);
            assert_eq!(msg.header().tkl, 0);
            assert!(msg.is_request());
            let body = msg.body().unwrap();
            assert_eq!(body.token.len(), 0);
            assert_eq!(body.options.len(), 1);
            assert_eq!(body.options.number_at(0), 11);
            assert_eq!(body.options.value_at(0), b"hello");
            assert_eq!(body.payload, None);
            assert_eq!(encode(msg), bytes.to_vec());
        }
        other => panic!("unexpected {:?}", other),
    }
}

#[test]
fn decode_needs_four_bytes() {
    let mut buf = vec![0x40, 0x01, 0x00];
    assert!(CoapCodec.decode(&mut buf).unwrap().is_none());
    assert_eq!(buf, vec![0x40, 0x01, 0x00]);
    assert!(decode(&[]).is_none());
}

#[test]
fn decode_empties_the_buffer() {
    let mut buf = vec![0x40, 0x00, 0x12, 0x34];
    assert!(CoapCodec.decode(&mut buf).unwrap().is_some());
    assert!(buf.is_empty());
    let mut bad = vec![0x80, 0x00, 0x12, 0x34];
    assert!(CoapCodec.decode(&mut bad).unwrap().is_some());
    assert!(bad.is_empty());
}

#[test]
fn decode_unknown_version_is_invalid() {
    match decode(&[0x80, 0x01, 0x00, 0x01]) {
        Some(ParsedMsg::Invalid(FormatError::UnknownVersion(2))) => {}
        other => panic!("unexpected {:?}", other),
    }
    match decode(&[0x00, 0x01, 0x00, 0x01]) {
        Some(ParsedMsg::Invalid(FormatError::UnknownVersion(0))) => {}
        other => panic!("unexpected {:?}", other),
    }
}

#[test]
fn decode_reserved_token_length_keeps_header() {
    match decode(&[0x49, 0x01, 0xAB, 0xCD]) {
        Some(ParsedMsg::Reject(header, FormatError::InvalidTokenLength(9))) => {
            assert_eq!(header.message_id, 0xABCD);
            assert_eq!(header.tkl, 9);
            assert_eq!(header.mtype, MessageType::Confirmable);
        }
        other => panic!("unexpected {:?}", other),
    }
}

#[test]
fn decode_empty_with_trailing_byte() {
    match decode(&[0x40, 0x00, 0x00, 0x05, 0x01]) {
        Some(ParsedMsg::Reject(header, FormatError::InvalidEmptyCode(reason))) => {
            assert_eq!(header.message_id, 5);
            assert_eq!(reason, "bytes MUST NOT be present after message ID");
        }
        other => panic!("unexpected {:?}", other),
    }
}

#[test]
fn decode_empty_with_token_length() {
    match decode(&[0x41, 0x00, 0x00, 0x05, 0x01]) {
        Some(ParsedMsg::Reject(header, FormatError::InvalidEmptyCode(reason))) => {
            assert_eq!(header.message_id, 5);
            assert_eq!(header.tkl, 1);
            assert_eq!(reason, "token length MUST be 0");
        }
        other => panic!("unexpected {:?}", other),
    }
}

#[test]
fn decode_token_longer_than_datagram() {
    match decode(&[0x44, 0x01, 0x00, 0x05, 0x01, 0x02]) {
        Some(ParsedMsg::Reject(_, FormatError::TokenLengthMismatch { actual: 2, expected: 4 })) => {}
        other => panic!("unexpected {:?}", other),
    }
}

#[test]
fn decode_reserved_delta_and_length() {
    match decode(&[0x40, 0x01, 0x00, 0x05, 0xF0]) {
        Some(ParsedMsg::Reject(_, FormatError::InvalidOptionDelta)) => {}
        other => panic!("unexpected {:?}", other),
    }
    match decode(&[0x40, 0x01, 0x00, 0x05, 0x1F]) {
        Some(ParsedMsg::Reject(_, FormatError::InvalidOptionLength)) => {}
        other => panic!("unexpected {:?}", other),
    }
}

#[test]
fn decode_truncated_extensions() {
    // delta 13 without its extension byte
    match decode(&[0x40, 0x01, 0x00, 0x05, 0xD0]) {
        Some(ParsedMsg::Reject(_, FormatError::InvalidOptionDelta)) => {}
        other => panic!("unexpected {:?}", other),
    }
    // delta 14 with one extension byte only
    match decode(&[0x40, 0x01, 0x00, 0x05, 0xE0, 0x01]) {
        Some(ParsedMsg::Reject(_, FormatError::InvalidOptionDelta)) => {}
        other => panic!("unexpected {:?}", other),
    }
    // length 13 whose extension byte is the last byte
    match decode(&[0x40, 0x01, 0x00, 0x05, 0x1D, 0x00]) {
        Some(ParsedMsg::Reject(_, FormatError::InvalidOptionLength)) => {}
        other => panic!("unexpected {:?}", other),
    }
}

#[test]
fn decode_option_number_past_sixteen_bits() {
    // delta 14, extension 0xFFFF: 65535 + 269 does not fit an option number
    match decode(&[0x40, 0x01, 0x00, 0x05, 0xE0, 0xFF, 0xFF]) {
        Some(ParsedMsg::Reject(_, FormatError::InvalidOptionDelta)) => {}
        other => panic!("unexpected {:?}", other),
    }
}

#[test]
fn decode_value_longer_than_datagram() {
    match decode(&[0x40, 0x01, 0x00, 0x05, 0x13, 0x61]) {
        Some(ParsedMsg::Reject(header, FormatError::OptionLengthMismatch { actual: 1, expected: 3 })) => {
            assert_eq!(header.message_id, 5);
        }
        other => panic!("unexpected {:?}", other),
    }
}

#[test]
fn decode_marker_without_payload() {
    match decode(&[0x40, 0x01, 0x00, 0x05, 0xFF]) {
        Some(ParsedMsg::Reject(_, FormatError::UnexpectedPayloadMarker)) => {}
        other => panic!("unexpected {:?}", other),
    }
}

#[test]
fn decode_kinds_by_class() {
    let kinds: Vec<(u8, u8)> = vec![(0x01, 0), (0x45, 1), (0x84, 1), (0xA0, 1), (0x20, 2), (0xC0, 2), (0xE1, 2)];
    for (code, kind) in kinds {
        match decode(&[0x50, code, 0x00, 0x05]) {
            Some(ParsedMsg::Valid(msg)) => match (msg.kind(), kind) {
                (MessageKind::Request(_), 0) => {}
                (MessageKind::Response(_), 1) => {}
                (MessageKind::Reserved(_), 2) => {}
                other => panic!("unexpected {:?}", other),
            },
            other => panic!("unexpected {:?}", other),
        }
    }
}

#[test]
fn decode_extended_delta_and_length() {
    let mut bytes = vec![0x52, 0x45, 0x12, 0x34, 0xAA, 0xBB];
    // option 6 with 3 bytes
    bytes.extend_from_slice(&[0x63, 1, 2, 3]);
    // option 6 + 13 + 7 = 26, empty
    bytes.extend_from_slice(&[0xD0, 7]);
    // option 26 + 269 + 0x0102 = 553, 13 + 2 = 15 bytes
    bytes.extend_from_slice(&[0xED, 0x01, 0x02, 2]);
    bytes.extend_from_slice(&[9; 15]);
    // option 553, 269 + 1 = 270 bytes
    bytes.extend_from_slice(&[0x0E, 0x00, 0x01]);
    bytes.extend_from_slice(&[7; 270]);
    bytes.extend_from_slice(&[0xFF, b'o', b'k']);
    match decode(&bytes) {
        Some(ParsedMsg::Valid(msg)) => {
            assert_eq!(msg.header().mtype, MessageType::NonConfirmable);
            assert_eq!(msg.header().message_id, 0x1234);
            let body = msg.body().unwrap();
            assert_eq!(body.token.to_bytes(), &[0xAA, 0xBB]);
            assert_eq!(body.options.len(), 4);
            assert_eq!(body.options.number_at(0), 6);
            assert_eq!(body.options.value_at(0), &[1, 2, 3]);
            assert_eq!(body.options.number_at(1), 26);
            assert_eq!(body.options.value_at(1), &[] as &[u8]);
            assert_eq!(body.options.number_at(2), 553);
            assert_eq!(body.options.value_at(2), &[9u8; 15]);
            assert_eq!(body.options.number_at(3), 553);
            assert_eq!(body.options.value_at(3), &[7u8; 270][..]);
            assert_eq!(body.payload, Some(b"ok".to_vec()));
            assert_eq!(encode(msg), bytes);
        }
        other => panic!("unexpected {:?}", other),
    }
}

#[test]
fn encode_orders_options_by_number() {
    let mut opts = Opts::new();
    opts.push_raw(11, b"b");
    opts.push_raw(3, b"host");
    opts.push_raw(11, b"a");
    opts.push_raw(2000, b"");
    opts.push_raw(11, b"c");
    let body = Body::new(Token::new(&[1, 2, 3]), opts, Some(vec![0xDE, 0xAD]));
    let header = Header::new(MessageType::Confirmable, 3, RawCode(0, 2), 0x0102);
    let msg = Message::new(header, MessageKind::Request(body));
    let bytes = encode(msg);
    let mut expected = vec![0x43, 0x02, 0x01, 0x02, 1, 2, 3];
    expected.extend_from_slice(&[0x34, b'h', b'o', b's', b't']);
    expected.extend_from_slice(&[0x81, b'b', 0x01, b'a', 0x01, b'c']);
    // 2000 - 11 = 1989 = 269 + 1720 = 269 + 0x06B8
    expected.extend_from_slice(&[0xE0, 0x06, 0xB8]);
    expected.extend_from_slice(&[0xFF, 0xDE, 0xAD]);
    assert_eq!(bytes, expected);
    match decode(&bytes) {
        Some(ParsedMsg::Valid(back)) => {
            let body = back.body().unwrap();
            assert_eq!(body.options.len(), 5);
            assert_eq!(body.options.number_at(0), 3);
            assert_eq!(body.options.value_at(1), b"b");
            assert_eq!(body.options.value_at(2), b"a");
            assert_eq!(body.options.value_at(3), b"c");
            assert_eq!(body.options.number_at(4), 2000);
            assert_eq!(encode(back), expected);
        }
        other => panic!("unexpected {:?}", other),
    }
}

#[test]
fn encode_leaves_out_empty_payload() {
    let body = Body::new(Token::empty(), Opts::new(), Some(vec![]));
    let header = Header::new(MessageType::Acknowledgement, 0, RawCode(2, 5), 7);
    let msg = Message::new(header, MessageKind::Response(body));
    assert_eq!(encode(msg), vec![0x60, 0x45, 0x00, 0x07]);
}

#[test]
fn encode_empty_message() {
    assert_eq!(encode(Message::empty(MessageType::Reset, 0x1234)), vec![0x70, 0x00, 0x12, 0x34]);
    assert_eq!(encode(Message::empty(MessageType::Acknowledgement, 1)), vec![0x60, 0x00, 0x00, 0x01]);
}

#[test]
fn encode_refuses_long_token_length() {
    let header = Header::new(MessageType::Confirmable, 9, RawCode(0, 1), 1);
    let msg = Message::new(header, MessageKind::Request(Body::new(Token::empty(), Opts::new(), None)));
    let err = msg.as_bytes().unwrap_err();
    assert_eq!(err.kind(), &ErrorKind::MessageFormat(FormatError::InvalidTokenLength(9)));
    assert!(err.header().is_none());
    let mut out = vec![1, 2, 3];
    assert!(CoapCodec.encode(msg, &mut out).is_err());
    assert_eq!(out, vec![1, 2, 3]);
}

#[test]
fn encode_refuses_value_too_long() {
    let mut opts = Opts::new();
    opts.push_raw(1, &vec![0u8; 65805]);
    let header = Header::new(MessageType::Confirmable, 0, RawCode(0, 1), 1);
    let msg = Message::new(header, MessageKind::Request(Body::new(Token::empty(), opts, None)));
    let err = msg.as_bytes().unwrap_err();
    assert_eq!(err.kind(), &ErrorKind::MessageFormat(FormatError::InvalidOptionLength));
}

#[test]
fn encode_longest_value() {
    let mut opts = Opts::new();
    opts.push_raw(1, &vec![5u8; 65804]);
    let header = Header::new(MessageType::Confirmable, 0, RawCode(0, 1), 1);
    let msg = Message::new(header, MessageKind::Request(Body::new(Token::empty(), opts, None)));
    let bytes = msg.as_bytes().unwrap();
    assert_eq!(&bytes[..7], &[0x40, 0x01, 0x00, 0x01, 0x1E, 0xFF, 0xFF]);
    assert_eq!(bytes.len(), 7 + 65804);
    let back = Message::from_bytes(&bytes).unwrap();
    assert_eq!(back, msg);
}

#[test]
fn header_bytes() {
    let header = Header::new(MessageType::Reset, 8, RawCode(5, 31), 0xFFFE);
    assert_eq!(header.to_bytes().unwrap(), [0x78, 0xBF, 0xFF, 0xFE]);
    assert_eq!(Header::from_bytes(&[0x78, 0xBF, 0xFF, 0xFE]).unwrap(), header);
    let header = Header::new(MessageType::NonConfirmable, 0, RawCode(0, 0), 0x0100);
    assert_eq!(header.to_bytes().unwrap(), [0x50, 0x00, 0x01, 0x00]);
}

#[test]
fn predicates() {
    assert!(Message::empty(MessageType::Reset, 1).is_reset());
    assert!(!Message::empty(MessageType::Reset, 1).is_ping());
    assert!(Message::empty(MessageType::Confirmable, 1).is_ping());
    assert!(Message::empty(MessageType::Confirmable, 1).is_empty());
    assert!(!Message::empty(MessageType::Acknowledgement, 1).is_reset());
    let msg = Message::from_bytes(&[0x40, 0x01, 0x00, 0x01]).unwrap();
    assert!(msg.is_request() && !msg.is_response() && !msg.is_reserved() && !msg.is_empty());
    let (header, kind) = msg.consume();
    assert_eq!(header.message_id, 1);
    assert!(matches!(kind, MessageKind::Request(_)));
}

/// A small generator of numbers that look random and are the same in every run.
struct Lcg(u64);

impl Lcg {
    fn next(&mut self) -> u64 {
        self.0 = self.0.wrapping_mul(6364136223846793005).wrapping_add(1442695040888963407);
        self.0 >> 33
    }

    fn below(&mut self, n: u64) -> u64 {
        self.next() % n
    }

    fn bytes(&mut self, len: usize) -> Vec<u8> {
        (0..len).map(|_| self.next() as u8).collect()
    }
}

#[test]
fn written_then_read_gives_the_message_back() {
    let mut rng = Lcg(7);
    let lengths: [usize; 9] = [0, 1, 12, 13, 14, 268, 269, 270, 1000];
    let numbers: [u16; 10] = [0, 1, 12, 13, 14, 268, 269, 270, 5000, 65535];
    for round in 0..300 {
        let token_len = rng.below(9) as usize;
        let token = rng.bytes(token_len);
        let mut opts = Opts::new();
        for _ in 0..rng.below(6) {
            let number = if rng.below(2) == 0 { numbers[rng.below(10) as usize] } else { rng.next() as u16 };
            let len = lengths[rng.below(9) as usize];
            opts.push_raw(number, &rng.bytes(len));
        }
        let payload_len = 1 + rng.below(40) as usize;
        let payload = if rng.below(2) == 0 { None } else { Some(rng.bytes(payload_len)) };
        let mtype = MessageType::from_u8(&(rng.next() as u8));
        let code = loop {
            let code = RawCode::from_u8(rng.next() as u8);
            if code != RawCode(0, 0) {
                break code;
            }
        };
        let header = Header::new(mtype, token.len(), code, rng.next() as u16);
        let body = Body::new(Token::new(&token), opts, payload);
        let kind = match code.class() {
            0 => MessageKind::Request(body),
            2..=5 => MessageKind::Response(body),
            _ => MessageKind::Reserved(body),
        };
        let msg = Message::new(header, kind);
        let bytes = msg.as_bytes().unwrap();
        let back = Message::from_bytes(&bytes).unwrap();
        assert_eq!(back, msg, "round {}", round);
        assert_eq!(back.as_bytes().unwrap(), bytes);
    }
}

#[test]
fn read_then_written_gives_the_bytes_back() {
    let mut rng = Lcg(99);
    let mut valid = 0;
    for _ in 0..20000 {
        let len = 4 + rng.below(24) as usize;
        let mut bytes = rng.bytes(len);
        bytes[0] = 0x40 | (bytes[0] & 0x3F);
        if rng.below(2) == 0 {
            bytes[0] &= 0xF3;
        }
        match decode(&bytes) {
            Some(ParsedMsg::Valid(msg)) => {
                valid += 1;
                if let Some(body) = msg.body() {
                    for i in 1..body.options.len() {
                        assert!(body.options.number_at(i - 1) <= body.options.number_at(i));
                    }
                }
                assert_eq!(encode(msg), bytes);
            }
            Some(ParsedMsg::Reject(header, _)) => {
                assert_eq!(header.message_id, u16::from(bytes[2]) * 256 + u16::from(bytes[3]));
                assert_eq!(header.tkl, usize::from(bytes[0] & 0x0F));
                assert_eq!(header.code.as_u8(), bytes[1]);
            }
            other => panic!("the header was lost: {:?}", other),
        }
    }
    assert!(valid > 100);
}
