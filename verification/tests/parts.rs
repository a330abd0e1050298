use coap::error::{pprint_error, Error, ErrorKind};
use coap::exchange::{Async, Key, Outbox, Retry, ToSend, Transmition};
use coap::message::builder::MessageBuilder;
use coap::message::code::{
    code_class, code_detail, ClientErrorCode, Error as CodeError, Method, RawCode, ResponseCode,
    ServerErrorCode, SuccessCode,
};
use coap::message::error::{ErrorKind as MessageErrorKind, FormatError, MessageError};
use coap::message::format::ContentFormat;
use coap::message::header::{Header, MessageType};
use coap::message::message::{Message, MessageKind};
use coap::message::option::Opts;
use coap::message::token::Token;
use coap::midgen::MidGen;
use coap::params;
use coap::peer::{PeerAddr, PeerIp};
use coap::reliability::Reliablity;
use coap::response::{Carry, Response};
use coap::text::{decimal, hex, two_digits};

#[test]
fn raw_code_bits() {
    assert_eq!(RawCode::from_u8(0x45), RawCode(2, 5));
    assert_eq!(RawCode(2, 5).as_u8(), 0x45);
    assert_eq!(RawCode::from_u8(0xFF), RawCode(7, 31));
    assert_eq!(RawCode(7, 31).as_u8(), 0xFF);
    assert_eq!(RawCode(4, 4).class(), 4);
    assert_eq!(RawCode(4, 15).detail(), 15);
    assert_eq!(code_class(0xA0), 5);
    assert_eq!(code_detail(0xA3), 3);
    assert_eq!(RawCode::from(0x84u8), RawCode(4, 4));
    assert_eq!(RawCode::from((1u8, 2u8)), RawCode(1, 2));
    for raw in 0..=255u8 {
        assert_eq!(RawCode::from_u8(raw).as_u8(), raw);
    }
}

#[test]
fn methods() {
    assert_eq!(Method::from_raw_code(RawCode(0, 1)), Ok(Method::Get));
    assert_eq!(Method::from_raw_code(RawCode(0, 2)), Ok(Method::Post));
    assert_eq!(Method::from_raw_code(RawCode(0, 3)), Ok(Method::Put));
    assert_eq!(Method::from_raw_code(RawCode(0, 4)), Ok(Method::Delete));
    assert_eq!(Method::from_raw_code(RawCode(0, 5)), Ok(Method::Unknown(5)));
    assert_eq!(Method::from_raw_code(RawCode(0, 0)), Err(CodeError::InvalidMethod(0)));
    assert_eq!(Method::from_raw_code(RawCode(2, 1)), Err(CodeError::InvalidMethod(2)));
    assert_eq!(Method::Delete.as_raw_code(), RawCode(0, 4));
    assert_eq!(Method::Unknown(9).as_raw_code(), RawCode(0, 9));
    assert_eq!(Method::default(), Method::Get);
    assert_eq!(Method::Get.to_string(), "GET");
    assert_eq!(Method::Unknown(9).to_string(), "0.09 UNKNOWN");
}

#[test]
fn response_codes() {
    let pairs = [
        (ResponseCode::Success(SuccessCode::Created), (2, 1), "Created"),
        (ResponseCode::Success(SuccessCode::Deleted), (2, 2), "Deleted"),
        (ResponseCode::Success(SuccessCode::Valid), (2, 3), "Valid"),
        (ResponseCode::Success(SuccessCode::Changed), (2, 4), "Changed"),
        (ResponseCode::Success(SuccessCode::Content), (2, 5), "Content"),
        (ResponseCode::Success(SuccessCode::Unknown(6)), (2, 6), "Unknown"),
        (ResponseCode::ClientError(ClientErrorCode::BadRequest), (4, 0), "Bad Request"),
        (ResponseCode::ClientError(ClientErrorCode::Unauthorized), (4, 1), "Unauthorized"),
        (ResponseCode::ClientError(ClientErrorCode::BadOption), (4, 2), "Bad Option"),
        (ResponseCode::ClientError(ClientErrorCode::Forbidden), (4, 3), "Forbidden"),
        (ResponseCode::ClientError(ClientErrorCode::NotFound), (4, 4), "Not Found"),
        (ResponseCode::ClientError(ClientErrorCode::MethodNotAllowed), (4, 5), "Method Not Allowed"),
        (ResponseCode::ClientError(ClientErrorCode::NotAcceptable), (4, 6), "Not Acceptable"),
        (ResponseCode::ClientError(ClientErrorCode::PreconditionFailed), (4, 12), "Precondition Failed"),
        (ResponseCode::ClientError(ClientErrorCode::RequestEntityTooLarge), (4, 13), "Request Entity Too Large"),
        (ResponseCode::ClientError(ClientErrorCode::UnsupportedContentFormat), (4, 15), "Unsupported Content Format"),
        (ResponseCode::ClientError(ClientErrorCode::Unknown(7)), (4, 7), "Unknown"),
        (ResponseCode::ServerError(ServerErrorCode::InternalServerError), (5, 0), "Internal Server Error"),
        (ResponseCode::ServerError(ServerErrorCode::NotImplemented), (5, 1), "Not Implemented"),
        (ResponseCode::ServerError(ServerErrorCode::BadGateway), (5, 2), "Bad Gateway"),
        (ResponseCode::ServerError(ServerErrorCode::ServiceUnavailable), (5, 3), "Service Unavailable"),
        (ResponseCode::ServerError(ServerErrorCode::GatewayTimeout), (5, 4), "Gateway Timeout"),
        (ResponseCode::ServerError(ServerErrorCode::ProxyingNotSupported), (5, 5), "Proxying Not Supported"),
        (ResponseCode::ServerError(ServerErrorCode::Unknown(6)), (5, 6), "Unknown"),
    ];
    for (code, (class, detail), name) in pairs {
        assert_eq!(code.as_raw_code(), RawCode(class, detail));
        assert_eq!(ResponseCode::from_raw_code(RawCode(class, detail)), Ok(code));
        assert_eq!(code.name(), name);
    }
    assert_eq!(ResponseCode::from_raw_code(RawCode(2, 0)), Ok(ResponseCode::Success(SuccessCode::Unknown(0))));
    assert_eq!(ResponseCode::from_raw_code(RawCode(3, 1)), Err(CodeError::InvalidResponseCode(3)));
    assert_eq!(ResponseCode::from_raw_code(RawCode(0, 1)), Err(CodeError::InvalidResponseCode(0)));
    assert_eq!(ResponseCode::default(), ResponseCode::Success(SuccessCode::Content));
    assert_eq!(SuccessCode::default(), SuccessCode::Content);
    assert_eq!(ClientErrorCode::default(), ClientErrorCode::BadRequest);
    assert_eq!(ServerErrorCode::default(), ServerErrorCode::InternalServerError);
    assert_eq!(ResponseCode::from(SuccessCode::Valid), ResponseCode::Success(SuccessCode::Valid));
    assert_eq!(ResponseCode::from(ClientErrorCode::NotFound), ResponseCode::ClientError(ClientErrorCode::NotFound));
    assert_eq!(ResponseCode::from(ServerErrorCode::BadGateway), ResponseCode::ServerError(ServerErrorCode::BadGateway));
    assert_eq!(ResponseCode::ClientError(ClientErrorCode::NotFound).to_string(), "4.04 Not Found");
    assert_eq!(ResponseCode::Success(SuccessCode::Content).to_string(), "2.05 Content");
    assert_eq!(RawCode(4, 15).to_string(), "4.15");
    assert_eq!(CodeError::InvalidMethod(2).to_string(), "invalid method class (expected 0, got 2)");
    assert_eq!(
        CodeError::InvalidResponseCode(3).to_string(),
        "invalid response code class (expected 2, 4 or 5, got 3)"
    );
}

#[test]
fn message_types() {
    for (n, t, text) in [
        (0u8, MessageType::Confirmable, "CON"),
        (1, MessageType::NonConfirmable, "NON"),
        (2, MessageType::Acknowledgement, "ACK"),
        (3, MessageType::Reset, "RST"),
    ] {
        assert_eq!(MessageType::from_u8(&n), t);
        assert_eq!(MessageType::from_u8(&(n | 0xFC)), t);
        assert_eq!(t.as_u8(), n);
        assert_eq!(t.to_string(), text);
    }
    assert_eq!(Reliablity::from_message_type(MessageType::Confirmable), Some(Reliablity::Confirmable));
    assert_eq!(Reliablity::from_message_type(MessageType::NonConfirmable), Some(Reliablity::NonConfirmable));
    assert_eq!(Reliablity::from_message_type(MessageType::Acknowledgement), None);
    assert_eq!(Reliablity::from_message_type(MessageType::Reset), None);
    assert_eq!(Reliablity::Confirmable.message_type(), MessageType::Confirmable);
    assert_eq!(Reliablity::NonConfirmable.message_type(), MessageType::NonConfirmable);
}

#[test]
fn texts_of_header_and_token() {
    let header = Header::new(MessageType::Confirmable, 0, RawCode(0, 1), 0x1a2b);
    assert_eq!(header.to_string(), "(T=CON, Code=0.01, MID=0x1a2b)");
    assert_eq!(Header::new(MessageType::Reset, 0, RawCode(0, 0), 0).to_string(), "(T=RST, Code=0.00, MID=0x0)");
    assert_eq!(Token::empty().to_string(), "NULL");
    assert_eq!(Token::new(&[0x01, 0xAB, 0x00, 0x10]).to_string(), "0x1ab010");
    assert_eq!(decimal(0), "0");
    assert_eq!(decimal(1034), "1034");
    assert_eq!(decimal(u64::MAX), "18446744073709551615");
    assert_eq!(hex(0), "0");
    assert_eq!(hex(0xdeadbeef), "deadbeef");
    assert_eq!(two_digits(5), "05");
    assert_eq!(two_digits(31), "31");
}

#[test]
fn tokens() {
    assert_eq!(Token::empty().len(), 0);
    assert_eq!(Token::empty().to_bytes(), &[] as &[u8]);
    let token = Token::new(&[1, 2, 3]);
    assert_eq!(token.len(), 3);
    assert_eq!(token.to_bytes(), &[1, 2, 3]);
    assert_eq!(token.clone(), token);
    assert!(token == Token::new(&[1, 2, 3]));
    assert!(token != Token::new(&[1, 2, 4]));
    assert!(token != Token::new(&[1, 2]));
    assert_eq!(Token::new(&[9; 8]).len(), 8);
}

#[test]
fn texts_of_errors() {
    let texts: Vec<(FormatError, &str)> = vec![
        (FormatError::UnknownVersion(2), "unkown version number 2 (must be 1)"),
        (FormatError::InvalidTokenLength(9), "invalid token length 9 (lengths 9 to 15 are reserved)"),
        (FormatError::InvalidEmptyCode("token length MUST be 0".into()), "invalid empty code: token length MUST be 0"),
        (FormatError::TokenLengthMismatch { actual: 2, expected: 4 }, "invalid token (expected 4 bytes, got 2)"),
        (FormatError::InvalidOptionDelta, "option delta 15 is reserved for the payload marker"),
        (FormatError::InvalidOptionLength, "option length 15 is reserved for future use"),
        (FormatError::OptionLengthMismatch { actual: 1, expected: 3 }, "option value size mismatch (expected 3 bytes, got 1)"),
        (FormatError::InvalidOptionValue { range: 1..8, actual: 0 }, "invalid option value (expected 1 - 8 bytes, got 0)"),
        (FormatError::InvalidOption("bad".into()), "invalid option: bad"),
        (FormatError::UnexpectedPayloadMarker, "unexpected payload marker when payload is empty"),
    ];
    for (fault, text) in texts {
        assert_eq!(fault.to_string(), text);
        assert_eq!(fault.clone(), fault);
    }
    assert_eq!(MessageErrorKind::PacketTooSmall(3).to_string(), "invalid CoAP packet size 3 (minimum 4 bytes)");
    assert_eq!(MessageErrorKind::MessageFormat(FormatError::InvalidOptionDelta).to_string(), "invalid message format");
    assert_eq!(MessageErrorKind::from(FormatError::InvalidOptionDelta), MessageErrorKind::MessageFormat(FormatError::InvalidOptionDelta));
    assert_eq!(Error::addr_unavailable().to_string(), "address unavailable");
    assert_eq!(Error::response_timeout().to_string(), "response timeout");
    assert_eq!(Error::handler().to_string(), "response handler failed");
    assert_eq!(Error::request_cancelled().to_string(), "request cancelled by client");
    assert_eq!(Error::broken_channel("server rx").to_string(), "broken channel: server rx");
    assert_eq!(Error::broken_channel(String::from("x")).to_string(), "broken channel: x");
    assert_eq!(Error::broken_channel_at("server tx").to_string(), "broken channel: server tx");
    assert!(matches!(Error::handler().kind(), ErrorKind::Handler));
    assert!(matches!(Error::request_cancelled().kind(), ErrorKind::RequestCancelled));
    assert!(matches!(Error::response_timeout().kind(), ErrorKind::ResponseTimeout));
    assert!(matches!(Error::addr_unavailable().kind(), ErrorKind::AddrUnavailable));
}

#[test]
fn pretty_printed_chain() {
    let err = Message::from_bytes(&[0x80, 0, 0, 0]).unwrap_err();
    assert_eq!(err.to_string(), "invalid message format");
    assert_eq!(
        pprint_error(&Error::message(err)),
        "message error: invalid message format: unkown version number 2 (must be 1)"
    );
    let err = Message::from_bytes(&[0x40]).unwrap_err();
    assert_eq!(err.kind(), &MessageErrorKind::PacketTooSmall(1));
    assert_eq!(
        pprint_error(&Error::message(err)),
        "message error: invalid CoAP packet size 1 (minimum 4 bytes)"
    );
    assert_eq!(pprint_error(&Error::handler()), "response handler failed");
    let io = std::io::Error::new(std::io::ErrorKind::Other, "boom");
    let err = Error::server_io(io);
    assert!(matches!(err.kind(), ErrorKind::ServerIo(_)));
    assert_eq!(pprint_error(&err), "server io error: boom");
}

#[test]
fn message_errors() {
    let header = Header::new(MessageType::Confirmable, 0, RawCode(0, 1), 7);
    let mut err = MessageError::new(MessageErrorKind::PacketTooSmall(2));
    assert_eq!(err.kind(), &MessageErrorKind::PacketTooSmall(2));
    assert_eq!(err.header(), None);
    assert_eq!(err.take_header(), None);
    let mut err = err.set_header(header);
    assert_eq!(err.header(), Some(&header));
    assert_eq!(err.clone(), err);
    assert_eq!(err.take_header(), Some(header));
    assert_eq!(err.header(), None);
    let err = MessageError::with_header(MessageErrorKind::MessageFormat(FormatError::InvalidOptionDelta), header);
    assert_eq!(err.header(), Some(&header));
    assert_eq!(err.kind().source(), Some(&FormatError::InvalidOptionDelta));
    assert_eq!(MessageErrorKind::PacketTooSmall(2).source(), None);
}

#[test]
fn content_formats() {
    for (id, format) in [
        (0u16, ContentFormat::TextPlain),
        (40, ContentFormat::LinkFormat),
        (41, ContentFormat::Xml),
        (42, ContentFormat::OctetStream),
        (47, ContentFormat::Exi),
        (50, ContentFormat::Json),
    ] {
        assert_eq!(ContentFormat::parse(id), Some(format));
        assert_eq!(format.id(), id);
    }
    assert_eq!(ContentFormat::parse(1), None);
    assert_eq!(ContentFormat::parse(43), None);
}

#[test]
fn timings() {
    assert_eq!(params::VERSION, 1);
    assert_eq!(params::ACK_TIMEOUT, 2000);
    assert_eq!(params::ACK_TIMEOUT_MAX, 3000);
    assert_eq!(params::ACK_TIMEOUT * params::ACK_RANDOM_NUMER / params::ACK_RANDOM_DENOM, params::ACK_TIMEOUT_MAX);
    assert_eq!(params::MAX_RETRANSMIT, 4);
    assert_eq!(params::DEFAULT_LEISURE, 5000);
    assert_eq!(params::MAX_LATENCY, 100_000);
    assert_eq!(params::PROCESSING_DELAY, 2000);
    assert_eq!(params::MAX_RTT, 202_000);
    assert_eq!(params::MAX_TRANSMIT_SPAN, 45_000);
    assert_eq!(params::MAX_TRANSMIT_WAIT, 93_000);
    assert_eq!(params::EXCHANGE_LIFETIME, 247_000);
    assert_eq!(params::NON_LIFETIME, 145_000);
    assert_eq!(params::exchange_lifetime(45_000, 100_000, 2000), 247_000);
    assert_eq!(params::non_lifetime(45_000, 100_000), 145_000);
    assert_eq!(params::max_transmit_span(2000, 4, 3, 2), Some(45_000));
    assert_eq!(params::max_transmit_wait(2000, 4, 3, 2), Some(93_000));
    assert_eq!(params::max_transmit_span(1, 1, 1, 2), Some(0));
    assert_eq!(params::max_transmit_span(3, 2, 3, 2), Some(13));
    assert_eq!(params::max_transmit_span(2000, 4, 3, 0), None);
    assert_eq!(params::max_transmit_span(u64::MAX, 4, 3, 2), None);
    assert_eq!(params::max_transmit_wait(2000, 64, 3, 2), None);
}

#[test]
fn message_ids() {
    let mut gen = MidGen::new();
    let a = PeerAddr::v4(1, 1000);
    let a2 = PeerAddr::v4(1, 2000);
    let b = PeerAddr::v6(1, 1000, 0, 0);
    assert_eq!(gen.next(a), 0);
    assert_eq!(gen.next(a), 1);
    assert_eq!(gen.next(b), 0);
    assert_eq!(gen.next(a2), 2);
    assert_eq!(gen.next(b), 1);
    let mut gen = MidGen::default();
    for expected in 0..=65535u16 {
        assert_eq!(gen.next(a), expected);
    }
    assert_eq!(gen.next(a), 0);
    assert_eq!(gen.next(a), 1);
}

#[test]
fn peers() {
    let a = PeerAddr::v4(0x0A000001, 5683);
    assert_eq!(a.ip(), PeerIp::V4(0x0A000001));
    assert_eq!(a.port(), 5683);
    assert_eq!(a.flowinfo, 0);
    let b = PeerAddr::v6(1, 5683, 2, 3);
    assert_eq!(b.ip(), PeerIp::V6(1));
    assert_eq!((b.flowinfo, b.scope_id), (2, 3));
    assert_eq!(Key::new(a, 7), Key(a, 7));
    assert_ne!(Key::new(a, 7), Key::new(b, 7));
}

#[test]
fn builder_presets() {
    let ping = MessageBuilder::ping(7).build();
    assert!(ping.is_ping());
    assert_eq!(ping.as_bytes().unwrap(), vec![0x40, 0x00, 0x00, 0x07]);
    let reset = MessageBuilder::reset(0x0102).build();
    assert!(reset.is_reset());
    assert_eq!(reset.as_bytes().unwrap(), vec![0x70, 0x00, 0x01, 0x02]);
    let ack = MessageBuilder::empty().acknowledgement().message_id(9).build();
    assert_eq!(ack.as_bytes().unwrap(), vec![0x60, 0x00, 0x00, 0x09]);
    let get = MessageBuilder::request().confirmable().message_id(1).build();
    assert!(get.is_request());
    assert_eq!(get.as_bytes().unwrap(), vec![0x40, 0x01, 0x00, 0x01]);
    let content = MessageBuilder::response().non_confirmable().message_id(1).build();
    assert!(content.is_response());
    assert_eq!(content.as_bytes().unwrap(), vec![0x50, 0x45, 0x00, 0x01]);
}

#[test]
fn builder_parts() {
    let mut opts = Opts::new();
    opts.push_raw(11, b"x");
    let post = MessageBuilder::request()
        .method(Method::Post)
        .token(Token::new(&[1, 2]))
        .options(opts)
        .payload(vec![9])
        .message_id(0x0304)
        .non_confirmable()
        .build();
    assert_eq!(post.header().tkl, 2);
    assert_eq!(post.header().version, 1);
    assert_eq!(post.as_bytes().unwrap(), vec![0x52, 0x02, 0x03, 0x04, 1, 2, 0xB1, b'x', 0xFF, 9]);
    let created = MessageBuilder::response()
        .response_code(ResponseCode::Success(SuccessCode::Created))
        .acknowledgement()
        .message_id(5)
        .token(Token::new(&[7]))
        .build();
    assert!(matches!(created.kind(), MessageKind::Response(_)));
    assert_eq!(created.as_bytes().unwrap(), vec![0x61, 0x41, 0x00, 0x05, 7]);
}

#[test]
fn response_to_message() {
    let mut res = Response::with_code(PeerAddr::v4(1, 2), ResponseCode::ClientError(ClientErrorCode::NotFound));
    assert_eq!(res.payload(), None);
    assert_eq!(res.options().len(), 0);
    res.set_payload(vec![1, 2]);
    assert_eq!(res.payload(), Some(&[1u8, 2][..]));
    let mut opts = Opts::new();
    opts.push_raw(12, &[50]);
    res.set_options(opts);
    res.set_code(ResponseCode::Success(SuccessCode::Valid));
    assert_eq!(res.code(), &ResponseCode::Success(SuccessCode::Valid));
    let msg = res.serialize().confirmable().message_id(3).token(Token::new(&[8])).build();
    assert_eq!(msg.as_bytes().unwrap(), vec![0x41, 0x43, 0x00, 0x03, 8, 0xC1, 50, 0xFF, 1, 2]);
    let copy = res.clone();
    assert_eq!(copy.payload(), res.payload());
    assert_eq!(copy.options(), res.options());
    assert!(matches!(Carry::from(res), Carry::Piggyback(_)));
}

#[test]
fn transmission_timer() {
    let mut t = Transmition::with_delay(1000, 2500);
    assert_eq!(t, Transmition { deadline: 3500, retr: 0 });
    assert_eq!(t.due(3499), Retry::Wait);
    assert_eq!(t.poll_retry(3499), Ok(Async::NotReady));
    assert_eq!(t.due(3500), Retry::Resend);
    let mut now = 3500;
    for (retr, wait) in [(1u32, 4000u64), (2, 8000), (3, 16000), (4, 32000)] {
        assert_eq!(t.poll_retry(now), Ok(Async::Ready));
        assert_eq!(t, Transmition { deadline: now + wait, retr });
        assert_eq!(t.poll_retry(now + wait - 1), Ok(Async::NotReady));
        now += wait;
    }
    assert_eq!(t.due(now), Retry::GiveUp);
    assert_eq!(t.poll_retry(now), Err(()));
    assert_eq!(t, Transmition { deadline: now, retr: 4 });
    let t = Transmition::with_delay(u64::MAX - 5, 2000);
    assert_eq!(t.deadline, u64::MAX);
    for _ in 0..100 {
        let t = Transmition::new(10);
        assert_eq!(t.retr, 0);
        assert!(2010 <= t.deadline && t.deadline < 3010);
    }
}

#[test]
fn outbox_is_bounded() {
    let mut outbox = Outbox::new(2);
    let dest = PeerAddr::v4(1, 2);
    assert!(!outbox.is_full());
    outbox.try_send(ToSend(Message::empty(MessageType::Reset, 1), dest)).unwrap();
    outbox.try_send(ToSend(Message::empty(MessageType::Reset, 2), dest)).unwrap();
    assert!(outbox.is_full());
    assert_eq!(outbox.len(), 2);
    let err = outbox.try_send(ToSend(Message::empty(MessageType::Reset, 3), dest)).unwrap_err();
    assert!(matches!(err.kind(), ErrorKind::BrokenChannel(reason) if reason == "server tx"));
    let items = outbox.drain();
    assert_eq!(items.len(), 2);
    assert_eq!(items[0].0.header().message_id, 1);
    assert_eq!(items[1].0.header().message_id, 2);
    assert_eq!(outbox.len(), 0);
    assert!(Outbox::new(0).is_full());
}

#[test]
fn texts_of_messages() {
    assert_eq!(
        Message::empty(MessageType::Reset, 0x12).to_string(),
        "-------- EMPTY --------\nHeader: (T=RST, Code=0.00, MID=0x12)"
    );
    let get = Message::from_bytes(&[0x42, 0x01, 0x00, 0x01, 0xCA, 0xFE, 0xB1, b'a', 0x02, b'b', b'c', 0xFF, 1, 2, 3]).unwrap();
    assert_eq!(
        get.to_string(),
        "-------- REQUEST --------\nHeader: GET (T=CON, Code=0.01, MID=0x1)\nToken: 0xcafe\nPayload: 3 bytes\nURI-PATH: /a/bc"
    );
    let content = Message::from_bytes(&[0x60, 0x45, 0xAB, 0xCD]).unwrap();
    assert_eq!(
        content.to_string(),
        "-------- RESPONSE --------\nHeader: 2.05 Content (T=ACK, Code=2.05, MID=0xabcd)\nToken: NULL"
    );
    let class_three = Message::from_bytes(&[0x50, 0x61, 0x00, 0x00]).unwrap();
    assert_eq!(
        class_three.to_string(),
        "-------- RESPONSE --------\nHeader: 3.01 (T=NON, Code=3.01, MID=0x0)\nToken: NULL"
    );
    let reserved = Message::from_bytes(&[0x50, 0xE1, 0x00, 0x00]).unwrap();
    assert_eq!(
        reserved.to_string(),
        "-------- RESERVED --------\nHeader: 7.01 (T=NON, Code=7.01, MID=0x0)\nToken: NULL"
    );
    // a path that is no text is left out
    let odd = Message::from_bytes(&[0x40, 0x02, 0x00, 0x01, 0xB2, 0xC3, 0x28]).unwrap();
    assert_eq!(
        odd.to_string(),
        "-------- REQUEST --------\nHeader: POST (T=CON, Code=0.02, MID=0x1)\nToken: NULL"
    );
}
