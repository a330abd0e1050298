use coap::codec::{CoapCodec, ParsedMsg};
use coap::error::ErrorKind;
use coap::exchange::{Event, Key, State, ToSend};
use coap::message::code::{ClientErrorCode, ResponseCode, ServerErrorCode, SuccessCode};
use coap::message::header::MessageType;
use coap::message::message::Message;
use coap::params::{ACK_TIMEOUT, ACK_TIMEOUT_MAX, EXCHANGE_LIFETIME};
use coap::peer::PeerAddr;
use coap::reliability::Reliablity;
use coap::request::Request;
use coap::response::{Carry, Response};
use coap::server::Server;

const GET_HELLO: [u8; 10] = [0x40, 0x01, 0x00, 0x01, 0xB5, 0x68, 0x65, 0x6C, 0x6C, 0x6F];

fn peer() -> PeerAddr {
    PeerAddr::v4(0x7F00_0001, 40000)
}

fn parse(bytes: &[u8]) -> ParsedMsg {
    let mut buf = bytes.to_vec();
    CoapCodec.decode(&mut buf).unwrap().unwrap()
}

fn incoming(server: &mut Server, bytes: &[u8], now: u64) -> Option<(Request, Response)> {
    server.poll_incoming(parse(bytes), peer(), now).unwrap()
}

fn sent(server: &mut Server) -> Vec<Vec<u8>> {
    let mut out = Vec::new();
    for ToSend(msg, dest) in server.poll_outgoing() {
        assert_eq!(dest, peer());
        out.push(msg.as_bytes().unwrap());
    }
    out
}

/// The handler of the scenarios: 2.05 Content with the payload "hello".
fn answer(res: &mut Response) {
    res.set_payload(b"hello".to_vec());
}

#[test]
fn piggyback_get() {
    let mut server = Server::new();
    let (req, mut res) = incoming(&mut server, &GET_HELLO, 0).unwrap();
    assert_eq!(req.message_id(), 1);
    assert_eq!(req.source(), peer());
    assert_eq!(req.reliablity(), Reliablity::Confirmable);
    assert_eq!(req.options().value_at(0), b"hello");
    assert_eq!(res.code(), &ResponseCode::Success(SuccessCode::Content));
    assert_eq!(res.dest(), &peer());
    assert_eq!(res.payload(), None);
    assert!(sent(&mut server).is_empty());
    answer(&mut res);
    let key = Key::from_request(&req);
    server.deliver_with(key, Event::Carry(Carry::Piggyback(res)), 5, 2500).unwrap();
    let out = sent(&mut server);
    assert_eq!(out, vec![vec![0x60, 0x45, 0x00, 0x01, 0xFF, b'h', b'e', b'l', b'l', b'o']]);
    assert_eq!(server.len(), 1);
}

#[test]
fn piggyback_carries_token_and_code() {
    let mut server = Server::new();
    let bytes = [0x52, 0x02, 0xAB, 0xCD, 0x11, 0x22];
    let (req, mut res) = incoming(&mut server, &bytes, 0).unwrap();
    assert_eq!(req.reliablity(), Reliablity::NonConfirmable);
    res.set_code(ResponseCode::ClientError(ClientErrorCode::NotFound));
    server.deliver(Key::from_request(&req), Event::Carry(Carry::Piggyback(res)), 1).unwrap();
    assert_eq!(sent(&mut server), vec![vec![0x62, 0x84, 0xAB, 0xCD, 0x11, 0x22]]);
}

#[test]
fn ping_pong() {
    let mut server = Server::new();
    assert!(incoming(&mut server, &[0x40, 0x00, 0x12, 0x34], 0).is_none());
    assert_eq!(sent(&mut server), vec![vec![0x70, 0x00, 0x12, 0x34]]);
    assert_eq!(server.len(), 0);
}

#[test]
fn malformed_is_reset() {
    let mut server = Server::new();
    assert!(incoming(&mut server, &[0x40, 0x00, 0x00, 0x05, 0x01], 0).is_none());
    assert_eq!(sent(&mut server), vec![vec![0x70, 0x00, 0x00, 0x05]]);
}

#[test]
fn invalid_is_dropped() {
    let mut server = Server::new();
    assert!(incoming(&mut server, &[0x80, 0x01, 0x00, 0x05], 0).is_none());
    assert!(sent(&mut server).is_empty());
}

#[test]
fn reserved_is_dropped() {
    let mut server = Server::new();
    assert!(incoming(&mut server, &[0x40, 0x20, 0x00, 0x05], 0).is_none());
    assert!(sent(&mut server).is_empty());
    assert_eq!(server.len(), 0);
}

#[test]
fn stray_messages() {
    let mut server = Server::new();
    // an empty non-confirmable message is answered with a reset
    assert!(incoming(&mut server, &[0x50, 0x00, 0x00, 0x09], 0).is_none());
    assert_eq!(sent(&mut server), vec![vec![0x70, 0x00, 0x00, 0x09]]);
    // an acknowledgement, a reset and a response that answer nothing are dropped
    assert!(incoming(&mut server, &[0x60, 0x00, 0x00, 0x09], 0).is_none());
    assert!(incoming(&mut server, &[0x70, 0x00, 0x00, 0x09], 0).is_none());
    assert!(incoming(&mut server, &[0x40, 0x45, 0x00, 0x09], 0).is_none());
    assert!(incoming(&mut server, &[0x60, 0x45, 0x00, 0x09], 0).is_none());
    assert!(sent(&mut server).is_empty());
}

#[test]
fn request_with_acknowledgement_type_is_reset() {
    let mut server = Server::new();
    assert!(incoming(&mut server, &[0x60, 0x01, 0x00, 0x09], 0).is_none());
    assert_eq!(sent(&mut server), vec![vec![0x70, 0x00, 0x00, 0x09]]);
    assert_eq!(server.len(), 0);
}

#[test]
fn retransmit_dedup() {
    let mut server = Server::new();
    let (req, mut res) = incoming(&mut server, &GET_HELLO, 0).unwrap();
    // the request comes again before the handler has answered: nothing happens
    assert!(incoming(&mut server, &GET_HELLO, 50).is_none());
    assert!(sent(&mut server).is_empty());
    assert_eq!(server.len(), 1);
    answer(&mut res);
    server.deliver(Key::from_request(&req), Event::Carry(Carry::Piggyback(res)), 60).unwrap();
    let first = sent(&mut server);
    assert_eq!(first.len(), 1);
    // and again 100 ms later: the same acknowledgement, no second exchange
    assert!(incoming(&mut server, &GET_HELLO, 160).is_none());
    let second = sent(&mut server);
    assert_eq!(first, second);
    assert_eq!(server.len(), 1);
    // the exchange is kept for the lifetime of an exchange, then forgotten
    server.poll_exchanges(60 + EXCHANGE_LIFETIME - 1).unwrap();
    assert_eq!(server.len(), 1);
    server.poll_exchanges(60 + EXCHANGE_LIFETIME).unwrap();
    assert_eq!(server.len(), 0);
    // after that the request is new again
    assert!(incoming(&mut server, &GET_HELLO, 400_000).is_some());
}

#[test]
fn same_message_id_from_another_peer_is_another_request() {
    let mut server = Server::new();
    assert!(incoming(&mut server, &GET_HELLO, 0).is_some());
    let other = PeerAddr::v4(0x7F00_0001, 40001);
    assert!(server.poll_incoming(parse(&GET_HELLO), other, 0).unwrap().is_some());
    assert_eq!(server.len(), 2);
}

fn separate_con(server: &mut Server, jitter: u64) -> Key {
    let (req, mut res) = incoming(server, &[0x42, 0x01, 0x00, 0x01, 0xCA, 0xFE], 0).unwrap();
    let key = Key::from_request(&req);
    server.deliver(key, Event::Carry(Carry::Seperate(Reliablity::Confirmable)), 0).unwrap();
    assert_eq!(sent(server), vec![vec![0x60, 0x00, 0x00, 0x01]]);
    answer(&mut res);
    server.deliver_with(key, Event::Finished(res), 3000, jitter).unwrap();
    key
}

const SEPARATE: [u8; 12] = [0x42, 0x45, 0x00, 0x00, 0xCA, 0xFE, 0xFF, b'h', b'e', b'l', b'l', b'o'];

#[test]
fn separate_con_schedule() {
    let mut server = Server::new();
    let key = separate_con(&mut server, 2000);
    assert_eq!(sent(&mut server), vec![SEPARATE.to_vec()]);
    let mut emissions = Vec::new();
    let mut now = 3000;
    while now <= 3000 + 70_000 {
        server.poll_exchanges(now).unwrap();
        for bytes in sent(&mut server) {
            assert_eq!(bytes, SEPARATE.to_vec());
            emissions.push(now - 3000);
        }
        now += 500;
    }
    assert_eq!(emissions, vec![2000, 6000, 14000, 30000]);
    // given up 32 s after the last retransmission
    assert!(server.find(key).is_none());
    assert_eq!(server.len(), 0);
}

#[test]
fn separate_con_times_out_on_time() {
    let mut server = Server::new();
    let key = separate_con(&mut server, 2999);
    sent(&mut server);
    for (at, again) in [(5998, false), (5999, true), (9998, false), (9999, true), (17999, true), (33999, true)] {
        server.poll_exchanges(at).unwrap();
        assert_eq!(sent(&mut server).len(), if again { 1 } else { 0 });
    }
    server.poll_exchanges(65998).unwrap();
    let at = server.find(key).unwrap();
    assert!(matches!(server.exchange(at).unwrap().state(), State::Responding(t, _, _) if t.retr == 4 && t.deadline == 65999));
    server.poll_exchanges(65999).unwrap();
    assert!(server.find(key).is_none());
    assert!(sent(&mut server).is_empty());
}

#[test]
fn separate_con_acknowledged() {
    let mut server = Server::new();
    let key = separate_con(&mut server, 2000);
    sent(&mut server);
    server.poll_exchanges(5000).unwrap();
    assert_eq!(sent(&mut server).len(), 1);
    // the acknowledgement has the message id of the separate response
    assert!(incoming(&mut server, &[0x60, 0x00, 0x00, 0x00], 5100).is_none());
    let at = server.find(key).unwrap();
    assert!(matches!(server.exchange(at).unwrap().state(), State::Done(_, _, until) if *until == 5100 + EXCHANGE_LIFETIME));
    server.poll_exchanges(60_000).unwrap();
    assert!(sent(&mut server).is_empty());
    // the request coming again gets the separate response again
    assert!(incoming(&mut server, &[0x42, 0x01, 0x00, 0x01, 0xCA, 0xFE], 60_000).is_none());
    assert_eq!(sent(&mut server), vec![SEPARATE.to_vec()]);
}

#[test]
fn reset_cancels() {
    let mut server = Server::new();
    let key = separate_con(&mut server, 2000);
    sent(&mut server);
    server.poll_exchanges(5000).unwrap();
    assert_eq!(sent(&mut server).len(), 1);
    // a reset with another message id changes nothing
    assert!(incoming(&mut server, &[0x70, 0x00, 0x00, 0x07], 5050).is_none());
    let at = server.find(key).unwrap();
    assert!(matches!(server.exchange(at).unwrap().state(), State::Responding(_, _, _)));
    // the reset has the message id of the separate response
    assert!(incoming(&mut server, &[0x70, 0x00, 0x00, 0x00], 5100).is_none());
    let at = server.find(key).unwrap();
    assert!(matches!(server.exchange(at).unwrap().state(), State::Cancelled));
    assert!(sent(&mut server).is_empty());
    server.poll_exchanges(9000).unwrap();
    assert!(sent(&mut server).is_empty());
    assert_eq!(server.len(), 0);
    server.poll_exchanges(40_000).unwrap();
    assert!(sent(&mut server).is_empty());
}

#[test]
fn reset_from_another_peer_cancels_nothing() {
    let mut server = Server::new();
    let key = separate_con(&mut server, 2000);
    let other = PeerAddr::v4(0x7F00_0002, 40000);
    server.poll_incoming(parse(&[0x70, 0x00, 0x00, 0x00]), other, 5100).unwrap();
    let at = server.find(key).unwrap();
    assert!(matches!(server.exchange(at).unwrap().state(), State::Responding(_, _, _)));
}

#[test]
fn handler_result_after_reset_is_discarded() {
    let mut server = Server::new();
    let (req, res) = incoming(&mut server, &GET_HELLO, 0).unwrap();
    assert!(incoming(&mut server, &[0x70, 0x00, 0x00, 0x01], 10).is_none());
    server.deliver(Key::from_request(&req), Event::Carry(Carry::Piggyback(res)), 20).unwrap();
    assert!(sent(&mut server).is_empty());
    server.poll_exchanges(30).unwrap();
    assert_eq!(server.len(), 0);
    // and a result for an exchange that is gone is dropped
    let res = Response::with_code(peer(), ResponseCode::Success(SuccessCode::Content));
    server.deliver(Key::from_request(&req), Event::Finished(res), 40).unwrap();
    assert!(sent(&mut server).is_empty());
}

#[test]
fn separate_non() {
    let mut server = Server::new();
    // a non-confirmable request gets no empty acknowledgement
    let (req, mut res) = incoming(&mut server, &[0x51, 0x01, 0x00, 0x07, 0x99], 0).unwrap();
    let key = Key::from_request(&req);
    server.deliver(key, Event::Carry(Carry::Seperate(Reliablity::NonConfirmable)), 0).unwrap();
    assert!(sent(&mut server).is_empty());
    res.set_code(ResponseCode::Success(SuccessCode::Changed));
    server.deliver(key, Event::Finished(res), 100).unwrap();
    assert_eq!(sent(&mut server), vec![vec![0x51, 0x44, 0x00, 0x00, 0x99]]);
    server.poll_exchanges(50_000).unwrap();
    assert!(sent(&mut server).is_empty());
    assert_eq!(server.len(), 1);
}

#[test]
fn separate_responses_count_message_ids_per_ip() {
    let mut server = Server::new();
    for (mid, expected) in [(1u8, 0u8), (2, 1), (3, 2)] {
        let (req, res) = incoming(&mut server, &[0x50, 0x01, 0x00, mid], 0).unwrap();
        let key = Key::from_request(&req);
        server.deliver(key, Event::Carry(Carry::Seperate(Reliablity::NonConfirmable)), 0).unwrap();
        server.deliver(key, Event::Finished(res), 0).unwrap();
        assert_eq!(sent(&mut server), vec![vec![0x50, 0x45, 0x00, expected]]);
    }
    // another port of the same address shares the counter, another address does not
    let same_ip = PeerAddr::v4(0x7F00_0001, 5);
    let other_ip = PeerAddr::v4(0x7F00_0009, 40000);
    for (src, expected) in [(same_ip, 3u8), (other_ip, 0)] {
        let (req, res) = server.poll_incoming(parse(&[0x50, 0x01, 0x00, 0x01]), src, 0).unwrap().unwrap();
        let key = Key::from_request(&req);
        server.deliver(key, Event::Carry(Carry::Seperate(Reliablity::NonConfirmable)), 0).unwrap();
        server.deliver(key, Event::Finished(res), 0).unwrap();
        let out = server.poll_outgoing();
        assert_eq!(out.len(), 1);
        assert_eq!(out[0].1, src);
        assert_eq!(out[0].0.as_bytes().unwrap(), vec![0x50, 0x45, 0x00, expected]);
    }
}

#[test]
fn first_wait_is_drawn_from_the_range() {
    for _ in 0..200 {
        let mut server = Server::new();
        let (req, res) = incoming(&mut server, &GET_HELLO, 0).unwrap();
        let key = Key::from_request(&req);
        server.deliver(key, Event::Carry(Carry::Seperate(Reliablity::Confirmable)), 0).unwrap();
        server.deliver(key, Event::Finished(res), 1000).unwrap();
        let at = server.find(key).unwrap();
        match server.exchange(at).unwrap().state() {
            State::Responding(t, _, _) => {
                assert_eq!(t.retr, 0);
                assert!(1000 + ACK_TIMEOUT <= t.deadline && t.deadline < 1000 + ACK_TIMEOUT_MAX);
            }
            other => panic!("unexpected {:?}", other),
        }
    }
}

#[test]
fn handler_failure() {
    let mut server = Server::new();
    // before the request was acknowledged: 5.00 in the acknowledgement
    let (req, _) = incoming(&mut server, &[0x41, 0x01, 0x00, 0x01, 0x77], 0).unwrap();
    server.deliver(Key::from_request(&req), Event::Failed, 10).unwrap();
    assert_eq!(sent(&mut server), vec![vec![0x61, 0xA0, 0x00, 0x01, 0x77]]);
    // after that: the exchange ends, the server goes on
    let (req, _) = incoming(&mut server, &[0x41, 0x01, 0x00, 0x02, 0x77], 0).unwrap();
    let key = Key::from_request(&req);
    server.deliver(key, Event::Carry(Carry::Seperate(Reliablity::Confirmable)), 0).unwrap();
    sent(&mut server);
    server.deliver(key, Event::Failed, 10).unwrap();
    assert!(sent(&mut server).is_empty());
    let at = server.find(key).unwrap();
    assert!(matches!(server.exchange(at).unwrap().state(), State::Failed));
    server.poll_exchanges(20).unwrap();
    assert!(server.find(key).is_none());
    let _ = ServerErrorCode::InternalServerError;
}

#[test]
fn unknown_options() {
    let mut server = Server::new();
    // option 9 is critical and unknown: 4.02 Bad Option, no handler
    assert!(incoming(&mut server, &[0x41, 0x01, 0x00, 0x01, 0x55, 0x91, 0x00], 0).is_none());
    assert_eq!(sent(&mut server), vec![vec![0x61, 0x82, 0x00, 0x01, 0x55]]);
    assert_eq!(server.len(), 1);
    // coming again it gets the same answer
    assert!(incoming(&mut server, &[0x41, 0x01, 0x00, 0x01, 0x55, 0x91, 0x00], 5).is_none());
    assert_eq!(sent(&mut server), vec![vec![0x61, 0x82, 0x00, 0x01, 0x55]]);
    assert_eq!(server.len(), 1);
    // option 10 is elective and unknown: the request goes to the handler with it
    let (req, _) = incoming(&mut server, &[0x41, 0x01, 0x00, 0x02, 0x55, 0xA1, 0x07], 0).unwrap();
    assert_eq!(req.options().number_at(0), 10);
    assert_eq!(req.options().value_at(0), &[7]);
    assert!(sent(&mut server).is_empty());
}

#[test]
fn full_outbox_breaks_the_channel() {
    let mut server = Server::with_capacity(1);
    assert!(incoming(&mut server, &[0x40, 0x01, 0x00, 0x01], 0).is_some());
    assert!(incoming(&mut server, &[0x40, 0x00, 0x00, 0x02], 0).is_none());
    // the outbox is full now
    let err = server.poll_incoming(parse(&[0x40, 0x00, 0x00, 0x03]), peer(), 0).unwrap_err();
    assert!(matches!(err.kind(), ErrorKind::BrokenChannel(reason) if reason == "server tx"));
    let res = Response::with_code(peer(), ResponseCode::Success(SuccessCode::Content));
    let key = Key::new(peer(), 1);
    let err = server.deliver(key, Event::Carry(Carry::Piggyback(res)), 0).unwrap_err();
    assert!(matches!(err.kind(), ErrorKind::BrokenChannel(_)));
    let at = server.find(key).unwrap();
    assert!(matches!(server.exchange(at).unwrap().state(), State::Handling));
    assert_eq!(sent(&mut server), vec![vec![0x70, 0x00, 0x00, 0x02]]);
    // with room again the answer goes out
    let res = Response::with_code(peer(), ResponseCode::Success(SuccessCode::Content));
    server.deliver(key, Event::Carry(Carry::Piggyback(res)), 0).unwrap();
    assert_eq!(sent(&mut server), vec![vec![0x60, 0x45, 0x00, 0x01]]);
}

#[test]
fn full_outbox_stops_the_sweep() {
    let mut server = Server::with_capacity(1);
    let mut keys = Vec::new();
    for mid in [1u8, 2] {
        let (req, res) = incoming(&mut server, &[0x50, 0x01, 0x00, mid], 0).unwrap();
        let key = Key::from_request(&req);
        server.deliver(key, Event::Carry(Carry::Seperate(Reliablity::Confirmable)), 0).unwrap();
        server.deliver_with(key, Event::Finished(res), 0, 2000).unwrap();
        assert_eq!(sent(&mut server).len(), 1);
        keys.push(key);
    }
    let err = server.poll_exchanges(2000).unwrap_err();
    assert!(matches!(err.kind(), ErrorKind::BrokenChannel(_)));
    assert_eq!(sent(&mut server).len(), 1);
    let at = server.find(keys[0]).unwrap();
    assert!(matches!(server.exchange(at).unwrap().state(), State::Responding(t, _, _) if t.retr == 1));
    let at = server.find(keys[1]).unwrap();
    assert!(matches!(server.exchange(at).unwrap().state(), State::Responding(t, _, _) if t.retr == 0));
    server.poll_exchanges(2000).unwrap();
    assert_eq!(sent(&mut server).len(), 1);
}

#[test]
fn message_from_request_needs_a_method() {
    let msg = Message::from_bytes(&[0x40, 0x01, 0x00, 0x01]).unwrap();
    assert!(Request::from_message(peer(), msg).is_some());
    let msg = Message::from_bytes(&[0x40, 0x45, 0x00, 0x01]).unwrap();
    assert!(Request::from_message(peer(), msg).is_none());
    let msg = Message::from_bytes(&[0x70, 0x01, 0x00, 0x01]).unwrap();
    assert!(Request::from_message(peer(), msg).is_none());
    let msg = Message::empty(MessageType::Confirmable, 1);
    assert!(Request::from_message(peer(), msg).is_none());
}

#[test]
fn shutdown_cancels_what_is_under_way() {
    let mut server = Server::new();
    let a = incoming(&mut server, &[0x40, 0x01, 0x00, 0x01], 0).unwrap();
    let b = incoming(&mut server, &[0x40, 0x01, 0x00, 0x02], 0).unwrap();
    server.deliver(Key::from_request(&b.0), Event::Carry(Carry::Piggyback(b.1)), 0).unwrap();
    server.shutdown();
    let at = server.find(Key::from_request(&a.0)).unwrap();
    assert!(matches!(server.exchange(at).unwrap().state(), State::Cancelled));
    let at = server.find(Key::from_request(&b.0)).unwrap();
    assert!(matches!(server.exchange(at).unwrap().state(), State::Done(_, _, _)));
    assert_eq!(sent(&mut server).len(), 1);
    server.deliver(Key::from_request(&a.0), Event::Carry(Carry::Piggyback(a.1)), 0).unwrap();
    assert!(sent(&mut server).is_empty());
    server.poll_exchanges(1).unwrap();
    assert_eq!(server.len(), 1);
    assert!(server.exchange(5).is_none());
}
