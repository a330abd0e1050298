//! The codec between datagrams and messages: one datagram is one message.

use crate::error::{Error, ErrorKindView as ServerErrorView};
use crate::message::error::{
    ErrorKind, ErrorKindView, FormatError, FormatErrorView, MessageErrorView,
};
use crate::message::header::Header;
use crate::message::message::{Message, MessageView};
use crate::params::VERSION;
use vstd::prelude::*;

verus! {

/// What a datagram turned out to be.
#[derive(Debug)]
pub enum ParsedMsg {
    /// A message.
    Valid(Message),
    /// No message, but its header could be read, so that it can be answered with a reset.
    Reject(Header, FormatError),
    /// Nothing that could be answered.
    Invalid(FormatError),
}

/// A parsed datagram as a mathematical value.
pub enum ParsedMsgView {
    Valid(MessageView),
    Reject(Header, FormatErrorView),
    Invalid(FormatErrorView),
}

impl View for ParsedMsg {
    type V = ParsedMsgView;

    open spec fn view(&self) -> ParsedMsgView {
        match *self {
            ParsedMsg::Valid(message) => ParsedMsgView::Valid(message@),
            ParsedMsg::Reject(header, fault) => ParsedMsgView::Reject(header, fault@),
            ParsedMsg::Invalid(fault) => ParsedMsgView::Invalid(fault@),
        }
    }
}

/// What decoding `bytes` gives. Fewer bytes than a header give nothing yet;
/// a fault in a message whose header was read rejects the message with the
/// header; a fault before that makes the datagram invalid.
pub open spec fn spec_decode(bytes: Seq<u8>) -> Option<ParsedMsgView> {
    match MessageView::parse(bytes) {
        Ok(message) => Some(ParsedMsgView::Valid(message)),
        Err(e) => match e.kind {
            ErrorKindView::PacketTooSmall(_) => None,
            ErrorKindView::MessageFormat(fault) => match e.header {
                Some(header) => Some(ParsedMsgView::Reject(header, fault)),
                None => Some(ParsedMsgView::Invalid(fault)),
            },
        },
    }
}

/// The view of an optional parsed datagram.
pub open spec fn parsed_view(parsed: Option<ParsedMsg>) -> Option<ParsedMsgView> {
    match parsed {
        Some(p) => Some(p@),
        None => None,
    }
}

/// The codec. It holds no state.
#[derive(Debug, Clone, Copy)]
pub struct CoapCodec;

impl CoapCodec {
    /// Decodes the datagram in `buf`. Where it gives something, the buffer
    /// is emptied; where more bytes are needed, the buffer stays as it is.
    /// It never fails.
    pub fn decode(&mut self, buf: &mut Vec<u8>) -> (r: Result<Option<ParsedMsg>, Error>)
        ensures
            r matches Ok(parsed) && parsed_view(parsed) == spec_decode(old(buf)@),
            final(buf)@ == if spec_decode(old(buf)@) is None {
                old(buf)@
            } else {
                Seq::<u8>::empty()
            },
    {
        match Message::from_bytes(buf.as_slice()) {
            Ok(message) => {
                buf.clear();
                Ok(Some(ParsedMsg::Valid(message)))
            },
            Err(e) => match e.kind() {
                ErrorKind::PacketTooSmall(_) => Ok(None),
                ErrorKind::MessageFormat(fault) => {
                    let parsed = match e.header() {
                        Some(header) => ParsedMsg::Reject(*header, fault.clone()),
                        None => ParsedMsg::Invalid(fault.clone()),
                    };
                    buf.clear();
                    Ok(Some(parsed))
                },
            },
        }
    }

    /// Appends the bytes of `msg` to `dst`, or fails and leaves `dst` as it is.
    pub fn encode(&mut self, msg: Message, dst: &mut Vec<u8>) -> (r: Result<(), Error>)
        ensures
            match r {
                Ok(_) => msg@.writable() && final(dst)@ == old(dst)@ + msg@.encode(),
                Err(e) => !msg@.writable() && final(dst)@ == old(dst)@ && e@
                    == ServerErrorView::Message(MessageErrorView::format(msg@.write_fault())),
            },
    {
        match msg.as_bytes() {
            Ok(mut bytes) => {
                dst.append(&mut bytes);
                Ok(())
            },
            Err(e) => Err(Error::message(e)),
        }
    }
}

/// A well-formed message that is encoded and decoded comes back as it was,
/// with its options in their order.
pub proof fn lemma_decode_encoded(message: MessageView)
    requires
        message.well_formed(),
    ensures
        message.writable(),
        spec_decode(message.encode()) == Some(ParsedMsgView::Valid(message)),
{
    crate::message::roundtrip::lemma_written_then_read(message);
}

/// A message that was decoded and is encoded again gives the datagram back:
/// its options stand in ascending order of their numbers, those of one
/// number in the order in which they came, known or not.
pub proof fn lemma_encode_decoded(bytes: Seq<u8>)
    requires
        spec_decode(bytes) matches Some(ParsedMsgView::Valid(_)),
    ensures
        ({
            let message = spec_decode(bytes)->0->Valid_0;
            &&& message.well_formed()
            &&& message.writable()
            &&& message.encode() == bytes
            &&& message.kind.body() matches Some(body) ==> crate::message::option::ascending(
                body.options,
            )
        }),
{
    crate::message::roundtrip::lemma_read_then_written(bytes);
}

/// With four bytes or more and version 1, decoding never loses the header:
/// it gives a message with the header that the bytes spell, or rejects the
/// datagram with that header.
pub proof fn lemma_decode_keeps_header(bytes: Seq<u8>)
    requires
        bytes.len() >= 4,
        bytes[0] >> 6 == VERSION,
    ensures
        match spec_decode(bytes) {
            Some(ParsedMsgView::Valid(message)) => message.header == Header::spec_parse(bytes),
            Some(ParsedMsgView::Reject(header, _)) => header == Header::spec_parse(bytes),
            _ => false,
        },
{
}

/// A datagram with code 0.00 that has bytes behind the header, or a token
/// length other than zero, is rejected as an invalid empty message, with its
/// header. (A token length above eight is reserved and rejected as such.)
pub proof fn lemma_empty_is_strict(bytes: Seq<u8>)
    requires
        bytes.len() >= 4,
        bytes[0] >> 6 == VERSION,
        bytes[0] & 0x0F <= 8,
        bytes[1] == 0,
        bytes.len() > 4 || bytes[0] & 0x0F > 0,
    ensures
        spec_decode(bytes) matches Some(ParsedMsgView::Reject(header, fault)) && header
            == Header::spec_parse(bytes) && fault is InvalidEmptyCode,
{
    assert(0u8 >> 5 == 0 && 0u8 & 0x1F == 0) by (bit_vector);
}

} // verus!
