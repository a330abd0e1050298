//! A whole message: its header and what kind of message the code makes it.

use super::body::{Body, BodyView};
use super::code::{Method, RawCode, ResponseCode};
use super::error::{
    ErrorKind, ErrorKindView, FormatError, FormatErrorView, MessageError, MessageErrorView,
};
use super::header::{Header, MessageType};
use super::option::{first_refused, has_number, values_of, Opt, Opts, RawOption};
use super::registry::UriPath;
use super::token::Token;
use crate::params::HEADER_SIZE;
use crate::text::{decimal, spec_decimal};
use vstd::prelude::*;
use vstd::slice::slice_subrange;
use vstd::string::StringExecFns;
use vstd::utf8::{decode_utf8, encode_utf8_decode_utf8};

verus! {

/// The four kinds of message. All but the empty one have a body.
#[derive(Debug, PartialEq, Eq)]
pub enum MessageKind {
    Empty,
    Request(Body),
    Response(Body),
    Reserved(Body),
}

/// A kind of message as a mathematical value.
pub enum MessageKindView {
    Empty,
    Request(BodyView),
    Response(BodyView),
    Reserved(BodyView),
}

impl View for MessageKind {
    type V = MessageKindView;

    open spec fn view(&self) -> MessageKindView {
        match *self {
            MessageKind::Empty => MessageKindView::Empty,
            MessageKind::Request(body) => MessageKindView::Request(body@),
            MessageKind::Response(body) => MessageKindView::Response(body@),
            MessageKind::Reserved(body) => MessageKindView::Reserved(body@),
        }
    }
}

impl Clone for MessageKind {
    fn clone(&self) -> (kind: MessageKind)
        ensures
            kind@ == self@,
    {
        match self {
            MessageKind::Empty => MessageKind::Empty,
            MessageKind::Request(body) => MessageKind::Request(body.clone()),
            MessageKind::Response(body) => MessageKind::Response(body.clone()),
            MessageKind::Reserved(body) => MessageKind::Reserved(body.clone()),
        }
    }
}

impl MessageKindView {
    /// The body, where the kind has one.
    pub open spec fn body(self) -> Option<BodyView> {
        match self {
            MessageKindView::Empty => None,
            MessageKindView::Request(body) => Some(body),
            MessageKindView::Response(body) => Some(body),
            MessageKindView::Reserved(body) => Some(body),
        }
    }

    /// The kind that a message with code `code` and body `body` has:
    /// class 0 is a request, classes 2 to 5 are responses, the rest is reserved.
    pub open spec fn of_code(code: RawCode, body: BodyView) -> MessageKindView {
        if code.0 == 0 {
            MessageKindView::Request(body)
        } else if 2 <= code.0 <= 5 {
            MessageKindView::Response(body)
        } else {
            MessageKindView::Reserved(body)
        }
    }
}

/// The reason given when an empty message has a token length other than zero.
pub open spec fn empty_with_token() -> Seq<char> {
    "token length MUST be 0"@
}

/// The reason given when bytes follow the header of an empty message.
pub open spec fn empty_with_bytes() -> Seq<char> {
    "bytes MUST NOT be present after message ID"@
}

/// The segments of a path, each behind a slash.
pub open spec fn path_text(segments: Seq<Seq<u8>>) -> Seq<char>
    decreases segments.len(),
{
    if segments.len() == 0 {
        Seq::empty()
    } else {
        path_text(segments.drop_last()) + "/"@ + decode_utf8(segments.last())
    }
}

/// The line that shows the path of a request, where its options hold
/// Uri-Path options that can all be read; nothing otherwise.
pub open spec fn path_line(options: Seq<RawOption>) -> Seq<char> {
    if has_number(options, UriPath::NUMBER) && first_refused::<UriPath>(
        options,
        UriPath::NUMBER,
    ) == options.len() {
        "\nURI-PATH: "@ + path_text(values_of(options, UriPath::NUMBER))
    } else {
        Seq::empty()
    }
}

/// The line that shows the size of a payload, where there is one.
pub open spec fn payload_line(payload: Option<Seq<u8>>) -> Seq<char> {
    match payload {
        Some(bytes) => "\nPayload: "@ + spec_decimal(bytes.len()) + " bytes"@,
        None => Seq::empty(),
    }
}

/// The name of a kind of message, in capitals.
pub open spec fn kind_text(kind: MessageKindView) -> Seq<char> {
    match kind {
        MessageKindView::Empty => "EMPTY"@,
        MessageKindView::Request(_) => "REQUEST"@,
        MessageKindView::Response(_) => "RESPONSE"@,
        MessageKindView::Reserved(_) => "RESERVED"@,
    }
}

/// The text of the code of a message: the method of a request and the
/// response code of a response where the code stands for one, the code
/// itself otherwise.
pub open spec fn code_text(kind: MessageKindView, code: RawCode) -> Seq<char> {
    match kind {
        MessageKindView::Request(_) => match Method::spec_from_raw_code(code) {
            Ok(method) => method.spec_text(),
            Err(_) => code.spec_text(),
        },
        MessageKindView::Response(_) => match ResponseCode::spec_from_raw_code(code) {
            Some(res_code) => res_code.spec_text(),
            None => code.spec_text(),
        },
        _ => code.spec_text(),
    }
}

/// The line that shows the path of a request, as `path_line` says.
fn path_of(options: &Opts) -> (line: String)
    ensures
        line@ == path_line(options@),
{
    match options.get::<UriPath>() {
        Ok(Some(segments)) => {
            let ghost values = values_of(options@, UriPath::NUMBER);
            let mut path = String::from_str("");
            let mut i: usize = 0;
            proof {
                reveal_strlit("");
                assert(values.subrange(0, 0) =~= Seq::<Seq<u8>>::empty());
                assert(path@ =~= path_text(values.subrange(0, 0)));
            }
            while i < segments.len()
                invariant
                    i <= segments@.len(),
                    segments@.len() == values.len(),
                    forall|k: int|
                        0 <= k < segments@.len() ==> (#[trigger] segments@[k]).stands_for(
                            values[k],
                        ),
                    path@ == path_text(values.subrange(0, i as int)),
                decreases segments@.len() - i,
            {
                path.append("/");
                path.append(segments[i].val());
                proof {
                    let done = values.subrange(0, i + 1);
                    assert(done.drop_last() =~= values.subrange(0, i as int));
                    assert(done.last() == values[i as int]);
                    assert(segments@[i as int].stands_for(values[i as int]));
                    encode_utf8_decode_utf8(segments@[i as int]@);
                    assert(path@ =~= path_text(done));
                }
                i += 1;
            }
            proof {
                assert(values.subrange(0, i as int) =~= values);
            }
            let mut line = String::from_str("\nURI-PATH: ");
            line.append(path.as_str());
            line
        },
        _ => {
            proof {
                reveal_strlit("");
            }
            let line = String::from_str("");
            assert(line@ =~= Seq::<char>::empty());
            line
        },
    }
}

/// A message.
#[derive(Debug, PartialEq, Eq)]
pub struct Message {
    header: Header,
    kind: MessageKind,
}

/// A message as a mathematical value.
pub struct MessageView {
    pub header: Header,
    pub kind: MessageKindView,
}

impl View for Message {
    type V = MessageView;

    closed spec fn view(&self) -> MessageView {
        MessageView { header: self.header, kind: self.kind@ }
    }
}

impl Clone for Message {
    fn clone(&self) -> (message: Message)
        ensures
            message@ == self@,
    {
        Message { header: self.header, kind: self.kind.clone() }
    }
}

impl MessageView {
    /// A message that can be written and read back: a well-formed header
    /// whose code fits the kind of the message and whose token length is the
    /// length of the token, and a well-formed body. An empty message has
    /// code 0.00 and no token.
    pub open spec fn well_formed(self) -> bool {
        &&& self.header.well_formed()
        &&& match self.kind {
            MessageKindView::Empty => self.header.code == RawCode(0, 0) && self.header.tkl == 0,
            MessageKindView::Request(body) => self.header.code.0 == 0 && self.header.code.1 != 0,
            MessageKindView::Response(body) => 2 <= self.header.code.0 <= 5,
            MessageKindView::Reserved(body) => self.header.code.0 == 1 || self.header.code.0
                > 5,
        }
        &&& self.kind.body() matches Some(body) ==> body.well_formed() && body.token.len()
            == self.header.tkl
    }

    /// The bytes of a message whose token length and option values can be
    /// written: the header, and the body if there is one.
    pub open spec fn encode(self) -> Seq<u8> {
        match self.kind.body() {
            None => self.header.spec_to_bytes(),
            Some(body) => self.header.spec_to_bytes() + body.encode(),
        }
    }

    /// The text that shows a message: a line with its kind, a line with
    /// its code and header, and for a message with a body a line with its
    /// token, one with the size of its payload, and one with its path.
    pub open spec fn text(self) -> Seq<char> {
        match self.kind.body() {
            None => "-------- EMPTY --------\nHeader: "@ + self.header.spec_text(),
            Some(body) => "-------- "@ + kind_text(self.kind) + " --------\nHeader: "@ + code_text(
                self.kind,
                self.header.code,
            ) + " "@ + self.header.spec_text() + "\nToken: "@ + Token::spec_text(body.token)
                + payload_line(body.payload) + path_line(body.options),
        }
    }

    /// The message can be written: the header's token length is at most
    /// eight and, where there is a body, every option value is short enough.
    pub open spec fn writable(self) -> bool {
        &&& self.header.tkl <= 8
        &&& self.kind.body() matches Some(body) ==> super::body::encodable(body.options)
    }

    /// The fault that writing a message that cannot be written reports.
    pub open spec fn write_fault(self) -> FormatErrorView {
        if self.header.tkl > 8 {
            FormatErrorView::InvalidTokenLength(self.header.tkl)
        } else {
            FormatErrorView::InvalidOptionLength
        }
    }

    /// What reading a message from `bytes` gives: the message, or the fault
    /// with the header where one was read.
    pub open spec fn parse(bytes: Seq<u8>) -> Result<MessageView, MessageErrorView> {
        if bytes.len() < HEADER_SIZE {
            Err(
                MessageErrorView {
                    kind: ErrorKindView::PacketTooSmall(bytes.len() as usize),
                    header: None,
                },
            )
        } else {
            let rest = bytes.subrange(HEADER_SIZE as int, bytes.len() as int);
            match Header::spec_from_bytes(bytes) {
                Err(e) => Err(e),
                Ok(header) => if header.code == RawCode(0, 0) {
                    if header.tkl != 0 {
                        Err(
                            MessageErrorView::format_in(
                                FormatErrorView::InvalidEmptyCode(empty_with_token()),
                                header,
                            ),
                        )
                    } else if rest.len() != 0 {
                        Err(
                            MessageErrorView::format_in(
                                FormatErrorView::InvalidEmptyCode(empty_with_bytes()),
                                header,
                            ),
                        )
                    } else {
                        Ok(MessageView { header, kind: MessageKindView::Empty })
                    }
                } else {
                    match BodyView::parse(header.tkl, rest) {
                        Err(fault) => Err(MessageErrorView::format_in(fault, header)),
                        Ok(body) => Ok(
                            MessageView { header, kind: MessageKindView::of_code(header.code, body) },
                        ),
                    }
                },
            }
        }
    }
}

impl Message {
    pub fn header(&self) -> (header: &Header)
        ensures
            *header == self@.header,
    {
        &self.header
    }

    pub fn kind(&self) -> (kind: &MessageKind)
        ensures
            kind@ == self@.kind,
    {
        &self.kind
    }

    pub fn body(&self) -> (body: Option<&Body>)
        ensures
            match body {
                Some(b) => self@.kind.body() == Some(b@),
                None => self@.kind.body() is None,
            },
    {
        match &self.kind {
            MessageKind::Empty => None,
            MessageKind::Request(b) => Some(b),
            MessageKind::Response(b) => Some(b),
            MessageKind::Reserved(b) => Some(b),
        }
    }

    pub fn consume(self) -> (parts: (Header, MessageKind))
        ensures
            parts.0 == self@.header,
            parts.1@ == self@.kind,
    {
        (self.header, self.kind)
    }

    pub fn new(header: Header, kind: MessageKind) -> (message: Message)
        ensures
            message@ == (MessageView { header, kind: kind@ }),
    {
        Message { header, kind }
    }

    /// An empty message: code 0.00, no token, nothing behind the header.
    pub fn empty(message_type: MessageType, message_id: u16) -> (message: Message)
        ensures
            message@ == (MessageView {
                header: Header {
                    version: crate::params::VERSION,
                    mtype: message_type,
                    tkl: 0,
                    code: RawCode(0, 0),
                    message_id,
                },
                kind: MessageKindView::Empty,
            }),
    {
        Message {
            header: Header::new(message_type, 0, RawCode(0, 0), message_id),
            kind: MessageKind::Empty,
        }
    }

    /// Reads a message from one datagram.
    pub fn from_bytes(bytes: &[u8]) -> (r: Result<Message, MessageError>)
        ensures
            match r {
                Ok(message) => MessageView::parse(bytes@) == Ok::<MessageView, MessageErrorView>(
                    message@,
                ),
                Err(e) => MessageView::parse(bytes@) == Err::<MessageView, MessageErrorView>(e@),
            },
    {
        if bytes.len() < HEADER_SIZE {
            return Err(MessageError::new(ErrorKind::PacketTooSmall(bytes.len())));
        }
        let header = match Header::from_bytes(bytes) {
            Ok(header) => header,
            Err(e) => {
                return Err(e);
            },
        };
        let rest = slice_subrange(bytes, HEADER_SIZE, bytes.len());
        if header.code.0 == 0 && header.code.1 == 0 {
            if header.tkl != 0 {
                let reason = "token length MUST be 0".to_owned();
                return Err(
                    MessageError::with_header(
                        ErrorKind::MessageFormat(FormatError::InvalidEmptyCode(reason)),
                        header,
                    ),
                );
            }
            if rest.len() != 0 {
                let reason = "bytes MUST NOT be present after message ID".to_owned();
                return Err(
                    MessageError::with_header(
                        ErrorKind::MessageFormat(FormatError::InvalidEmptyCode(reason)),
                        header,
                    ),
                );
            }
            return Ok(Message { header, kind: MessageKind::Empty });
        }
        let body = match Body::from_bytes(&header, rest) {
            Ok(body) => body,
            Err(e) => {
                return Err(e.set_header(header));
            },
        };
        let class: u8 = header.code.class();
        let kind = if class == 0 {
            MessageKind::Request(body)
        } else if 2 <= class && class <= 5 {
            MessageKind::Response(body)
        } else {
            MessageKind::Reserved(body)
        };
        Ok(Message { header, kind })
    }

    /// Writes the message as one datagram. A token length above eight in
    /// the header is refused first, then an option value too long to be written.
    pub fn as_bytes(&self) -> (r: Result<Vec<u8>, MessageError>)
        ensures
            match r {
                Ok(buf) => self@.writable() && buf@ == self@.encode(),
                Err(e) => !self@.writable() && e@ == MessageErrorView::format(
                    self@.write_fault(),
                ),
            },
    {
        let head: [u8; 4] = match self.header.to_bytes() {
            Ok(head) => head,
            Err(e) => {
                return Err(e);
            },
        };
        let mut buf: Vec<u8> = Vec::new();
        buf.extend_from_slice(head.as_slice());
        match &self.kind {
            MessageKind::Empty => {},
            MessageKind::Request(body) | MessageKind::Response(body) | MessageKind::Reserved(
                body,
            ) => {
                let mut rest = match body.to_bytes() {
                    Ok(rest) => rest,
                    Err(e) => {
                        return Err(e);
                    },
                };
                buf.append(&mut rest);
            },
        }
        assert(buf@ =~= self@.encode());
        Ok(buf)
    }

    /// The text that shows the message.
    pub fn to_string(&self) -> (text: String)
        ensures
            text@ == self@.text(),
    {
        let (kind, code, body) = match &self.kind {
            MessageKind::Empty => {
                let mut text = String::from_str("-------- EMPTY --------\nHeader: ");
                text.append(self.header.to_string().as_str());
                return text;
            },
            MessageKind::Request(body) => (
                "REQUEST",
                match Method::from_raw_code(self.header.code) {
                    Ok(method) => method.to_string(),
                    Err(_) => self.header.code.to_string(),
                },
                body,
            ),
            MessageKind::Response(body) => (
                "RESPONSE",
                match ResponseCode::from_raw_code(self.header.code) {
                    Ok(res_code) => res_code.to_string(),
                    Err(_) => self.header.code.to_string(),
                },
                body,
            ),
            MessageKind::Reserved(body) => ("RESERVED", self.header.code.to_string(), body),
        };
        let mut text = String::from_str("-------- ");
        text.append(kind);
        text.append(" --------\nHeader: ");
        text.append(code.as_str());
        text.append(" ");
        text.append(self.header.to_string().as_str());
        text.append("\nToken: ");
        text.append(body.token.to_string().as_str());
        match &body.payload {
            Some(pl) => {
                text.append("\nPayload: ");
                text.append(decimal(pl.len() as u64).as_str());
                text.append(" bytes");
            },
            None => {},
        }
        text.append(path_of(&body.options).as_str());
        assert(text@ =~= self@.text());
        text
    }

    pub fn is_empty(&self) -> (b: bool)
        ensures
            b == (self@.kind is Empty),
    {
        match &self.kind {
            MessageKind::Empty => true,
            _ => false,
        }
    }

    pub fn is_request(&self) -> (b: bool)
        ensures
            b == (self@.kind is Request),
    {
        match &self.kind {
            MessageKind::Request(_) => true,
            _ => false,
        }
    }

    pub fn is_response(&self) -> (b: bool)
        ensures
            b == (self@.kind is Response),
    {
        match &self.kind {
            MessageKind::Response(_) => true,
            _ => false,
        }
    }

    pub fn is_reserved(&self) -> (b: bool)
        ensures
            b == (self@.kind is Reserved),
    {
        match &self.kind {
            MessageKind::Reserved(_) => true,
            _ => false,
        }
    }

    /// An empty message of type Reset.
    pub fn is_reset(&self) -> (b: bool)
        ensures
            b == (self@.kind is Empty && self@.header.mtype == MessageType::Reset),
    {
        match (&self.kind, self.header.mtype) {
            (MessageKind::Empty, MessageType::Reset) => true,
            _ => false,
        }
    }

    /// An empty confirmable message.
    pub fn is_ping(&self) -> (b: bool)
        ensures
            b == (self@.kind is Empty && self@.header.mtype == MessageType::Confirmable),
    {
        match (&self.kind, self.header.mtype) {
            (MessageKind::Empty, MessageType::Confirmable) => true,
            _ => false,
        }
    }
}

} // verus!
