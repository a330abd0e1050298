//! A builder that lets only well-sorted messages be put together: the types
//! of its parameters say which kind of message is being built and whether
//! its message id and its type have been set.

use super::body::{Body, BodyView};
use super::code::{Method, RawCode, ResponseCode, SuccessCode};
use super::header::{Header, MessageType};
use super::message::{Message, MessageKind, MessageKindView, MessageView};
use super::option::{Opts, RawOption};
use super::token::Token;
use crate::params::VERSION;
use std::marker::PhantomData;
use vstd::prelude::*;

verus! {

/// Marks a part of the message as set.
pub struct Yes;

/// Marks a part of the message as not set yet.
pub struct No;

pub trait IsSet {

}

impl IsSet for Yes {

}

impl IsSet for No {

}

/// The builder makes an empty message.
pub struct Empty;

/// The builder makes a request.
pub struct Request;

/// The builder makes a response.
pub struct Response;

pub trait Kind {

}

impl Kind for Empty {

}

impl Kind for Request {

}

impl Kind for Response {

}

/// Kinds that have a body: token, options and payload can be attached.
pub trait NotEmpty {

}

impl NotEmpty for Request {

}

impl NotEmpty for Response {

}

/// Kinds that can be sent as confirmable messages.
pub trait Confirmable {

}

impl Confirmable for Request {

}

impl Confirmable for Response {

}

/// Kinds that can be sent as non-confirmable messages.
pub trait NonConfirmable {

}

impl NonConfirmable for Request {

}

impl NonConfirmable for Response {

}

/// Kinds that can be sent as acknowledgements.
pub trait Acknowledgeable {

}

impl Acknowledgeable for Response {

}

impl Acknowledgeable for Empty {

}

/// A message in the making.
pub struct MessageBuilder<KIND = Empty, MID = No, MTYPE = No> where
    KIND: Kind,
    MID: IsSet,
    MTYPE: IsSet,
 {
    _mid_set: PhantomData<MID>,
    _mtype_set: PhantomData<MTYPE>,
    _kind: PhantomData<KIND>,
    mtype: MessageType,
    code: RawCode,
    mid: u16,
    token: Option<Token>,
    options: Option<Opts>,
    payload: Option<Vec<u8>>,
}

/// A builder of responses.
pub type ResponseBuilder<MID, MTYPE> = MessageBuilder<Response, MID, MTYPE>;

/// What a builder holds.
pub struct BuilderView {
    pub mtype: MessageType,
    pub code: RawCode,
    pub mid: u16,
    pub token: Option<Seq<u8>>,
    pub options: Option<Seq<RawOption>>,
    pub payload: Option<Seq<u8>>,
}

impl BuilderView {
    /// What a fresh builder with code `code` holds: type Reset, message id 0,
    /// nothing attached.
    pub open spec fn fresh(code: RawCode) -> BuilderView {
        BuilderView {
            mtype: MessageType::Reset,
            code,
            mid: 0,
            token: None,
            options: None,
            payload: None,
        }
    }

    /// The header of the message that is built: the token length is the
    /// length of the token.
    pub open spec fn header(self) -> Header {
        Header {
            version: VERSION,
            mtype: self.mtype,
            tkl: self.body().token.len() as usize,
            code: self.code,
            message_id: self.mid,
        }
    }

    /// The body of the message that is built: what was not attached is empty.
    pub open spec fn body(self) -> BodyView {
        BodyView {
            token: match self.token {
                Some(token) => token,
                None => Seq::empty(),
            },
            options: match self.options {
                Some(options) => options,
                None => Seq::empty(),
            },
            payload: self.payload,
        }
    }
}

impl<KIND, MID, MTYPE> View for MessageBuilder<KIND, MID, MTYPE> where
    KIND: Kind,
    MID: IsSet,
    MTYPE: IsSet,
 {
    type V = BuilderView;

    closed spec fn view(&self) -> BuilderView {
        BuilderView {
            mtype: self.mtype,
            code: self.code,
            mid: self.mid,
            token: match self.token {
                Some(token) => Some(token@),
                None => None,
            },
            options: match self.options {
                Some(options) => Some(options@),
                None => None,
            },
            payload: match self.payload {
                Some(payload) => Some(payload@),
                None => None,
            },
        }
    }
}

impl<KIND, MID, MTYPE> Default for MessageBuilder<KIND, MID, MTYPE> where
    KIND: Kind,
    MID: IsSet,
    MTYPE: IsSet,
 {
    fn default() -> (builder: Self)
        ensures
            builder@ == BuilderView::fresh(RawCode(0, 0)),
    {
        MessageBuilder {
            _mid_set: PhantomData,
            _mtype_set: PhantomData,
            _kind: PhantomData,
            mtype: MessageType::Reset,
            code: RawCode(0, 0),
            mid: 0,
            token: None,
            options: None,
            payload: None,
        }
    }
}

impl MessageBuilder {
    /// A builder of an empty message.
    pub fn empty() -> (builder: MessageBuilder<Empty, No, No>)
        ensures
            builder@ == BuilderView::fresh(RawCode(0, 0)),
    {
        Default::default()
    }

    /// A ping: an empty confirmable message.
    pub fn ping(message_id: u16) -> (builder: MessageBuilder<Empty, Yes, Yes>)
        ensures
            builder@ == (BuilderView {
                mtype: MessageType::Confirmable,
                mid: message_id,
                ..BuilderView::fresh(RawCode(0, 0))
            }),
    {
        MessageBuilder::empty().with_type(MessageType::Confirmable).message_id(message_id)
    }

    /// A reset: an empty message of type Reset.
    pub fn reset(message_id: u16) -> (builder: MessageBuilder<Empty, Yes, Yes>)
        ensures
            builder@ == (BuilderView { mid: message_id, ..BuilderView::fresh(RawCode(0, 0)) }),
    {
        MessageBuilder::empty().with_type(MessageType::Reset).message_id(message_id)
    }

    /// A builder of a request; the method is GET until another is set.
    pub fn request() -> (builder: MessageBuilder<Request, No, No>)
        ensures
            builder@ == BuilderView::fresh(RawCode(0, 1)),
    {
        MessageBuilder {
            _mid_set: PhantomData,
            _mtype_set: PhantomData,
            _kind: PhantomData,
            mtype: MessageType::Reset,
            code: Method::Get.as_raw_code(),
            mid: 0,
            token: None,
            options: None,
            payload: None,
        }
    }

    /// A builder of a response; the code is 2.05 Content until another is set.
    pub fn response() -> (builder: MessageBuilder<Response, No, No>)
        ensures
            builder@ == BuilderView::fresh(RawCode(2, 5)),
    {
        MessageBuilder {
            _mid_set: PhantomData,
            _mtype_set: PhantomData,
            _kind: PhantomData,
            mtype: MessageType::Reset,
            code: ResponseCode::Success(SuccessCode::Content).as_raw_code(),
            mid: 0,
            token: None,
            options: None,
            payload: None,
        }
    }
}

impl<KIND, MID, MTYPE> MessageBuilder<KIND, MID, MTYPE> where
    KIND: Kind,
    MID: IsSet,
    MTYPE: IsSet,
 {
    pub fn message_id(self, message_id: u16) -> (builder: MessageBuilder<KIND, Yes, MTYPE>)
        ensures
            builder@ == (BuilderView { mid: message_id, ..self@ }),
    {
        MessageBuilder {
            _mid_set: PhantomData,
            _mtype_set: PhantomData,
            _kind: PhantomData,
            mtype: self.mtype,
            code: self.code,
            mid: message_id,
            token: self.token,
            options: self.options,
            payload: self.payload,
        }
    }

    fn with_type(self, mtype: MessageType) -> (builder: MessageBuilder<KIND, MID, Yes>)
        ensures
            builder@ == (BuilderView { mtype, ..self@ }),
    {
        MessageBuilder {
            _mid_set: PhantomData,
            _mtype_set: PhantomData,
            _kind: PhantomData,
            mtype,
            code: self.code,
            mid: self.mid,
            token: self.token,
            options: self.options,
            payload: self.payload,
        }
    }
}

impl<KIND, MID, MTYPE> MessageBuilder<KIND, MID, MTYPE> where
    KIND: Kind + Confirmable,
    MID: IsSet,
    MTYPE: IsSet,
 {
    pub fn confirmable(self) -> (builder: MessageBuilder<KIND, MID, Yes>)
        ensures
            builder@ == (BuilderView { mtype: MessageType::Confirmable, ..self@ }),
    {
        self.with_type(MessageType::Confirmable)
    }
}

impl<KIND, MID, MTYPE> MessageBuilder<KIND, MID, MTYPE> where
    KIND: Kind + NonConfirmable,
    MID: IsSet,
    MTYPE: IsSet,
 {
    pub fn non_confirmable(self) -> (builder: MessageBuilder<KIND, MID, Yes>)
        ensures
            builder@ == (BuilderView { mtype: MessageType::NonConfirmable, ..self@ }),
    {
        self.with_type(MessageType::NonConfirmable)
    }
}

impl<KIND, MID, MTYPE> MessageBuilder<KIND, MID, MTYPE> where
    KIND: Kind + Acknowledgeable,
    MID: IsSet,
    MTYPE: IsSet,
 {
    pub fn acknowledgement(self) -> (builder: MessageBuilder<KIND, MID, Yes>)
        ensures
            builder@ == (BuilderView { mtype: MessageType::Acknowledgement, ..self@ }),
    {
        self.with_type(MessageType::Acknowledgement)
    }
}

impl<KIND, MID, MTYPE> MessageBuilder<KIND, MID, MTYPE> where
    KIND: Kind + NotEmpty,
    MID: IsSet,
    MTYPE: IsSet,
 {
    pub fn token(self, token: Token) -> (builder: Self)
        ensures
            builder@ == (BuilderView { token: Some(token@), ..self@ }),
    {
        let mut builder = self;
        builder.token = Some(token);
        builder
    }

    pub fn options(self, options: Opts) -> (builder: Self)
        ensures
            builder@ == (BuilderView { options: Some(options@), ..self@ }),
    {
        let mut builder = self;
        builder.options = Some(options);
        builder
    }

    pub fn payload(self, payload: Vec<u8>) -> (builder: Self)
        ensures
            builder@ == (BuilderView { payload: Some(payload@), ..self@ }),
    {
        let mut builder = self;
        builder.payload = Some(payload);
        builder
    }
}

impl<MID, MTYPE> MessageBuilder<Request, MID, MTYPE> where MID: IsSet, MTYPE: IsSet {
    /// Sets the method. A request carries one of the four methods GET, POST,
    /// PUT and DELETE, under whatever name.
    pub fn method(self, method: Method) -> (builder: Self)
        requires
            1 <= method.spec_as_raw_code().1 <= 4,
        ensures
            builder@ == (BuilderView { code: method.spec_as_raw_code(), ..self@ }),
    {
        let mut builder = self;
        builder.code = method.as_raw_code();
        builder
    }
}

impl<MID, MTYPE> MessageBuilder<Response, MID, MTYPE> where MID: IsSet, MTYPE: IsSet {
    pub fn response_code(self, res_code: ResponseCode) -> (builder: Self)
        ensures
            builder@ == (BuilderView { code: res_code.spec_as_raw_code(), ..self@ }),
    {
        let mut builder = self;
        builder.code = res_code.as_raw_code();
        builder
    }
}

impl MessageBuilder<Empty, Yes, Yes> {
    /// The empty message with the type and the message id that were set.
    pub fn build(self) -> (message: Message)
        ensures
            message@ == (MessageView {
                header: Header {
                    version: VERSION,
                    mtype: self@.mtype,
                    tkl: 0,
                    code: RawCode(0, 0),
                    message_id: self@.mid,
                },
                kind: MessageKindView::Empty,
            }),
            message@.well_formed(),
    {
        Message::empty(self.mtype, self.mid)
    }
}

impl<KIND> MessageBuilder<KIND, Yes, Yes> where KIND: Kind + NotEmpty {
    fn make_header_body(self) -> (parts: (Header, Body))
        ensures
            parts.0 == self@.header(),
            parts.1@ == self@.body(),
    {
        let token = match self.token {
            Some(token) => token,
            None => Token::empty(),
        };
        let opts = match self.options {
            Some(opts) => opts,
            None => Opts::new(),
        };
        let header = Header::new(self.mtype, token.len(), self.code, self.mid);
        let body = Body::new(token, opts, self.payload);
        (header, body)
    }
}

impl MessageBuilder<Request, Yes, Yes> {
    /// The request that was put together.
    pub fn build(self) -> (message: Message)
        ensures
            message@ == (MessageView {
                header: self@.header(),
                kind: MessageKindView::Request(self@.body()),
            }),
    {
        let (header, body) = self.make_header_body();
        Message::new(header, MessageKind::Request(body))
    }
}

impl MessageBuilder<Response, Yes, Yes> {
    /// The response that was put together.
    pub fn build(self) -> (message: Message)
        ensures
            message@ == (MessageView {
                header: self@.header(),
                kind: MessageKindView::Response(self@.body()),
            }),
    {
        let (header, body) = self.make_header_body();
        Message::new(header, MessageKind::Response(body))
    }
}

} // verus!
