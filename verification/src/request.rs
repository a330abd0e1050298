//! A request as the handler sees it.

use crate::message::code::Method;
use crate::message::header::MessageType;
use crate::message::message::{Message, MessageKind, MessageKindView, MessageView};
use crate::message::option::{Opts, RawOption};
use crate::message::token::Token;
use crate::peer::PeerAddr;
use crate::reliability::Reliablity;
use vstd::prelude::*;

verus! {

/// A request and the peer that sent it.
#[derive(Debug)]
pub struct Request {
    source: PeerAddr,
    method: Method,
    message_id: u16,
    reliablity: Reliablity,
    token: Token,
    options: Opts,
    payload: Option<Vec<u8>>,
}

/// A request as a mathematical value.
pub struct RequestView {
    pub source: PeerAddr,
    pub method: Method,
    pub message_id: u16,
    pub reliablity: Reliablity,
    pub token: Seq<u8>,
    pub options: Seq<RawOption>,
    pub payload: Option<Seq<u8>>,
}

impl View for Request {
    type V = RequestView;

    closed spec fn view(&self) -> RequestView {
        RequestView {
            source: self.source,
            method: self.method,
            message_id: self.message_id,
            reliablity: self.reliablity,
            token: self.token@,
            options: self.options@,
            payload: match self.payload {
                Some(payload) => Some(payload@),
                None => None,
            },
        }
    }
}

impl RequestView {
    /// The request that a message from `source` is, if it is one: a message
    /// of the kind request, confirmable or not, whose code is a method.
    pub open spec fn of_message(source: PeerAddr, message: MessageView) -> Option<RequestView> {
        match message.kind {
            MessageKindView::Request(body) => match (
                Method::spec_from_raw_code(message.header.code),
                message.header.mtype,
            ) {
                (Ok(method), MessageType::Confirmable) => Some(
                    RequestView {
                        source,
                        method,
                        message_id: message.header.message_id,
                        reliablity: Reliablity::Confirmable,
                        token: body.token,
                        options: body.options,
                        payload: body.payload,
                    },
                ),
                (Ok(method), MessageType::NonConfirmable) => Some(
                    RequestView {
                        source,
                        method,
                        message_id: message.header.message_id,
                        reliablity: Reliablity::NonConfirmable,
                        token: body.token,
                        options: body.options,
                        payload: body.payload,
                    },
                ),
                _ => None,
            },
            _ => None,
        }
    }
}

/// The view of an optional request.
pub open spec fn request_view(request: Option<Request>) -> Option<RequestView> {
    match request {
        Some(r) => Some(r@),
        None => None,
    }
}

impl Request {
    /// Takes a message from `source` for a request, if it is one.
    pub fn from_message(source: PeerAddr, message: Message) -> (request: Option<Request>)
        ensures
            request_view(request) == RequestView::of_message(source, message@),
    {
        let (header, kind) = message.consume();
        match kind {
            MessageKind::Request(body) => {
                let method = match Method::from_raw_code(header.code()) {
                    Ok(method) => method,
                    Err(_) => {
                        return None;
                    },
                };
                let reliablity = match Reliablity::from_message_type(header.message_type()) {
                    Some(reliablity) => reliablity,
                    None => {
                        return None;
                    },
                };
                Some(
                    Request {
                        source,
                        method,
                        message_id: header.message_id(),
                        reliablity,
                        token: body.token,
                        options: body.options,
                        payload: body.payload,
                    },
                )
            },
            _ => None,
        }
    }

    pub fn source(&self) -> (source: PeerAddr)
        ensures
            source == self@.source,
    {
        self.source
    }

    pub fn message_id(&self) -> (message_id: u16)
        ensures
            message_id == self@.message_id,
    {
        self.message_id
    }

    pub fn reliablity(&self) -> (reliablity: Reliablity)
        ensures
            reliablity == self@.reliablity,
    {
        self.reliablity
    }

    pub fn method(&self) -> (method: Method)
        ensures
            method == self@.method,
    {
        self.method
    }

    pub fn token(&self) -> (token: &Token)
        ensures
            token@ == self@.token,
    {
        &self.token
    }

    pub fn options(&self) -> (options: &Opts)
        ensures
            options@ == self@.options,
    {
        &self.options
    }

    pub fn payload(&self) -> (payload: Option<&[u8]>)
        ensures
            match payload {
                Some(bytes) => self@.payload == Some(bytes@),
                None => self@.payload is None,
            },
    {
        match &self.payload {
            None => None,
            Some(pl) => Some(pl.as_slice()),
        }
    }
}

} // verus!
