//! A response as the handler fills it in, and what the handler hands back.

use crate::message::builder::{BuilderView, MessageBuilder, No, ResponseBuilder};
use crate::message::code::{ResponseCode, SuccessCode};
use crate::message::option::{Opts, RawOption};
use crate::peer::PeerAddr;
use crate::reliability::Reliablity;
use crate::request::Request;
use vstd::prelude::*;

verus! {

/// A response on its way to a peer.
#[derive(Debug)]
pub struct Response {
    dest: PeerAddr,
    code: ResponseCode,
    options: Opts,
    payload: Option<Vec<u8>>,
}

/// A response as a mathematical value.
pub struct ResponseView {
    pub dest: PeerAddr,
    pub code: ResponseCode,
    pub options: Seq<RawOption>,
    pub payload: Option<Seq<u8>>,
}

impl View for Response {
    type V = ResponseView;

    closed spec fn view(&self) -> ResponseView {
        ResponseView {
            dest: self.dest,
            code: self.code,
            options: self.options@,
            payload: match self.payload {
                Some(payload) => Some(payload@),
                None => None,
            },
        }
    }
}

impl ResponseView {
    /// What the builder of this response holds: the code, the options and
    /// the payload; message id, type and token are still to be set.
    pub open spec fn builder(self) -> BuilderView {
        BuilderView {
            options: Some(self.options),
            payload: self.payload,
            ..BuilderView::fresh(self.code.spec_as_raw_code())
        }
    }
}

impl Response {
    /// The response to `req` before the handler has touched it: it goes to
    /// the peer that sent the request, with code 2.05 Content, no options
    /// and no payload.
    pub fn from_request(req: &Request) -> (res: Response)
        ensures
            res@ == (ResponseView {
                dest: req@.source,
                code: ResponseCode::Success(SuccessCode::Content),
                options: Seq::empty(),
                payload: None,
            }),
    {
        Response {
            dest: req.source(),
            code: ResponseCode::Success(SuccessCode::Content),
            options: Opts::new(),
            payload: None,
        }
    }

    /// A response to the peer at `dest` with code `code`, no options and no payload.
    pub fn with_code(dest: PeerAddr, code: ResponseCode) -> (res: Response)
        ensures
            res@ == (ResponseView { dest, code, options: Seq::empty(), payload: None }),
    {
        Response { dest, code, options: Opts::new(), payload: None }
    }

    pub fn dest(&self) -> (dest: &PeerAddr)
        ensures
            *dest == self@.dest,
    {
        &self.dest
    }

    pub fn code(&self) -> (code: &ResponseCode)
        ensures
            *code == self@.code,
    {
        &self.code
    }

    pub fn options(&self) -> (options: &Opts)
        ensures
            options@ == self@.options,
    {
        &self.options
    }

    pub fn payload(&self) -> (payload: Option<&[u8]>)
        ensures
            match payload {
                Some(bytes) => self@.payload == Some(bytes@),
                None => self@.payload is None,
            },
    {
        match &self.payload {
            Some(pl) => Some(pl.as_slice()),
            None => None,
        }
    }

    pub fn set_code(&mut self, code: ResponseCode)
        ensures
            final(self)@ == (ResponseView { code, ..old(self)@ }),
    {
        self.code = code;
    }

    pub fn set_options(&mut self, options: Opts)
        ensures
            final(self)@ == (ResponseView { options: options@, ..old(self)@ }),
    {
        self.options = options;
    }

    pub fn set_payload(&mut self, payload: Vec<u8>)
        ensures
            final(self)@ == (ResponseView { payload: Some(payload@), ..old(self)@ }),
    {
        self.payload = Some(payload);
    }

    /// The builder of the message that carries this response.
    pub fn serialize(&self) -> (builder: ResponseBuilder<No, No>)
        ensures
            builder@ == self@.builder(),
    {
        let m = MessageBuilder::response().response_code(self.code).options(self.options.clone());
        match &self.payload {
            None => m,
            Some(pl) => {
                let mut payload: Vec<u8> = Vec::new();
                payload.extend_from_slice(pl.as_slice());
                assert(payload@ =~= pl@);
                m.payload(payload)
            },
        }
    }
}

impl Clone for Response {
    fn clone(&self) -> (res: Response)
        ensures
            res@ == self@,
    {
        let payload: Option<Vec<u8>> = match &self.payload {
            None => None,
            Some(pl) => {
                let mut payload: Vec<u8> = Vec::new();
                payload.extend_from_slice(pl.as_slice());
                assert(payload@ =~= pl@);
                Some(payload)
            },
        };
        Response { dest: self.dest, code: self.code, options: self.options.clone(), payload }
    }
}

/// What the handler hands back: the response itself, to be carried by the
/// acknowledgement of the request, or the promise of a response that will
/// be sent separately, with the reliability that it is to be sent with.
#[derive(Debug)]
pub enum Carry {
    Piggyback(Response),
    Seperate(Reliablity),
}

impl From<Response> for Carry {
    fn from(r: Response) -> (carry: Carry) {
        Carry::Piggyback(r)
    }
}

impl vstd::std_specs::convert::FromSpecImpl<Response> for Carry {
    open spec fn obeys_from_spec() -> bool {
        true
    }

    open spec fn from_spec(r: Response) -> Carry {
        Carry::Piggyback(r)
    }
}

} // verus!
