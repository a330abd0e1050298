//! The errors of the server: faults in messages, in the transport, and in exchanges.

pub use crate::message::error::MessageError;
use crate::message::error::MessageErrorView;
use vstd::prelude::*;
use vstd::std_specs::convert::IntoSpec;
use vstd::string::StringExecFns;

verus! {

/// `std::io::Error`, carried through as it comes from the transport.
#[verifier::external_type_specification]
#[verifier::external_body]
pub struct ExIoError(std::io::Error);

/// The kinds of error.
#[derive(Debug)]
#[non_exhaustive]
pub enum ErrorKind {
    /// A message could not be read or written.
    Message(MessageError),
    /// The transport failed.
    ServerIo(std::io::Error),
    /// A queue between the parts of the server is full or closed; carries which.
    BrokenChannel(String),
    /// No address could be bound.
    AddrUnavailable,
    /// A confirmable response was retransmitted as often as allowed and never acknowledged.
    ResponseTimeout,
    /// The request handler failed.
    Handler,
    /// The peer reset the exchange.
    RequestCancelled,
}

/// A kind of error as a mathematical value.
pub enum ErrorKindView {
    Message(MessageErrorView),
    ServerIo(std::io::Error),
    BrokenChannel(Seq<char>),
    AddrUnavailable,
    ResponseTimeout,
    Handler,
    RequestCancelled,
}

impl View for ErrorKind {
    type V = ErrorKindView;

    open spec fn view(&self) -> ErrorKindView {
        match *self {
            ErrorKind::Message(e) => ErrorKindView::Message(e@),
            ErrorKind::ServerIo(e) => ErrorKindView::ServerIo(e),
            ErrorKind::BrokenChannel(reason) => ErrorKindView::BrokenChannel(reason@),
            ErrorKind::AddrUnavailable => ErrorKindView::AddrUnavailable,
            ErrorKind::ResponseTimeout => ErrorKindView::ResponseTimeout,
            ErrorKind::Handler => ErrorKindView::Handler,
            ErrorKind::RequestCancelled => ErrorKindView::RequestCancelled,
        }
    }
}

impl ErrorKindView {
    /// The text of a kind of error, without what lies behind it.
    pub open spec fn text(self) -> Seq<char> {
        match self {
            ErrorKindView::Message(_) => "message error"@,
            ErrorKindView::ServerIo(_) => "server io error"@,
            ErrorKindView::BrokenChannel(reason) => "broken channel: "@ + reason,
            ErrorKindView::AddrUnavailable => "address unavailable"@,
            ErrorKindView::ResponseTimeout => "response timeout"@,
            ErrorKindView::Handler => "response handler failed"@,
            ErrorKindView::RequestCancelled => "request cancelled by client"@,
        }
    }
}

impl ErrorKind {
    pub fn to_string(&self) -> (text: String)
        ensures
            text@ == self@.text(),
    {
        match self {
            ErrorKind::Message(_) => String::from_str("message error"),
            ErrorKind::ServerIo(_) => String::from_str("server io error"),
            ErrorKind::BrokenChannel(reason) => {
                let mut text = String::from_str("broken channel: ");
                text.append(reason.as_str());
                text
            },
            ErrorKind::AddrUnavailable => String::from_str("address unavailable"),
            ErrorKind::ResponseTimeout => String::from_str("response timeout"),
            ErrorKind::Handler => String::from_str("response handler failed"),
            ErrorKind::RequestCancelled => String::from_str("request cancelled by client"),
        }
    }
}

/// An error of the server.
#[derive(Debug)]
pub struct Error(pub(crate) ErrorKind);

impl View for Error {
    type V = ErrorKindView;

    closed spec fn view(&self) -> ErrorKindView {
        self.0@
    }
}

impl Error {
    pub fn kind(&self) -> (kind: &ErrorKind)
        ensures
            kind@ == self@,
    {
        &self.0
    }

    pub fn message(err: MessageError) -> (e: Error)
        ensures
            e@ == ErrorKindView::Message(err@),
    {
        Error(ErrorKind::Message(err))
    }

    pub fn server_io(err: std::io::Error) -> (e: Error)
        ensures
            e@ == ErrorKindView::ServerIo(err),
    {
        Error(ErrorKind::ServerIo(err))
    }

    pub fn addr_unavailable() -> (e: Error)
        ensures
            e@ == ErrorKindView::AddrUnavailable,
    {
        Error(ErrorKind::AddrUnavailable)
    }

    pub fn response_timeout() -> (e: Error)
        ensures
            e@ == ErrorKindView::ResponseTimeout,
    {
        Error(ErrorKind::ResponseTimeout)
    }

    pub fn handler() -> (e: Error)
        ensures
            e@ == ErrorKindView::Handler,
    {
        Error(ErrorKind::Handler)
    }

    pub fn request_cancelled() -> (e: Error)
        ensures
            e@ == ErrorKindView::RequestCancelled,
    {
        Error(ErrorKind::RequestCancelled)
    }

    /// The text of the error: that of its kind.
    pub fn to_string(&self) -> (text: String)
        ensures
            text@ == self@.text(),
    {
        self.0.to_string()
    }

    /// A broken channel, with the reason turned into a `String`.
    pub fn broken_channel<S>(reason: S) -> (e: Error) where S: Into<String>
        ensures
            e@ is BrokenChannel,
            S::obeys_into_spec() ==> e@ == ErrorKindView::BrokenChannel(S::into_spec(reason)@),
    {
        Error(ErrorKind::BrokenChannel(reason.into()))
    }

    /// A broken channel, with the reason as given.
    pub fn broken_channel_at(reason: &str) -> (e: Error)
        ensures
            e@ == ErrorKindView::BrokenChannel(reason@),
    {
        Error(ErrorKind::BrokenChannel(reason.to_owned()))
    }
}

/// The text of an error with the texts of what lies behind it, each behind
/// a colon: for a message error the text of the failure and of the format
/// fault behind that; for a transport error whatever text the transport
/// gave; for any other error its own text alone.
pub open spec fn spec_pprint(e: ErrorKindView, text: Seq<char>) -> bool {
    match e {
        ErrorKindView::Message(failure) => text == e.text() + ": "@ + failure.kind.chain(),
        ErrorKindView::ServerIo(_) => exists|behind: Seq<char>|
            text == e.text() + ": "@ + behind,
        _ => text == e.text(),
    }
}

/// The text of an error with the texts of what lies behind it.
pub fn pprint_error(err: &Error) -> (text: String)
    ensures
        spec_pprint(err@, text@),
{
    let mut s = err.to_string();
    match err.kind() {
        ErrorKind::Message(failure) => {
            s.append(": ");
            s.append(failure.to_string().as_str());
            match failure.kind().source() {
                Some(fault) => {
                    s.append(": ");
                    s.append(fault.to_string().as_str());
                },
                None => {},
            }
            assert(s@ =~= err@.text() + ": "@ + failure@.kind.chain());
        },
        ErrorKind::ServerIo(e) => {
            let behind = e.to_string();
            s.append(": ");
            s.append(behind.as_str());
            assert(s@ == err@.text() + ": "@ + behind@);
        },
        _ => {},
    }
    s
}

} // verus!
