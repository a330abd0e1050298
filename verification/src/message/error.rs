//! What can be wrong with the bytes of a message.

use super::header::Header;
use crate::text::{decimal, spec_decimal};
use std::ops::Range;
use vstd::prelude::*;
use vstd::string::StringExecFns;

verus! {

/// A fault in the format of a message.
#[derive(Debug, PartialEq, Eq)]
pub enum FormatError {
    UnknownVersion(u8),
    InvalidTokenLength(usize),
    InvalidEmptyCode(String),
    TokenLengthMismatch { actual: usize, expected: usize },
    InvalidOptionDelta,
    InvalidOptionLength,
    OptionLengthMismatch { actual: usize, expected: usize },
    InvalidOptionValue { range: Range<usize>, actual: usize },
    InvalidOption(String),
    UnexpectedPayloadMarker,
}

/// A format fault as a mathematical value: texts are sequences of characters.
pub enum FormatErrorView {
    UnknownVersion(u8),
    InvalidTokenLength(usize),
    InvalidEmptyCode(Seq<char>),
    TokenLengthMismatch { actual: usize, expected: usize },
    InvalidOptionDelta,
    InvalidOptionLength,
    OptionLengthMismatch { actual: usize, expected: usize },
    InvalidOptionValue { range: Range<usize>, actual: usize },
    InvalidOption(Seq<char>),
    UnexpectedPayloadMarker,
}

impl View for FormatError {
    type V = FormatErrorView;

    open spec fn view(&self) -> FormatErrorView {
        match *self {
            FormatError::UnknownVersion(v) => FormatErrorView::UnknownVersion(v),
            FormatError::InvalidTokenLength(tkl) => FormatErrorView::InvalidTokenLength(tkl),
            FormatError::InvalidEmptyCode(reason) => FormatErrorView::InvalidEmptyCode(reason@),
            FormatError::TokenLengthMismatch { actual, expected } => {
                FormatErrorView::TokenLengthMismatch { actual, expected }
            },
            FormatError::InvalidOptionDelta => FormatErrorView::InvalidOptionDelta,
            FormatError::InvalidOptionLength => FormatErrorView::InvalidOptionLength,
            FormatError::OptionLengthMismatch { actual, expected } => {
                FormatErrorView::OptionLengthMismatch { actual, expected }
            },
            FormatError::InvalidOptionValue { range, actual } => {
                FormatErrorView::InvalidOptionValue { range, actual }
            },
            FormatError::InvalidOption(reason) => FormatErrorView::InvalidOption(reason@),
            FormatError::UnexpectedPayloadMarker => FormatErrorView::UnexpectedPayloadMarker,
        }
    }
}

impl FormatErrorView {
    /// The text of a format fault.
    pub open spec fn text(self) -> Seq<char> {
        match self {
            FormatErrorView::UnknownVersion(ver) => "unkown version number "@ + spec_decimal(
                ver as nat,
            ) + " (must be 1)"@,
            FormatErrorView::InvalidTokenLength(tkl) => "invalid token length "@ + spec_decimal(
                tkl as nat,
            ) + " (lengths 9 to 15 are reserved)"@,
            FormatErrorView::InvalidEmptyCode(reason) => "invalid empty code: "@ + reason,
            FormatErrorView::TokenLengthMismatch { actual, expected } => "invalid token (expected "@
                + spec_decimal(expected as nat) + " bytes, got "@ + spec_decimal(actual as nat)
                + ")"@,
            FormatErrorView::InvalidOptionDelta => "option delta 15 is reserved for the payload marker"@,
            FormatErrorView::InvalidOptionLength => "option length 15 is reserved for future use"@,
            FormatErrorView::OptionLengthMismatch {
                actual,
                expected,
            } => "option value size mismatch (expected "@ + spec_decimal(expected as nat)
                + " bytes, got "@ + spec_decimal(actual as nat) + ")"@,
            FormatErrorView::InvalidOptionValue { range, actual } => "invalid option value (expected "@
                + spec_decimal(range.start as nat) + " - "@ + spec_decimal(range.end as nat)
                + " bytes, got "@ + spec_decimal(actual as nat) + ")"@,
            FormatErrorView::InvalidOption(reason) => "invalid option: "@ + reason,
            FormatErrorView::UnexpectedPayloadMarker => "unexpected payload marker when payload is empty"@,
        }
    }
}

/// `front`, then `n` in decimal, then `back`.
fn around(front: &str, n: usize, back: &str) -> (text: String)
    ensures
        text@ == front@ + spec_decimal(n as nat) + back@,
{
    let mut text = String::from_str(front);
    text.append(decimal(n as u64).as_str());
    text.append(back);
    text
}

impl FormatError {
    pub fn to_string(&self) -> (text: String)
        ensures
            text@ == self@.text(),
    {
        match self {
            FormatError::UnknownVersion(ver) => around(
                "unkown version number ",
                *ver as usize,
                " (must be 1)",
            ),
            FormatError::InvalidTokenLength(tkl) => around(
                "invalid token length ",
                *tkl,
                " (lengths 9 to 15 are reserved)",
            ),
            FormatError::InvalidEmptyCode(reason) => {
                let mut text = String::from_str("invalid empty code: ");
                text.append(reason.as_str());
                text
            },
            FormatError::TokenLengthMismatch { actual, expected } => {
                let mut text = around("invalid token (expected ", *expected, " bytes, got ");
                text.append(decimal(*actual as u64).as_str());
                text.append(")");
                text
            },
            FormatError::InvalidOptionDelta => String::from_str(
                "option delta 15 is reserved for the payload marker",
            ),
            FormatError::InvalidOptionLength => String::from_str(
                "option length 15 is reserved for future use",
            ),
            FormatError::OptionLengthMismatch { actual, expected } => {
                let mut text = around(
                    "option value size mismatch (expected ",
                    *expected,
                    " bytes, got ",
                );
                text.append(decimal(*actual as u64).as_str());
                text.append(")");
                text
            },
            FormatError::InvalidOptionValue { range, actual } => {
                let mut text = around("invalid option value (expected ", range.start, " - ");
                text.append(decimal(range.end as u64).as_str());
                text.append(" bytes, got ");
                text.append(decimal(*actual as u64).as_str());
                text.append(")");
                text
            },
            FormatError::InvalidOption(reason) => {
                let mut text = String::from_str("invalid option: ");
                text.append(reason.as_str());
                text
            },
            FormatError::UnexpectedPayloadMarker => String::from_str(
                "unexpected payload marker when payload is empty",
            ),
        }
    }
}

impl Clone for FormatError {
    fn clone(&self) -> (e: FormatError)
        ensures
            e@ == self@,
    {
        match self {
            FormatError::UnknownVersion(v) => FormatError::UnknownVersion(*v),
            FormatError::InvalidTokenLength(tkl) => FormatError::InvalidTokenLength(*tkl),
            FormatError::InvalidEmptyCode(reason) => FormatError::InvalidEmptyCode(reason.clone()),
            FormatError::TokenLengthMismatch { actual, expected } => {
                FormatError::TokenLengthMismatch { actual: *actual, expected: *expected }
            },
            FormatError::InvalidOptionDelta => FormatError::InvalidOptionDelta,
            FormatError::InvalidOptionLength => FormatError::InvalidOptionLength,
            FormatError::OptionLengthMismatch { actual, expected } => {
                FormatError::OptionLengthMismatch { actual: *actual, expected: *expected }
            },
            FormatError::InvalidOptionValue { range, actual } => {
                FormatError::InvalidOptionValue {
                    range: Range { start: range.start, end: range.end },
                    actual: *actual,
                }
            },
            FormatError::InvalidOption(reason) => FormatError::InvalidOption(reason.clone()),
            FormatError::UnexpectedPayloadMarker => FormatError::UnexpectedPayloadMarker,
        }
    }
}

/// The kinds of failure in reading or writing a message.
#[derive(Debug, PartialEq, Eq)]
pub enum ErrorKind {
    /// The bytes break the format.
    MessageFormat(FormatError),
    /// Fewer bytes than a header; carries how many there were.
    PacketTooSmall(usize),
}

pub enum ErrorKindView {
    MessageFormat(FormatErrorView),
    PacketTooSmall(usize),
}

impl View for ErrorKind {
    type V = ErrorKindView;

    open spec fn view(&self) -> ErrorKindView {
        match *self {
            ErrorKind::MessageFormat(e) => ErrorKindView::MessageFormat(e@),
            ErrorKind::PacketTooSmall(n) => ErrorKindView::PacketTooSmall(n),
        }
    }
}

impl ErrorKindView {
    /// The text of a kind of failure, without what lies behind it.
    pub open spec fn text(self) -> Seq<char> {
        match self {
            ErrorKindView::MessageFormat(_) => "invalid message format"@,
            ErrorKindView::PacketTooSmall(size) => "invalid CoAP packet size "@ + spec_decimal(
                size as nat,
            ) + " (minimum 4 bytes)"@,
        }
    }

    /// The text of a kind of failure, and behind a colon the text of the
    /// format fault that lies behind it, where one does.
    pub open spec fn chain(self) -> Seq<char> {
        match self {
            ErrorKindView::MessageFormat(fault) => self.text() + ": "@ + fault.text(),
            ErrorKindView::PacketTooSmall(_) => self.text(),
        }
    }
}

impl ErrorKind {
    pub fn to_string(&self) -> (text: String)
        ensures
            text@ == self@.text(),
    {
        match self {
            ErrorKind::MessageFormat(_) => String::from_str("invalid message format"),
            ErrorKind::PacketTooSmall(size) => around(
                "invalid CoAP packet size ",
                *size,
                " (minimum 4 bytes)",
            ),
        }
    }

    /// The format fault that lies behind the failure, where one does.
    pub fn source(&self) -> (fault: Option<&FormatError>)
        ensures
            match fault {
                Some(f) => self@ == ErrorKindView::MessageFormat(f@),
                None => self@ is PacketTooSmall,
            },
    {
        match self {
            ErrorKind::MessageFormat(fault) => Some(fault),
            ErrorKind::PacketTooSmall(_) => None,
        }
    }
}

impl Clone for ErrorKind {
    fn clone(&self) -> (kind: ErrorKind)
        ensures
            kind@ == self@,
    {
        match self {
            ErrorKind::MessageFormat(e) => ErrorKind::MessageFormat(e.clone()),
            ErrorKind::PacketTooSmall(n) => ErrorKind::PacketTooSmall(*n),
        }
    }
}

impl From<FormatError> for ErrorKind {
    fn from(e: FormatError) -> (kind: ErrorKind) {
        ErrorKind::MessageFormat(e)
    }
}

impl vstd::std_specs::convert::FromSpecImpl<FormatError> for ErrorKind {
    open spec fn obeys_from_spec() -> bool {
        true
    }

    open spec fn from_spec(e: FormatError) -> ErrorKind {
        ErrorKind::MessageFormat(e)
    }
}

/// A failure together with the header of the message, where one could be read.
#[derive(Debug, PartialEq, Eq)]
pub struct MessageError {
    kind: ErrorKind,
    header: Option<Header>,
}

pub struct MessageErrorView {
    pub kind: ErrorKindView,
    pub header: Option<Header>,
}

impl View for MessageError {
    type V = MessageErrorView;

    closed spec fn view(&self) -> MessageErrorView {
        MessageErrorView { kind: self.kind@, header: self.header }
    }
}

impl MessageErrorView {
    /// A format fault found before any header was read.
    pub open spec fn format(e: FormatErrorView) -> MessageErrorView {
        MessageErrorView { kind: ErrorKindView::MessageFormat(e), header: None }
    }

    /// A format fault found in a message whose header was read.
    pub open spec fn format_in(e: FormatErrorView, header: Header) -> MessageErrorView {
        MessageErrorView { kind: ErrorKindView::MessageFormat(e), header: Some(header) }
    }
}

impl MessageError {
    pub fn new(kind: ErrorKind) -> (e: MessageError)
        ensures
            e@ == (MessageErrorView { kind: kind@, header: None }),
    {
        MessageError { kind, header: None }
    }

    pub fn with_header(kind: ErrorKind, header: Header) -> (e: MessageError)
        ensures
            e@ == (MessageErrorView { kind: kind@, header: Some(header) }),
    {
        MessageError { kind, header: Some(header) }
    }

    pub fn kind(&self) -> (kind: &ErrorKind)
        ensures
            kind@ == self@.kind,
    {
        &self.kind
    }

    pub fn header(&self) -> (header: Option<&Header>)
        ensures
            header == match self@.header {
                Some(h) => Some(&h),
                None => None,
            },
    {
        self.header.as_ref()
    }

    pub fn set_header(self, header: Header) -> (e: MessageError)
        ensures
            e@ == (MessageErrorView { kind: self@.kind, header: Some(header) }),
    {
        MessageError { kind: self.kind, header: Some(header) }
    }

    /// The text of the failure: that of its kind.
    pub fn to_string(&self) -> (text: String)
        ensures
            text@ == self@.kind.text(),
    {
        self.kind.to_string()
    }

    pub fn take_header(&mut self) -> (header: Option<Header>)
        ensures
            header == old(self)@.header,
            final(self)@ == (MessageErrorView { kind: old(self)@.kind, header: None }),
    {
        self.header.take()
    }
}

impl Clone for MessageError {
    fn clone(&self) -> (e: MessageError)
        ensures
            e@ == self@,
    {
        MessageError { kind: self.kind.clone(), header: self.header }
    }
}

} // verus!
