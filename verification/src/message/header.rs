//! The four-byte header that opens every message.

use super::code::RawCode;
use super::error::{ErrorKind, FormatError, FormatErrorView, MessageError, MessageErrorView};
use crate::params::VERSION;
use crate::wire;
use vstd::slice::slice_subrange;
use crate::text::{hex, spec_hex};
use vstd::prelude::*;
use vstd::string::StringExecFns;

verus! {

/// The four message types and the two bits that stand for each.
#[derive(Clone, Copy, Debug, PartialEq, Eq, Structural)]
pub enum MessageType {
    Confirmable,
    NonConfirmable,
    Acknowledgement,
    Reset,
}

impl MessageType {
    /// The number of a message type: 0 to 3.
    pub open spec fn spec_as_u8(self) -> u8 {
        match self {
            MessageType::Confirmable => 0,
            MessageType::NonConfirmable => 1,
            MessageType::Acknowledgement => 2,
            MessageType::Reset => 3,
        }
    }

    /// The message type that the lower two bits of `v` stand for.
    pub open spec fn spec_from_u8(v: u8) -> MessageType {
        let bits = v & 0b11;
        if bits == 0 {
            MessageType::Confirmable
        } else if bits == 1 {
            MessageType::NonConfirmable
        } else if bits == 2 {
            MessageType::Acknowledgement
        } else {
            MessageType::Reset
        }
    }

    pub fn from_u8(v: &u8) -> (mtype: MessageType)
        ensures
            mtype == MessageType::spec_from_u8(*v),
            mtype.spec_as_u8() == *v & 0b11,
    {
        let bits: u8 = *v & 0b11;
        assert(*v & 0b11 <= 3) by (bit_vector);
        if bits == 0 {
            MessageType::Confirmable
        } else if bits == 1 {
            MessageType::NonConfirmable
        } else if bits == 2 {
            MessageType::Acknowledgement
        } else {
            MessageType::Reset
        }
    }

    pub fn as_u8(&self) -> (v: u8)
        ensures
            v == self.spec_as_u8(),
            v <= 3,
    {
        match self {
            MessageType::Confirmable => 0,
            MessageType::NonConfirmable => 1,
            MessageType::Acknowledgement => 2,
            MessageType::Reset => 3,
        }
    }

    /// The three letters that stand for a message type.
    pub open spec fn spec_text(self) -> Seq<char> {
        match self {
            MessageType::Confirmable => "CON"@,
            MessageType::NonConfirmable => "NON"@,
            MessageType::Acknowledgement => "ACK"@,
            MessageType::Reset => "RST"@,
        }
    }

    pub fn to_string(&self) -> (text: String)
        ensures
            text@ == self.spec_text(),
    {
        match self {
            MessageType::Confirmable => String::from_str("CON"),
            MessageType::NonConfirmable => String::from_str("NON"),
            MessageType::Acknowledgement => String::from_str("ACK"),
            MessageType::Reset => String::from_str("RST"),
        }
    }

    /// A message type is the type that its own number stands for.
    pub proof fn lemma_type_roundtrip(mtype: MessageType)
        ensures
            MessageType::spec_from_u8(mtype.spec_as_u8()) == mtype,
    {
        assert(0u8 & 0b11 == 0) by (bit_vector);
        assert(1u8 & 0b11 == 1) by (bit_vector);
        assert(2u8 & 0b11 == 2) by (bit_vector);
        assert(3u8 & 0b11 == 3) by (bit_vector);
    }
}

/// The fixed part of a message.
#[derive(Clone, Copy, Debug, PartialEq, Eq, Structural)]
pub struct Header {
    pub version: u8,
    pub mtype: MessageType,
    pub tkl: usize,
    pub code: RawCode,
    pub message_id: u16,
}

/// The first header byte: `version << 6 | type << 4 | tkl`.
pub open spec fn spec_first_byte(version: u8, mtype: MessageType, tkl: u8) -> u8 {
    (version << 6) | (mtype.spec_as_u8() << 4) | tkl
}

impl Header {
    /// A header that can be written and read back: version 1, a token length
    /// of at most eight, and a code whose parts fit their bit fields.
    pub open spec fn well_formed(self) -> bool {
        &&& self.version == VERSION
        &&& self.tkl <= 8
        &&& self.code.in_range()
    }

    /// The four bytes of a header whose token length is at most eight.
    pub open spec fn spec_to_bytes(self) -> Seq<u8> {
        seq![
            spec_first_byte(self.version, self.mtype, self.tkl as u8),
            self.code.spec_as_u8(),
            (self.message_id / 256) as u8,
            (self.message_id % 256) as u8,
        ]
    }

    /// The header that the first four bytes of `bytes` spell, whatever the
    /// version and the token length they give.
    pub open spec fn spec_parse(bytes: Seq<u8>) -> Header {
        Header {
            version: bytes[0] >> 6,
            mtype: MessageType::spec_from_u8(bytes[0] >> 4),
            tkl: (bytes[0] & 0x0F) as usize,
            code: RawCode::spec_from_u8(bytes[1]),
            message_id: (bytes[2] * 256 + bytes[3]) as u16,
        }
    }

    /// What reading a header from at least four bytes gives: the header, or
    /// the fault found. An unknown version leaves no header behind; a
    /// reserved token length comes with the header that was read.
    pub open spec fn spec_from_bytes(bytes: Seq<u8>) -> Result<Header, MessageErrorView> {
        let header = Header::spec_parse(bytes);
        if header.version != VERSION {
            Err(MessageErrorView::format(FormatErrorView::UnknownVersion(header.version)))
        } else if header.tkl > 8 {
            Err(
                MessageErrorView::format_in(
                    FormatErrorView::InvalidTokenLength(header.tkl),
                    header,
                ),
            )
        } else {
            Ok(header)
        }
    }

    /// The text of a header: type, code, and message id in hexadecimal.
    pub open spec fn spec_text(self) -> Seq<char> {
        "(T="@ + self.mtype.spec_text() + ", Code="@ + self.code.spec_text() + ", MID=0x"@
            + spec_hex(self.message_id as nat) + ")"@
    }

    pub fn to_string(&self) -> (text: String)
        ensures
            text@ == self.spec_text(),
    {
        let mut text = String::from_str("(T=");
        text.append(self.mtype.to_string().as_str());
        text.append(", Code=");
        text.append(self.code.to_string().as_str());
        text.append(", MID=0x");
        text.append(hex(self.message_id as u64).as_str());
        text.append(")");
        text
    }

    pub fn new(message_type: MessageType, tkl: usize, code: RawCode, message_id: u16) -> (header:
        Header)
        ensures
            header == (Header { version: VERSION, mtype: message_type, tkl, code, message_id }),
    {
        Header { version: VERSION, mtype: message_type, tkl, code, message_id }
    }

    pub fn message_type(&self) -> (mtype: MessageType)
        ensures
            mtype == self.mtype,
    {
        self.mtype
    }

    pub fn tkl(&self) -> (tkl: usize)
        ensures
            tkl == self.tkl,
    {
        self.tkl
    }

    pub fn code(&self) -> (code: RawCode)
        ensures
            code == self.code,
    {
        self.code
    }

    pub fn message_id(&self) -> (message_id: u16)
        ensures
            message_id == self.message_id,
    {
        self.message_id
    }

    /// Reads the header at the start of `bytes`.
    pub fn from_bytes(bytes: &[u8]) -> (r: Result<Header, MessageError>)
        requires
            bytes@.len() >= 4,
        ensures
            match r {
                Ok(header) => Header::spec_from_bytes(bytes@) == Ok::<Header, MessageErrorView>(
                    header,
                ) && header.well_formed(),
                Err(e) => Header::spec_from_bytes(bytes@) == Err::<Header, MessageErrorView>(e@),
            },
    {
        let b0: u8 = bytes[0];
        let version: u8 = b0 >> 6;
        let mtype = MessageType::from_u8(&(b0 >> 4));
        let tkl: usize = (b0 & 0x0F) as usize;
        let code = RawCode::from_u8(bytes[1]);
        let mid: u16 = wire::read_u16(slice_subrange(bytes, 2, 4));
        let header = Header { version, mtype, tkl, code, message_id: mid };
        assert(header == Header::spec_parse(bytes@));
        if version != VERSION {
            return Err(
                MessageError::new(ErrorKind::MessageFormat(FormatError::UnknownVersion(version))),
            );
        }
        if tkl > 8 {
            return Err(
                MessageError::with_header(
                    ErrorKind::MessageFormat(FormatError::InvalidTokenLength(tkl)),
                    header,
                ),
            );
        }
        Ok(header)
    }

    /// Writes the header as four bytes. A token length above eight cannot be written.
    pub fn to_bytes(&self) -> (r: Result<[u8; 4], MessageError>)
        ensures
            match r {
                Ok(buf) => self.tkl <= 8 && buf@ == self.spec_to_bytes(),
                Err(e) => self.tkl > 8 && e@ == MessageErrorView::format(
                    FormatErrorView::InvalidTokenLength(self.tkl),
                ),
            },
    {
        if self.tkl > 8 {
            return Err(
                MessageError::new(
                    ErrorKind::MessageFormat(FormatError::InvalidTokenLength(self.tkl)),
                ),
            );
        }
        let mid = wire::write_u16(self.message_id);
        let b0: u8 = (self.version << 6) | (self.mtype.as_u8() << 4) | (self.tkl as u8);
        let buf: [u8; 4] = [b0, self.code.as_u8(), mid[0], mid[1]];
        assert(buf@ =~= self.spec_to_bytes());
        Ok(buf)
    }
}

} // verus!
