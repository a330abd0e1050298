//! Message codes: the raw `class.detail` pair, request methods and response codes.

use crate::text::{decimal, spec_decimal, spec_two_digits, two_digits};
use vstd::prelude::*;
use vstd::string::StringExecFns;

verus! {

/// Why a raw code could not be read as a method or as a response code.
#[derive(Clone, Copy, Debug, PartialEq, Eq, Structural)]
pub enum Error {
    /// The class of a method must be 0; carries the class that was found.
    InvalidMethod(u8),
    /// The class of a response code must be 2, 4 or 5; carries the class that was found.
    InvalidResponseCode(u8),
}

impl Error {
    /// The text of the error.
    pub open spec fn spec_text(self) -> Seq<char> {
        match self {
            Error::InvalidMethod(class) => "invalid method class (expected 0, got "@
                + spec_decimal(class as nat) + ")"@,
            Error::InvalidResponseCode(class) => "invalid response code class (expected 2, 4 or 5, got "@
                + spec_decimal(class as nat) + ")"@,
        }
    }

    pub fn to_string(&self) -> (text: String)
        ensures
            text@ == self.spec_text(),
    {
        let (mut text, class) = match self {
            Error::InvalidMethod(class) => (
                String::from_str("invalid method class (expected 0, got "),
                *class,
            ),
            Error::InvalidResponseCode(class) => (
                String::from_str("invalid response code class (expected 2, 4 or 5, got "),
                *class,
            ),
        };
        text.append(decimal(class as u64).as_str());
        text.append(")");
        text
    }
}

/// A code as it stands in the header: class (three bits) and detail (five bits).
#[derive(Clone, Copy, Debug, PartialEq, Eq, Structural)]
pub struct RawCode(pub u8, pub u8);

/// The class of a code byte: its upper three bits.
pub open spec fn spec_code_class(raw: u8) -> u8 {
    raw >> 5
}

/// The detail of a code byte: its lower five bits.
pub open spec fn spec_code_detail(raw: u8) -> u8 {
    raw & 0x1F
}

pub fn code_class(raw: u8) -> (class: u8)
    ensures
        class == spec_code_class(raw),
        class <= 7,
{
    assert(raw >> 5 <= 7) by (bit_vector);
    raw >> 5
}

pub fn code_detail(raw: u8) -> (detail: u8)
    ensures
        detail == spec_code_detail(raw),
        detail <= 31,
{
    assert(raw & 0x1F <= 31) by (bit_vector);
    raw & 0x1F
}

impl RawCode {
    /// Class and detail both fit their bit fields.
    pub open spec fn in_range(self) -> bool {
        self.0 <= 7 && self.1 <= 31
    }

    /// The code split out of a header byte.
    pub open spec fn spec_from_u8(raw: u8) -> RawCode {
        RawCode(spec_code_class(raw), spec_code_detail(raw))
    }

    /// The header byte of a code: `class << 5 | detail`.
    pub open spec fn spec_as_u8(self) -> u8 {
        (self.0 << 5) | self.1
    }

    #[inline(always)]
    pub fn class(&self) -> (class: u8)
        ensures
            class == self.0,
    {
        self.0
    }

    #[inline(always)]
    pub fn detail(&self) -> (detail: u8)
        ensures
            detail == self.1,
    {
        self.1
    }

    pub fn from_u8(raw: u8) -> (code: RawCode)
        ensures
            code == RawCode::spec_from_u8(raw),
            code.in_range(),
    {
        RawCode(code_class(raw), code_detail(raw))
    }

    #[inline(always)]
    pub fn as_u8(&self) -> (raw: u8)
        ensures
            raw == self.spec_as_u8(),
    {
        (self.0 << 5) | self.1
    }

    /// The text of a code: the class, a dot, and the detail in two digits.
    pub open spec fn spec_text(self) -> Seq<char> {
        spec_decimal(self.0 as nat) + "."@ + spec_two_digits(self.1 as nat)
    }

    pub fn to_string(&self) -> (text: String)
        ensures
            text@ == self.spec_text(),
    {
        let mut text = decimal(self.0 as u64);
        text.append(".");
        text.append(two_digits(self.1).as_str());
        text
    }

    /// Splitting a byte and joining it again gives the byte back.
    pub proof fn lemma_byte_roundtrip(raw: u8)
        ensures
            RawCode::spec_from_u8(raw).spec_as_u8() == raw,
            RawCode::spec_from_u8(raw).in_range(),
    {
        assert(((raw >> 5) << 5) | (raw & 0x1F) == raw) by (bit_vector);
        assert(raw >> 5 <= 7) by (bit_vector);
        assert(raw & 0x1F <= 31) by (bit_vector);
    }

    /// Joining a code whose parts fit their fields and splitting the byte
    /// gives the code back.
    pub proof fn lemma_code_roundtrip(code: RawCode)
        requires
            code.in_range(),
        ensures
            RawCode::spec_from_u8(code.spec_as_u8()) == code,
    {
        let c = code.0;
        let d = code.1;
        assert(c <= 7 && d <= 31 ==> ((c << 5) | d) >> 5 == c) by (bit_vector);
        assert(c <= 7 && d <= 31 ==> ((c << 5) | d) & 0x1F == d) by (bit_vector);
    }
}

/// A request method. `Unknown` carries the detail of a class-0 code that has no name.
#[derive(Clone, Copy, Debug, PartialEq, Eq, Structural)]
pub enum Method {
    Get,
    Post,
    Put,
    Delete,
    Unknown(u8),
}

impl Method {
    /// The code that stands for this method: class 0 and the method's detail.
    pub open spec fn spec_as_raw_code(self) -> RawCode {
        match self {
            Method::Get => RawCode(0, 1),
            Method::Post => RawCode(0, 2),
            Method::Put => RawCode(0, 3),
            Method::Delete => RawCode(0, 4),
            Method::Unknown(dd) => RawCode(0, dd),
        }
    }

    /// A method is canonical when `Unknown` is used only for a detail without a name.
    pub open spec fn canonical(self) -> bool {
        self matches Method::Unknown(dd) ==> dd > 4
    }

    /// The method that a raw code stands for, if it stands for one:
    /// class 0 and a detail other than 0.
    pub open spec fn spec_from_raw_code(raw: RawCode) -> Result<Method, Error> {
        if raw.0 != 0 || raw.1 == 0 {
            Err(Error::InvalidMethod(raw.0))
        } else if raw.1 == 1 {
            Ok(Method::Get)
        } else if raw.1 == 2 {
            Ok(Method::Post)
        } else if raw.1 == 3 {
            Ok(Method::Put)
        } else if raw.1 == 4 {
            Ok(Method::Delete)
        } else {
            Ok(Method::Unknown(raw.1))
        }
    }

    pub fn as_raw_code(&self) -> (raw: RawCode)
        ensures
            raw == self.spec_as_raw_code(),
    {
        match self {
            Method::Get => RawCode(0, 1),
            Method::Post => RawCode(0, 2),
            Method::Put => RawCode(0, 3),
            Method::Delete => RawCode(0, 4),
            Method::Unknown(dd) => RawCode(0, *dd),
        }
    }

    pub fn from_raw_code(raw_code: RawCode) -> (r: Result<Method, Error>)
        ensures
            r == Method::spec_from_raw_code(raw_code),
            r is Ok <==> raw_code.0 == 0 && raw_code.1 != 0,
            r matches Ok(m) ==> m.canonical() && m.spec_as_raw_code() == raw_code,
            r matches Err(e) ==> e == Error::InvalidMethod(raw_code.0),
    {
        if raw_code.0 != 0 || raw_code.1 == 0 {
            return Err(Error::InvalidMethod(raw_code.0));
        }
        let dd: u8 = raw_code.1;
        if dd == 1 {
            Ok(Method::Get)
        } else if dd == 2 {
            Ok(Method::Post)
        } else if dd == 3 {
            Ok(Method::Put)
        } else if dd == 4 {
            Ok(Method::Delete)
        } else {
            Ok(Method::Unknown(dd))
        }
    }

    /// The text of a method: its name, or its code where it has none.
    pub open spec fn spec_text(self) -> Seq<char> {
        match self {
            Method::Get => "GET"@,
            Method::Post => "POST"@,
            Method::Put => "PUT"@,
            Method::Delete => "DELETE"@,
            Method::Unknown(_) => self.spec_as_raw_code().spec_text() + " UNKNOWN"@,
        }
    }

    pub fn to_string(&self) -> (text: String)
        ensures
            text@ == self.spec_text(),
    {
        match self {
            Method::Get => String::from_str("GET"),
            Method::Post => String::from_str("POST"),
            Method::Put => String::from_str("PUT"),
            Method::Delete => String::from_str("DELETE"),
            Method::Unknown(_) => {
                let mut text = self.as_raw_code().to_string();
                text.append(" UNKNOWN");
                text
            },
        }
    }

    /// Reading the code of a canonical method gives the method back,
    /// unless it is `Unknown(0)`, whose code 0.00 marks an empty message.
    pub proof fn lemma_method_roundtrip(m: Method)
        requires
            m.canonical(),
            m != Method::Unknown(0),
        ensures
            Method::spec_from_raw_code(m.spec_as_raw_code()) == Ok::<Method, Error>(m),
    {
    }
}

impl Default for Method {
    fn default() -> (m: Method)
        ensures
            m == Method::Get,
    {
        Method::Get
    }
}

/// The named details of class 2.
#[derive(Clone, Copy, Debug, PartialEq, Eq, Structural)]
pub enum SuccessCode {
    Created,
    Deleted,
    Valid,
    Changed,
    Content,
    Unknown(u8),
}

impl SuccessCode {
    pub open spec fn spec_detail(self) -> u8 {
        match self {
            SuccessCode::Created => 1,
            SuccessCode::Deleted => 2,
            SuccessCode::Valid => 3,
            SuccessCode::Changed => 4,
            SuccessCode::Content => 5,
            SuccessCode::Unknown(dd) => dd,
        }
    }

    pub open spec fn canonical(self) -> bool {
        self matches SuccessCode::Unknown(dd) ==> !(1 <= dd <= 5)
    }
}

impl Default for SuccessCode {
    fn default() -> (c: SuccessCode)
        ensures
            c == SuccessCode::Content,
    {
        SuccessCode::Content
    }
}

/// The named details of class 4.
#[derive(Clone, Copy, Debug, PartialEq, Eq, Structural)]
pub enum ClientErrorCode {
    BadRequest,
    Unauthorized,
    BadOption,
    Forbidden,
    NotFound,
    MethodNotAllowed,
    NotAcceptable,
    PreconditionFailed,
    RequestEntityTooLarge,
    UnsupportedContentFormat,
    Unknown(u8),
}

impl ClientErrorCode {
    pub open spec fn spec_detail(self) -> u8 {
        match self {
            ClientErrorCode::BadRequest => 0,
            ClientErrorCode::Unauthorized => 1,
            ClientErrorCode::BadOption => 2,
            ClientErrorCode::Forbidden => 3,
            ClientErrorCode::NotFound => 4,
            ClientErrorCode::MethodNotAllowed => 5,
            ClientErrorCode::NotAcceptable => 6,
            ClientErrorCode::PreconditionFailed => 12,
            ClientErrorCode::RequestEntityTooLarge => 13,
            ClientErrorCode::UnsupportedContentFormat => 15,
            ClientErrorCode::Unknown(dd) => dd,
        }
    }

    pub open spec fn canonical(self) -> bool {
        self matches ClientErrorCode::Unknown(dd) ==> !(dd <= 6 || dd == 12 || dd == 13 || dd
            == 15)
    }
}

impl Default for ClientErrorCode {
    fn default() -> (c: ClientErrorCode)
        ensures
            c == ClientErrorCode::BadRequest,
    {
        ClientErrorCode::BadRequest
    }
}

/// The named details of class 5.
#[derive(Clone, Copy, Debug, PartialEq, Eq, Structural)]
pub enum ServerErrorCode {
    InternalServerError,
    NotImplemented,
    BadGateway,
    ServiceUnavailable,
    GatewayTimeout,
    ProxyingNotSupported,
    Unknown(u8),
}

impl ServerErrorCode {
    pub open spec fn spec_detail(self) -> u8 {
        match self {
            ServerErrorCode::InternalServerError => 0,
            ServerErrorCode::NotImplemented => 1,
            ServerErrorCode::BadGateway => 2,
            ServerErrorCode::ServiceUnavailable => 3,
            ServerErrorCode::GatewayTimeout => 4,
            ServerErrorCode::ProxyingNotSupported => 5,
            ServerErrorCode::Unknown(dd) => dd,
        }
    }

    pub open spec fn canonical(self) -> bool {
        self matches ServerErrorCode::Unknown(dd) ==> dd > 5
    }
}

impl Default for ServerErrorCode {
    fn default() -> (c: ServerErrorCode)
        ensures
            c == ServerErrorCode::InternalServerError,
    {
        ServerErrorCode::InternalServerError
    }
}

/// A response code: its class, and within the class a named detail or an unknown one.
#[derive(Clone, Copy, Debug, PartialEq, Eq, Structural)]
pub enum ResponseCode {
    Success(SuccessCode),
    ClientError(ClientErrorCode),
    ServerError(ServerErrorCode),
}

impl ResponseCode {
    /// The code that stands for this response code: class 2, 4 or 5 and the detail.
    pub open spec fn spec_as_raw_code(self) -> RawCode {
        match self {
            ResponseCode::Success(c) => RawCode(2, c.spec_detail()),
            ResponseCode::ClientError(c) => RawCode(4, c.spec_detail()),
            ResponseCode::ServerError(c) => RawCode(5, c.spec_detail()),
        }
    }

    /// `Unknown` is used only for a detail that has no name in its class.
    pub open spec fn canonical(self) -> bool {
        match self {
            ResponseCode::Success(c) => c.canonical(),
            ResponseCode::ClientError(c) => c.canonical(),
            ResponseCode::ServerError(c) => c.canonical(),
        }
    }

    pub fn as_raw_code(&self) -> (raw: RawCode)
        ensures
            raw == self.spec_as_raw_code(),
    {
        match self {
            ResponseCode::Success(SuccessCode::Created) => RawCode(2, 1),
            ResponseCode::Success(SuccessCode::Deleted) => RawCode(2, 2),
            ResponseCode::Success(SuccessCode::Valid) => RawCode(2, 3),
            ResponseCode::Success(SuccessCode::Changed) => RawCode(2, 4),
            ResponseCode::Success(SuccessCode::Content) => RawCode(2, 5),
            ResponseCode::Success(SuccessCode::Unknown(dd)) => RawCode(2, *dd),
            ResponseCode::ClientError(ClientErrorCode::BadRequest) => RawCode(4, 0),
            ResponseCode::ClientError(ClientErrorCode::Unauthorized) => RawCode(4, 1),
            ResponseCode::ClientError(ClientErrorCode::BadOption) => RawCode(4, 2),
            ResponseCode::ClientError(ClientErrorCode::Forbidden) => RawCode(4, 3),
            ResponseCode::ClientError(ClientErrorCode::NotFound) => RawCode(4, 4),
            ResponseCode::ClientError(ClientErrorCode::MethodNotAllowed) => RawCode(4, 5),
            ResponseCode::ClientError(ClientErrorCode::NotAcceptable) => RawCode(4, 6),
            ResponseCode::ClientError(ClientErrorCode::PreconditionFailed) => RawCode(4, 12),
            ResponseCode::ClientError(ClientErrorCode::RequestEntityTooLarge) => RawCode(4, 13),
            ResponseCode::ClientError(ClientErrorCode::UnsupportedContentFormat) => RawCode(
                4,
                15,
            ),
            ResponseCode::ClientError(ClientErrorCode::Unknown(dd)) => RawCode(4, *dd),
            ResponseCode::ServerError(ServerErrorCode::InternalServerError) => RawCode(5, 0),
            ResponseCode::ServerError(ServerErrorCode::NotImplemented) => RawCode(5, 1),
            ResponseCode::ServerError(ServerErrorCode::BadGateway) => RawCode(5, 2),
            ResponseCode::ServerError(ServerErrorCode::ServiceUnavailable) => RawCode(5, 3),
            ResponseCode::ServerError(ServerErrorCode::GatewayTimeout) => RawCode(5, 4),
            ResponseCode::ServerError(ServerErrorCode::ProxyingNotSupported) => RawCode(5, 5),
            ResponseCode::ServerError(ServerErrorCode::Unknown(dd)) => RawCode(5, *dd),
        }
    }

    /// Reads a raw code as a response code. It succeeds exactly for the classes
    /// 2, 4 and 5, and then gives the one canonical response code that the
    /// raw code stands for.
    pub fn from_raw_code(raw_code: RawCode) -> (r: Result<ResponseCode, Error>)
        ensures
            r is Ok <==> raw_code.0 == 2 || raw_code.0 == 4 || raw_code.0 == 5,
            r matches Ok(c) ==> c.canonical() && c.spec_as_raw_code() == raw_code
                && ResponseCode::spec_from_raw_code(raw_code) == Some(c),
            r matches Err(e) ==> e == Error::InvalidResponseCode(raw_code.0),
    {
        let r = ResponseCode::read(raw_code);
        proof {
            if let Ok(c) = r {
                let chosen = choose|c: ResponseCode|
                    c.canonical() && c.spec_as_raw_code() == raw_code;
                ResponseCode::lemma_raw_code_injective(c, chosen);
            }
        }
        r
    }

    fn read(raw_code: RawCode) -> (r: Result<ResponseCode, Error>)
        ensures
            r is Ok <==> raw_code.0 == 2 || raw_code.0 == 4 || raw_code.0 == 5,
            r matches Ok(c) ==> c.canonical() && c.spec_as_raw_code() == raw_code,
            r matches Err(e) ==> e == Error::InvalidResponseCode(raw_code.0),
    {
        let dd: u8 = raw_code.1;
        if raw_code.0 == 2 {
            Ok(ResponseCode::Success(
                if dd == 1 {
                    SuccessCode::Created
                } else if dd == 2 {
                    SuccessCode::Deleted
                } else if dd == 3 {
                    SuccessCode::Valid
                } else if dd == 4 {
                    SuccessCode::Changed
                } else if dd == 5 {
                    SuccessCode::Content
                } else {
                    SuccessCode::Unknown(dd)
                },
            ))
        } else if raw_code.0 == 4 {
            Ok(ResponseCode::ClientError(
                if dd == 0 {
                    ClientErrorCode::BadRequest
                } else if dd == 1 {
                    ClientErrorCode::Unauthorized
                } else if dd == 2 {
                    ClientErrorCode::BadOption
                } else if dd == 3 {
                    ClientErrorCode::Forbidden
                } else if dd == 4 {
                    ClientErrorCode::NotFound
                } else if dd == 5 {
                    ClientErrorCode::MethodNotAllowed
                } else if dd == 6 {
                    ClientErrorCode::NotAcceptable
                } else if dd == 12 {
                    ClientErrorCode::PreconditionFailed
                } else if dd == 13 {
                    ClientErrorCode::RequestEntityTooLarge
                } else if dd == 15 {
                    ClientErrorCode::UnsupportedContentFormat
                } else {
                    ClientErrorCode::Unknown(dd)
                },
            ))
        } else if raw_code.0 == 5 {
            Ok(ResponseCode::ServerError(
                if dd == 0 {
                    ServerErrorCode::InternalServerError
                } else if dd == 1 {
                    ServerErrorCode::NotImplemented
                } else if dd == 2 {
                    ServerErrorCode::BadGateway
                } else if dd == 3 {
                    ServerErrorCode::ServiceUnavailable
                } else if dd == 4 {
                    ServerErrorCode::GatewayTimeout
                } else if dd == 5 {
                    ServerErrorCode::ProxyingNotSupported
                } else {
                    ServerErrorCode::Unknown(dd)
                },
            ))
        } else {
            Err(Error::InvalidResponseCode(raw_code.0))
        }
    }

    /// The response code that a raw code stands for, where its class is
    /// 2, 4 or 5: the canonical one that has this raw code.
    pub open spec fn spec_from_raw_code(raw: RawCode) -> Option<ResponseCode> {
        if raw.0 == 2 || raw.0 == 4 || raw.0 == 5 {
            Some(choose|c: ResponseCode| c.canonical() && c.spec_as_raw_code() == raw)
        } else {
            None
        }
    }

    /// Two canonical response codes with the same raw code are the same.
    pub proof fn lemma_raw_code_injective(a: ResponseCode, b: ResponseCode)
        requires
            a.canonical(),
            b.canonical(),
            a.spec_as_raw_code() == b.spec_as_raw_code(),
        ensures
            a == b,
    {
    }
}

impl ResponseCode {
    /// The name of a response code; an unknown detail has the name "Unknown".
    pub open spec fn spec_name(self) -> Seq<char> {
        match self {
            ResponseCode::Success(SuccessCode::Created) => "Created"@,
            ResponseCode::Success(SuccessCode::Deleted) => "Deleted"@,
            ResponseCode::Success(SuccessCode::Valid) => "Valid"@,
            ResponseCode::Success(SuccessCode::Changed) => "Changed"@,
            ResponseCode::Success(SuccessCode::Content) => "Content"@,
            ResponseCode::ClientError(ClientErrorCode::BadRequest) => "Bad Request"@,
            ResponseCode::ClientError(ClientErrorCode::Unauthorized) => "Unauthorized"@,
            ResponseCode::ClientError(ClientErrorCode::BadOption) => "Bad Option"@,
            ResponseCode::ClientError(ClientErrorCode::Forbidden) => "Forbidden"@,
            ResponseCode::ClientError(ClientErrorCode::NotFound) => "Not Found"@,
            ResponseCode::ClientError(ClientErrorCode::MethodNotAllowed) => "Method Not Allowed"@,
            ResponseCode::ClientError(ClientErrorCode::NotAcceptable) => "Not Acceptable"@,
            ResponseCode::ClientError(ClientErrorCode::PreconditionFailed) => "Precondition Failed"@,
            ResponseCode::ClientError(
                ClientErrorCode::RequestEntityTooLarge,
            ) => "Request Entity Too Large"@,
            ResponseCode::ClientError(
                ClientErrorCode::UnsupportedContentFormat,
            ) => "Unsupported Content Format"@,
            ResponseCode::ServerError(
                ServerErrorCode::InternalServerError,
            ) => "Internal Server Error"@,
            ResponseCode::ServerError(ServerErrorCode::NotImplemented) => "Not Implemented"@,
            ResponseCode::ServerError(ServerErrorCode::BadGateway) => "Bad Gateway"@,
            ResponseCode::ServerError(ServerErrorCode::ServiceUnavailable) => "Service Unavailable"@,
            ResponseCode::ServerError(ServerErrorCode::GatewayTimeout) => "Gateway Timeout"@,
            ResponseCode::ServerError(
                ServerErrorCode::ProxyingNotSupported,
            ) => "Proxying Not Supported"@,
            _ => "Unknown"@,
        }
    }

    /// The text of a response code: its code and its name.
    pub open spec fn spec_text(self) -> Seq<char> {
        self.spec_as_raw_code().spec_text() + " "@ + self.spec_name()
    }

    pub fn to_string(&self) -> (text: String)
        ensures
            text@ == self.spec_text(),
    {
        let mut text = self.as_raw_code().to_string();
        text.append(" ");
        text.append(self.name());
        text
    }

    pub fn name(&self) -> (name: &'static str)
        ensures
            name@ == self.spec_name(),
    {
        match self {
            ResponseCode::Success(SuccessCode::Created) => "Created",
            ResponseCode::Success(SuccessCode::Deleted) => "Deleted",
            ResponseCode::Success(SuccessCode::Valid) => "Valid",
            ResponseCode::Success(SuccessCode::Changed) => "Changed",
            ResponseCode::Success(SuccessCode::Content) => "Content",
            ResponseCode::ClientError(ClientErrorCode::BadRequest) => "Bad Request",
            ResponseCode::ClientError(ClientErrorCode::Unauthorized) => "Unauthorized",
            ResponseCode::ClientError(ClientErrorCode::BadOption) => "Bad Option",
            ResponseCode::ClientError(ClientErrorCode::Forbidden) => "Forbidden",
            ResponseCode::ClientError(ClientErrorCode::NotFound) => "Not Found",
            ResponseCode::ClientError(ClientErrorCode::MethodNotAllowed) => "Method Not Allowed",
            ResponseCode::ClientError(ClientErrorCode::NotAcceptable) => "Not Acceptable",
            ResponseCode::ClientError(ClientErrorCode::PreconditionFailed) => "Precondition Failed",
            ResponseCode::ClientError(
                ClientErrorCode::RequestEntityTooLarge,
            ) => "Request Entity Too Large",
            ResponseCode::ClientError(
                ClientErrorCode::UnsupportedContentFormat,
            ) => "Unsupported Content Format",
            ResponseCode::ServerError(
                ServerErrorCode::InternalServerError,
            ) => "Internal Server Error",
            ResponseCode::ServerError(ServerErrorCode::NotImplemented) => "Not Implemented",
            ResponseCode::ServerError(ServerErrorCode::BadGateway) => "Bad Gateway",
            ResponseCode::ServerError(ServerErrorCode::ServiceUnavailable) => "Service Unavailable",
            ResponseCode::ServerError(ServerErrorCode::GatewayTimeout) => "Gateway Timeout",
            ResponseCode::ServerError(
                ServerErrorCode::ProxyingNotSupported,
            ) => "Proxying Not Supported",
            ResponseCode::Success(SuccessCode::Unknown(_))
            | ResponseCode::ClientError(ClientErrorCode::Unknown(_))
            | ResponseCode::ServerError(ServerErrorCode::Unknown(_)) => "Unknown",
        }
    }
}

impl From<u8> for RawCode {
    fn from(raw: u8) -> (code: RawCode) {
        RawCode::from_u8(raw)
    }
}

impl vstd::std_specs::convert::FromSpecImpl<u8> for RawCode {
    open spec fn obeys_from_spec() -> bool {
        true
    }

    open spec fn from_spec(raw: u8) -> RawCode {
        RawCode::spec_from_u8(raw)
    }
}

impl From<(u8, u8)> for RawCode {
    fn from(pair: (u8, u8)) -> (code: RawCode) {
        RawCode(pair.0, pair.1)
    }
}

impl vstd::std_specs::convert::FromSpecImpl<(u8, u8)> for RawCode {
    open spec fn obeys_from_spec() -> bool {
        true
    }

    open spec fn from_spec(pair: (u8, u8)) -> RawCode {
        RawCode(pair.0, pair.1)
    }
}

impl From<SuccessCode> for ResponseCode {
    fn from(code: SuccessCode) -> (res: ResponseCode) {
        ResponseCode::Success(code)
    }
}

impl vstd::std_specs::convert::FromSpecImpl<SuccessCode> for ResponseCode {
    open spec fn obeys_from_spec() -> bool {
        true
    }

    open spec fn from_spec(code: SuccessCode) -> ResponseCode {
        ResponseCode::Success(code)
    }
}

impl From<ClientErrorCode> for ResponseCode {
    fn from(code: ClientErrorCode) -> (res: ResponseCode) {
        ResponseCode::ClientError(code)
    }
}

impl vstd::std_specs::convert::FromSpecImpl<ClientErrorCode> for ResponseCode {
    open spec fn obeys_from_spec() -> bool {
        true
    }

    open spec fn from_spec(code: ClientErrorCode) -> ResponseCode {
        ResponseCode::ClientError(code)
    }
}

impl From<ServerErrorCode> for ResponseCode {
    fn from(code: ServerErrorCode) -> (res: ResponseCode) {
        ResponseCode::ServerError(code)
    }
}

impl vstd::std_specs::convert::FromSpecImpl<ServerErrorCode> for ResponseCode {
    open spec fn obeys_from_spec() -> bool {
        true
    }

    open spec fn from_spec(code: ServerErrorCode) -> ResponseCode {
        ResponseCode::ServerError(code)
    }
}

impl Default for ResponseCode {
    fn default() -> (c: ResponseCode)
        ensures
            c == ResponseCode::Success(SuccessCode::Content),
    {
        ResponseCode::Success(SuccessCode::Content)
    }
}

} // verus!
