//! The options that are registered, by name: each is one of four formats
//! with a number and bounds for the length of its value.

use super::error::{ErrorKind, FormatError, FormatErrorView, MessageError};
use super::option::Opt;
use crate::wire;
use std::ops::Range;
use std::string::FromUtf8Error;
use vstd::prelude::*;
use vstd::slice::slice_to_vec;
use vstd::string::StringSliceAdditionalSpecFns;
use vstd::utf8::{encode_utf8, valid_utf8};

verus! {

/// `std::string::FromUtf8Error`, carried from `String::from_utf8` to the
/// text of the fault.
#[verifier::external_type_specification]
#[verifier::external_body]
pub struct ExFromUtf8Error(FromUtf8Error);

/// `String::from_utf8`: the string whose bytes are `bytes`, where they are
/// valid UTF-8, and an error where they are not.
#[verifier::external_body]
fn string_from_utf8(bytes: Vec<u8>) -> (r: Result<String, FromUtf8Error>)
    ensures
        r is Ok <==> valid_utf8(bytes@),
        r matches Ok(s) ==> encode_utf8(s@) == bytes@,
{
    String::from_utf8(bytes)
}

/// The fault of a value whose length `actual` is not within `min` and `max`.
pub open spec fn out_of_bounds(min: usize, max: usize, actual: nat, fault: FormatErrorView) -> bool {
    fault == (FormatErrorView::InvalidOptionValue {
        range: Range { start: min, end: max },
        actual: actual as usize,
    })
}

fn length_fault(min: usize, max: usize, actual: usize) -> (e: MessageError)
    ensures
        e@.header is None,
        e@.kind == super::error::ErrorKindView::MessageFormat(
            FormatErrorView::InvalidOptionValue { range: Range { start: min, end: max }, actual },
        ),
{
    MessageError::new(
        ErrorKind::MessageFormat(
            FormatError::InvalidOptionValue { range: Range { start: min, end: max }, actual },
        ),
    )
}

/// An option without a value.
#[derive(Debug, PartialEq, Eq)]
pub struct EmptyOpt<const N: u16>(());

impl<const N: u16> Opt for EmptyOpt<N> {
    const NUMBER: u16 = N;

    type Format = ();

    open spec fn wire(&self) -> Seq<u8> {
        Seq::empty()
    }

    open spec fn holds(&self, value: ()) -> bool {
        true
    }

    open spec fn accepts(bytes: Seq<u8>) -> bool {
        bytes.len() == 0
    }

    open spec fn stands_for(&self, bytes: Seq<u8>) -> bool {
        true
    }

    open spec fn refuses(bytes: Seq<u8>, fault: FormatErrorView) -> bool {
        out_of_bounds(0, 0, bytes.len(), fault)
    }

    fn new(value: ()) -> (opt: Self) {
        EmptyOpt(value)
    }

    fn from_bytes(bytes: &[u8]) -> (r: Result<Self, MessageError>) {
        if bytes.len() == 0 {
            Ok(EmptyOpt(()))
        } else {
            Err(length_fault(0, 0, bytes.len()))
        }
    }

    fn to_bytes(&self) -> (bytes: Vec<u8>) {
        Vec::new()
    }

    fn len(&self) -> (n: usize) {
        0
    }
}

/// An option whose value is a run of bytes of `MIN` to `MAX` bytes.
#[derive(Debug, PartialEq, Eq)]
pub struct OpaqueOpt<const N: u16, const MIN: usize, const MAX: usize>(Vec<u8>);

impl<const N: u16, const MIN: usize, const MAX: usize> View for OpaqueOpt<N, MIN, MAX> {
    type V = Seq<u8>;

    closed spec fn view(&self) -> Seq<u8> {
        self.0@
    }
}

impl<const N: u16, const MIN: usize, const MAX: usize> OpaqueOpt<N, MIN, MAX> {
    /// The bytes of the value.
    pub fn val(&self) -> (bytes: &[u8])
        ensures
            bytes@ == self@,
    {
        self.0.as_slice()
    }
}

impl<const N: u16, const MIN: usize, const MAX: usize> Opt for OpaqueOpt<N, MIN, MAX> {
    const NUMBER: u16 = N;

    type Format = Vec<u8>;

    open spec fn wire(&self) -> Seq<u8> {
        self@
    }

    open spec fn holds(&self, value: Vec<u8>) -> bool {
        self@ == value@
    }

    open spec fn accepts(bytes: Seq<u8>) -> bool {
        MIN <= bytes.len() <= MAX
    }

    open spec fn stands_for(&self, bytes: Seq<u8>) -> bool {
        self@ == bytes
    }

    open spec fn refuses(bytes: Seq<u8>, fault: FormatErrorView) -> bool {
        out_of_bounds(MIN, MAX, bytes.len(), fault)
    }

    fn new(value: Vec<u8>) -> (opt: Self) {
        OpaqueOpt(value)
    }

    fn from_bytes(bytes: &[u8]) -> (r: Result<Self, MessageError>) {
        let len: usize = bytes.len();
        if len >= MIN && len <= MAX {
            Ok(OpaqueOpt(slice_to_vec(bytes)))
        } else {
            Err(length_fault(MIN, MAX, len))
        }
    }

    fn to_bytes(&self) -> (bytes: Vec<u8>) {
        slice_to_vec(self.0.as_slice())
    }

    fn len(&self) -> (n: usize) {
        self.0.len()
    }
}

/// An option whose value is a text of `MIN` to `MAX` bytes in UTF-8.
#[derive(Debug, PartialEq, Eq)]
pub struct StringOpt<const N: u16, const MIN: usize, const MAX: usize>(String);

impl<const N: u16, const MIN: usize, const MAX: usize> View for StringOpt<N, MIN, MAX> {
    type V = Seq<char>;

    closed spec fn view(&self) -> Seq<char> {
        self.0@
    }
}

impl<const N: u16, const MIN: usize, const MAX: usize> StringOpt<N, MIN, MAX> {
    /// The text of the value.
    pub fn val(&self) -> (text: &str)
        ensures
            text@ == self@,
    {
        self.0.as_str()
    }
}

impl<const N: u16, const MIN: usize, const MAX: usize> Opt for StringOpt<N, MIN, MAX> {
    const NUMBER: u16 = N;

    type Format = String;

    open spec fn wire(&self) -> Seq<u8> {
        encode_utf8(self@)
    }

    open spec fn holds(&self, value: String) -> bool {
        self@ == value@
    }

    open spec fn accepts(bytes: Seq<u8>) -> bool {
        MIN <= bytes.len() <= MAX && valid_utf8(bytes)
    }

    open spec fn stands_for(&self, bytes: Seq<u8>) -> bool {
        encode_utf8(self@) == bytes
    }

    open spec fn refuses(bytes: Seq<u8>, fault: FormatErrorView) -> bool {
        if MIN <= bytes.len() <= MAX {
            fault is InvalidOption
        } else {
            out_of_bounds(MIN, MAX, bytes.len(), fault)
        }
    }

    fn new(value: String) -> (opt: Self) {
        StringOpt(value)
    }

    fn from_bytes(bytes: &[u8]) -> (r: Result<Self, MessageError>) {
        let len: usize = bytes.len();
        if len >= MIN && len <= MAX {
            match string_from_utf8(slice_to_vec(bytes)) {
                Ok(text) => Ok(StringOpt(text)),
                Err(e) => Err(
                    MessageError::new(
                        ErrorKind::MessageFormat(FormatError::InvalidOption(e.to_string())),
                    ),
                ),
            }
        } else {
            Err(length_fault(MIN, MAX, len))
        }
    }

    fn to_bytes(&self) -> (bytes: Vec<u8>) {
        slice_to_vec(self.0.as_str().as_bytes())
    }

    fn len(&self) -> (n: usize) {
        self.0.as_str().as_bytes().len()
    }
}

/// The bytes that spell `n` with the most significant byte first and no
/// zero byte in front: none at all for zero.
pub open spec fn minimal_be(n: nat) -> Seq<u8>
    decreases n,
{
    if n == 0 {
        Seq::empty()
    } else {
        minimal_be(n / 256).push((n % 256) as u8)
    }
}

/// What `minimal_be` gives spells the number.
pub proof fn lemma_minimal_be_value(n: nat)
    ensures
        wire::be_value(minimal_be(n)) == n,
    decreases n,
{
    if n > 0 {
        lemma_minimal_be_value(n / 256);
        assert(minimal_be(n).drop_last() =~= minimal_be(n / 256));
    }
}

/// Bytes of the least length that spell a number are what `minimal_be` gives.
proof fn lemma_least_bytes_are_minimal(bytes: Seq<u8>, n: u64)
    requires
        n > 0,
        bytes.len() == wire::bytes_needed(n),
        wire::be_value(bytes) == n,
    ensures
        bytes == minimal_be(n as nat),
{
    reveal_with_fuel(wire::be_value, 9);
    reveal_with_fuel(minimal_be, 9);
    let k = bytes.len();
    lemma_unfold(bytes, n as nat, k);
}

/// Bytes that spell a number without a zero byte in front are what
/// `minimal_be` gives.
proof fn lemma_unfold(bytes: Seq<u8>, n: nat, k: nat)
    requires
        bytes.len() == k,
        wire::be_value(bytes) == n,
        k > 0 ==> bytes[0] != 0,
    ensures
        bytes == minimal_be(n),
    decreases k,
{
    if k == 0 {
        assert(bytes =~= Seq::<u8>::empty());
    } else {
        let front = bytes.drop_last();
        let last = bytes.last();
        assert(n == wire::be_value(front) * 256 + last);
        lemma_leading_byte(front);
        assert(n / 256 == wire::be_value(front) && n % 256 == last as nat);
        if k > 1 {
            assert(front[0] == bytes[0]);
        }
        lemma_unfold(front, n / 256, (k - 1) as nat);
        assert(n > 0) by {
            if k == 1 {
                assert(last == bytes[0]);
            } else {
                lemma_leading_byte(front);
            }
        }
        assert(bytes =~= front.push(last));
    }
}

/// The least number of bytes that spell `n`: none for zero.
pub open spec fn spec_width(n: u64) -> nat {
    if n == 0 {
        0
    } else {
        wire::bytes_needed(n)
    }
}

/// An option whose value is a number, spelled in at most `MAX` bytes.
#[derive(Clone, Copy, Debug, PartialEq, Eq)]
pub struct UintOpt<const N: u16, const MAX: usize>(u64);

impl<const N: u16, const MAX: usize> View for UintOpt<N, MAX> {
    type V = u64;

    closed spec fn view(&self) -> u64 {
        self.0
    }
}

impl<const N: u16, const MAX: usize> UintOpt<N, MAX> {
    /// The number.
    pub fn val(&self) -> (n: u64)
        ensures
            n == self@,
    {
        self.0
    }
}

/// The least number of bytes that spell `n`, as `spec_width` says.
fn width(n: u64) -> (k: usize)
    ensures
        k == spec_width(n),
        k <= 8,
{
    if n == 0 {
        0
    } else if n < 0x100 {
        1
    } else if n < 0x1_0000 {
        2
    } else if n < 0x100_0000 {
        3
    } else if n < 0x1_0000_0000 {
        4
    } else if n < 0x100_0000_0000 {
        5
    } else if n < 0x1_0000_0000_0000 {
        6
    } else if n < 0x100_0000_0000_0000 {
        7
    } else {
        8
    }
}

impl<const N: u16, const MAX: usize> Opt for UintOpt<N, MAX> {
    const NUMBER: u16 = N;

    type Format = u64;

    open spec fn wire(&self) -> Seq<u8> {
        minimal_be(self@ as nat)
    }

    open spec fn holds(&self, value: u64) -> bool {
        self@ == value
    }

    open spec fn accepts(bytes: Seq<u8>) -> bool {
        bytes.len() <= MAX && bytes.len() <= 8
    }

    open spec fn stands_for(&self, bytes: Seq<u8>) -> bool {
        self@ == wire::be_value(bytes)
    }

    open spec fn refuses(bytes: Seq<u8>, fault: FormatErrorView) -> bool {
        out_of_bounds(0, if MAX <= 8 { MAX } else { 8 }, bytes.len(), fault)
    }

    fn new(value: u64) -> (opt: Self) {
        UintOpt(value)
    }

    fn from_bytes(bytes: &[u8]) -> (r: Result<Self, MessageError>) {
        let len: usize = bytes.len();
        let max: usize = if MAX <= 8 { MAX } else { 8 };
        if len > max {
            return Err(length_fault(0, max, len));
        }
        if len == 0 {
            assert(wire::be_value(bytes@) == 0);
            return Ok(UintOpt(0));
        }
        let n: u64 = wire::read_uint(bytes, len);
        assert(bytes@.subrange(0, len as int) =~= bytes@);
        Ok(UintOpt(n))
    }

    fn to_bytes(&self) -> (bytes: Vec<u8>) {
        let k: usize = width(self.0);
        if k == 0 {
            return Vec::new();
        }
        let bytes = wire::write_uint(self.0, k);
        proof {
            lemma_least_bytes_are_minimal(bytes@, self.0);
        }
        bytes
    }

    fn len(&self) -> (n: usize) {
        proof {
            lemma_minimal_be_width(self.0);
        }
        width(self.0)
    }
}

/// What `minimal_be` gives has the least length.
proof fn lemma_minimal_be_width(n: u64)
    ensures
        minimal_be(n as nat).len() == spec_width(n),
{
    reveal_with_fuel(minimal_be, 10);
}

/// Bytes that do not start with a zero byte spell more than zero.
proof fn lemma_leading_byte(bytes: Seq<u8>)
    ensures
        bytes.len() > 0 && bytes[0] != 0 ==> wire::be_value(bytes) > 0,
        wire::be_value(bytes) >= 0,
    decreases bytes.len(),
{
    if bytes.len() > 1 {
        lemma_leading_byte(bytes.drop_last());
        assert(bytes.drop_last()[0] == bytes[0]);
    } else if bytes.len() == 1 {
        assert(bytes.drop_last() =~= Seq::<u8>::empty());
        assert(bytes.last() == bytes[0]);
    }
}

pub type IfMatch = OpaqueOpt<1, 0, 9>;

pub type UriHost = StringOpt<3, 1, 8>;

pub type ETag = OpaqueOpt<4, 0, 8>;

pub type IfNoneMatch = EmptyOpt<5>;

pub type Observe = UintOpt<6, 4>;

pub type UriPort = UintOpt<7, 2>;

pub type LocationPath = StringOpt<8, 0, 255>;

pub type UriPath = StringOpt<11, 0, 255>;

pub type ContentFormat = UintOpt<12, 2>;

pub type MaxAge = UintOpt<14, 4>;

pub type UriQuery = StringOpt<15, 0, 255>;

pub type Accept = UintOpt<17, 2>;

pub type LocationQuery = StringOpt<20, 0, 255>;

pub type ProxyUri = StringOpt<35, 1, 1034>;

pub type ProxyScheme = StringOpt<39, 1, 255>;

pub type Size1 = UintOpt<60, 4>;

pub type NoResponse = UintOpt<284, 4>;

} // verus!
