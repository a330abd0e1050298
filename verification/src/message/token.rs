//! The token of a message: zero to eight opaque bytes, held in a fixed-capacity vector.

use arrayvec::ArrayVec;
use std::iter::FromIterator;
use crate::text::{hex, spec_hex};
use vstd::prelude::*;
use vstd::string::StringExecFns;

verus! {

/// The most bytes a token can hold.
pub const MAX_TOKEN_LEN: usize = 8;

/// A token: the bytes that tie a response to its request. They live in an
/// `ArrayVec` of capacity eight, which the verifier does not look into.
#[verifier::external_body]
#[derive(Debug)]
pub struct Token(ArrayVec<[u8; 8]>);

/// The bytes that a token holds, first to last.
pub uninterp spec fn token_bytes(token: Token) -> Seq<u8>;

impl View for Token {
    type V = Seq<u8>;

    open spec fn view(&self) -> Seq<u8> {
        token_bytes(*self)
    }
}

/// The bytes in hexadecimal, one behind the other, none of them padded.
pub open spec fn spec_hex_bytes(bytes: Seq<u8>) -> Seq<char>
    decreases bytes.len(),
{
    if bytes.len() == 0 {
        Seq::empty()
    } else {
        spec_hex_bytes(bytes.drop_last()) + spec_hex(bytes.last() as nat)
    }
}

impl Token {
    /// The text of a token: "NULL" for the empty one, else its bytes in
    /// hexadecimal behind "0x".
    pub open spec fn spec_text(bytes: Seq<u8>) -> Seq<char> {
        if bytes.len() == 0 {
            "NULL"@
        } else {
            "0x"@ + spec_hex_bytes(bytes)
        }
    }

    pub fn to_string(&self) -> (text: String)
        ensures
            text@ == Token::spec_text(self@),
    {
        let bytes = self.to_bytes();
        if bytes.len() == 0 {
            return String::from_str("NULL");
        }
        let mut text = String::from_str("0x");
        let mut i: usize = 0;
        assert(bytes@.subrange(0, 0) =~= Seq::<u8>::empty());
        assert("0x"@ + Seq::<char>::empty() =~= "0x"@);
        while i < bytes.len()
            invariant
                i <= bytes@.len(),
                text@ == "0x"@ + spec_hex_bytes(bytes@.subrange(0, i as int)),
            decreases bytes@.len() - i,
        {
            text.append(hex(bytes[i] as u64).as_str());
            proof {
                let next = bytes@.subrange(0, i + 1);
                assert(next.drop_last() =~= bytes@.subrange(0, i as int));
                assert(next.last() == bytes@[i as int]);
                assert(text@ =~= "0x"@ + spec_hex_bytes(next));
            }
            i += 1;
        }
        assert(bytes@.subrange(0, i as int) =~= bytes@);
        text
    }

    /// The bytes a token built from `bytes` holds: the first eight of them.
    pub open spec fn spec_new(bytes: Seq<u8>) -> Seq<u8> {
        if bytes.len() <= 8 {
            bytes
        } else {
            bytes.subrange(0, 8)
        }
    }

    /// `ArrayVec::from_iter` over the bytes of a slice: the vector takes items
    /// while it has room and leaves the rest, so the token holds the first
    /// eight bytes of a longer slice and all of a shorter one.
    #[verifier::external_body]
    pub fn new(bytes: &[u8]) -> (token: Token)
        ensures
            token_bytes(token) == Token::spec_new(bytes@),
    {
        Token(ArrayVec::from_iter(bytes.iter().cloned()))
    }

    /// `ArrayVec::new`: a token that holds nothing.
    #[verifier::external_body]
    pub fn empty() -> (token: Token)
        ensures
            token_bytes(token) == Seq::<u8>::empty(),
    {
        Token(ArrayVec::new())
    }

    /// `ArrayVec::len`: the number of bytes held, never more than the capacity.
    #[verifier::external_body]
    pub fn len(&self) -> (n: usize)
        ensures
            n == token_bytes(*self).len(),
            n <= 8,
    {
        self.0.len()
    }

    /// `ArrayVec::as_slice`: the bytes held, never more than the capacity.
    #[verifier::external_body]
    pub fn to_bytes(&self) -> (bytes: &[u8])
        ensures
            bytes@ == token_bytes(*self),
            bytes@.len() <= 8,
    {
        self.0.as_slice()
    }
}

impl PartialEq for Token {
    /// Two tokens are equal when they hold the same bytes.
    fn eq(&self, other: &Token) -> (equal: bool) {
        let a = self.to_bytes();
        let b = other.to_bytes();
        if a.len() != b.len() {
            return false;
        }
        let mut i: usize = 0;
        while i < a.len()
            invariant
                i <= a@.len(),
                a@.len() == b@.len(),
                a@ == token_bytes(*self),
                b@ == token_bytes(*other),
                forall|k: int| 0 <= k < i ==> a@[k] == b@[k],
            decreases a@.len() - i,
        {
            if a[i] != b[i] {
                assert(a@[i as int] != b@[i as int]);
                return false;
            }
            i += 1;
        }
        assert(a@ =~= b@);
        true
    }
}

impl vstd::std_specs::cmp::PartialEqSpecImpl for Token {
    open spec fn obeys_eq_spec() -> bool {
        true
    }

    open spec fn eq_spec(&self, other: &Token) -> bool {
        token_bytes(*self) == token_bytes(*other)
    }
}

impl Eq for Token {

}

impl Clone for Token {
    /// `ArrayVec::clone`: a token that holds the same bytes.
    #[verifier::external_body]
    fn clone(&self) -> (token: Token)
        ensures
            token_bytes(token) == token_bytes(*self),
    {
        Token(self.0.clone())
    }
}

} // verus!
