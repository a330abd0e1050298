//! What follows the header of a message that is not empty: token, options and payload.

use super::error::{ErrorKind, FormatError, FormatErrorView, MessageError, MessageErrorView};
use super::header::Header;
use super::option::{ascending, slot, Opts, RawOption};
use super::token::Token;
use crate::params::PAYLOAD_MARKER;
use crate::wire;
use vstd::prelude::*;
use vstd::slice::{slice_subrange, slice_to_vec};

verus! {

/// The greatest option delta or value length that the format can spell:
/// two extension bytes count from 269.
pub const MAX_EXTENDED: usize = 65804;

/// The four bits that open the spelling of a delta or a length.
pub open spec fn nibble_of(v: int) -> u8 {
    if v <= 12 {
        v as u8
    } else if v <= 268 {
        13
    } else {
        14
    }
}

/// The extension bytes of a delta or a length: none up to 12, one byte
/// counting from 13 up to 268, two big-endian bytes counting from 269 above.
pub open spec fn extension_of(v: int) -> Seq<u8> {
    if v <= 12 {
        Seq::empty()
    } else if v <= 268 {
        seq![(v - 13) as u8]
    } else {
        seq![((v - 269) / 256) as u8, ((v - 269) % 256) as u8]
    }
}

/// The bytes of one option that follows an option numbered `prev`.
pub open spec fn encode_option(prev: int, opt: RawOption) -> Seq<u8> {
    let delta = opt.number - prev;
    let len = opt.value.len() as int;
    seq![(nibble_of(delta) << 4) | nibble_of(len)] + extension_of(delta) + extension_of(len)
        + opt.value
}

/// The bytes of a run of options that follows an option numbered `prev`.
pub open spec fn encode_options(opts: Seq<RawOption>, prev: int) -> Seq<u8>
    decreases opts.len(),
{
    if opts.len() == 0 {
        Seq::empty()
    } else {
        encode_option(prev, opts[0]) + encode_options(opts.drop_first(), opts[0].number as int)
    }
}

/// Every value is short enough for its length to be spelled.
pub open spec fn encodable(opts: Seq<RawOption>) -> bool {
    forall|i: int| 0 <= i < opts.len() ==> opts[i].value.len() <= MAX_EXTENDED
}

/// The bytes of a payload: nothing for none or an empty one, else the marker
/// and the payload.
pub open spec fn encode_payload(payload: Option<Seq<u8>>) -> Seq<u8> {
    match payload {
        Some(bytes) => if bytes.len() > 0 {
            seq![PAYLOAD_MARKER] + bytes
        } else {
            Seq::empty()
        },
        None => Seq::empty(),
    }
}

/// Reads a delta or a length whose nibble is `nibble` and whose extension
/// bytes, if it has any, start at `at`; gives the number and the place
/// behind it. `room` is the number of bytes that must be left behind the
/// extension. Nibble 15 is reserved and gives nothing.
pub open spec fn read_extended(bytes: Seq<u8>, nibble: u8, at: int, room: int) -> Option<
    (int, int),
> {
    if nibble <= 12 {
        Some((nibble as int, at))
    } else if nibble == 13 && at + room < bytes.len() {
        Some((bytes[at] + 13, at + 1))
    } else if nibble == 14 && at + 1 + room < bytes.len() {
        Some((bytes[at] * 256 + bytes[at + 1] + 269, at + 2))
    } else {
        None
    }
}

/// Reads the option that starts at `at` and follows an option numbered
/// `prev`; gives the option and the place behind it. An extended length must
/// leave room for a byte of value.
pub open spec fn parse_option(bytes: Seq<u8>, at: int, prev: int) -> Result<
    (RawOption, int),
    FormatErrorView,
> {
    let head = bytes[at];
    match read_extended(bytes, head >> 4, at + 1, 0) {
        None => Err(FormatErrorView::InvalidOptionDelta),
        Some((delta, behind)) => if prev + delta > u16::MAX {
            Err(FormatErrorView::InvalidOptionDelta)
        } else {
            match read_extended(bytes, head & 0x0F, behind, 1) {
                None => Err(FormatErrorView::InvalidOptionLength),
                Some((length, start)) => if start + length > bytes.len() {
                    Err(
                        FormatErrorView::OptionLengthMismatch {
                            actual: (bytes.len() - start) as usize,
                            expected: length as usize,
                        },
                    )
                } else {
                    Ok(
                        (
                            RawOption {
                                number: (prev + delta) as u16,
                                value: bytes.subrange(start, start + length),
                            },
                            start + length,
                        ),
                    )
                },
            }
        },
    }
}

/// Reads options from `at` up to the end of `bytes` or to a payload marker;
/// gives the options and the place where reading stopped.
pub open spec fn parse_options(bytes: Seq<u8>, at: int, prev: int) -> Result<
    (Seq<RawOption>, int),
    FormatErrorView,
>
    decreases bytes.len() - at,
{
    if at < 0 || at >= bytes.len() || bytes[at] == PAYLOAD_MARKER {
        Ok((Seq::empty(), at))
    } else {
        match parse_option(bytes, at, prev) {
            Err(e) => Err(e),
            Ok((opt, next)) => behind(seq![opt], parse_options(bytes, next, opt.number as int)),
        }
    }
}

/// The outcome `rest` of reading on, with the options `front` that were read before.
pub open spec fn behind(
    front: Seq<RawOption>,
    rest: Result<(Seq<RawOption>, int), FormatErrorView>,
) -> Result<(Seq<RawOption>, int), FormatErrorView> {
    match rest {
        Err(e) => Err(e),
        Ok((opts, end)) => Ok((front + opts, end)),
    }
}

/// Reads what stands at `at`, where the options ended: nothing, or a marker
/// and a payload of at least one byte.
pub open spec fn parse_payload(bytes: Seq<u8>, at: int) -> Result<Option<Seq<u8>>, FormatErrorView> {
    if at >= bytes.len() {
        Ok(None)
    } else if bytes.len() - at <= 1 {
        Err(FormatErrorView::UnexpectedPayloadMarker)
    } else {
        Ok(Some(bytes.subrange(at + 1, bytes.len() as int)))
    }
}

/// Reads a delta or a length, as `read_extended` says.
fn read_ext(bytes: &[u8], nibble: u8, at: usize, room: usize) -> (r: Option<(usize, usize)>)
    requires
        at <= bytes@.len(),
        room <= 1,
    ensures
        match r {
            Some((v, next)) => read_extended(bytes@, nibble, at as int, room as int) == Some(
                (v as int, next as int),
            ) && v <= MAX_EXTENDED && at <= next <= bytes@.len(),
            None => read_extended(bytes@, nibble, at as int, room as int) is None,
        },
{
    let left: usize = bytes.len() - at;
    if nibble <= 12 {
        Some((nibble as usize, at))
    } else if nibble == 13 && left > room {
        let v: usize = bytes[at] as usize + 13;
        Some((v, at + 1))
    } else if nibble == 14 && left > room + 1 {
        let pair = slice_subrange(bytes, at, at + 2);
        let v: usize = wire::read_u16(pair) as usize + 269;
        Some((v, at + 2))
    } else {
        None
    }
}

/// Reads one option, as `parse_option` says; gives its number and the bounds of its value.
fn read_option(bytes: &[u8], at: usize, prev: u16) -> (r: Result<(u16, usize, usize), FormatError>)
    requires
        at < bytes@.len(),
    ensures
        match r {
            Ok((number, start, end)) => parse_option(bytes@, at as int, prev as int) == Ok::<
                (RawOption, int),
                FormatErrorView,
            >((RawOption { number, value: bytes@.subrange(start as int, end as int) }, end as int))
                && at < start <= end <= bytes@.len() && prev <= number,
            Err(e) => parse_option(bytes@, at as int, prev as int) == Err::<
                (RawOption, int),
                FormatErrorView,
            >(e@),
        },
{
    let head: u8 = bytes[at];
    assert(head >> 4 <= 15 && head & 0x0F <= 15) by (bit_vector);
    let (delta, behind) = match read_ext(bytes, head >> 4, at + 1, 0) {
        Some(pair) => pair,
        None => {
            return Err(FormatError::InvalidOptionDelta);
        },
    };
    if delta > (u16::MAX - prev) as usize {
        return Err(FormatError::InvalidOptionDelta);
    }
    let number: u16 = prev + delta as u16;
    let (length, start) = match read_ext(bytes, head & 0x0F, behind, 1) {
        Some(pair) => pair,
        None => {
            return Err(FormatError::InvalidOptionLength);
        },
    };
    if length > bytes.len() - start {
        return Err(
            FormatError::OptionLengthMismatch { actual: bytes.len() - start, expected: length },
        );
    }
    Ok((number, start, start + length))
}

/// The number that the option behind `opts` is counted from: the last
/// number in `opts`, or `prev` where there is none.
pub open spec fn last_number(opts: Seq<RawOption>, prev: int) -> int {
    if opts.len() == 0 {
        prev
    } else {
        opts.last().number as int
    }
}

/// One more option at the end adds its bytes at the end.
pub proof fn lemma_encode_options_push(opts: Seq<RawOption>, prev: int, opt: RawOption)
    ensures
        encode_options(opts.push(opt), prev) == encode_options(opts, prev) + encode_option(
            last_number(opts, prev),
            opt,
        ),
    decreases opts.len(),
{
    let grown = opts.push(opt);
    if opts.len() == 0 {
        assert(grown.drop_first() =~= Seq::<RawOption>::empty());
        assert(encode_options(grown.drop_first(), opt.number as int) =~= Seq::<u8>::empty());
    } else {
        let tail = opts.drop_first();
        assert(grown.drop_first() =~= tail.push(opt));
        lemma_encode_options_push(tail, opts[0].number as int, opt);
        assert(encode_options(grown, prev) =~= encode_options(opts, prev) + encode_option(
            last_number(opts, prev),
            opt,
        ));
    }
}

/// The nibble of a delta or a length, as `nibble_of` says.
fn nibble(v: usize) -> (n: u8)
    requires
        v <= MAX_EXTENDED,
    ensures
        n == nibble_of(v as int),
        n <= 14,
{
    if v <= 12 {
        v as u8
    } else if v <= 268 {
        13
    } else {
        14
    }
}

/// Appends the extension bytes of a delta or a length, as `extension_of` says.
fn push_extension(buf: &mut Vec<u8>, v: usize)
    requires
        v <= MAX_EXTENDED,
    ensures
        final(buf)@ == old(buf)@ + extension_of(v as int),
{
    if v <= 12 {
        assert(buf@ + extension_of(v as int) =~= buf@);
    } else if v <= 268 {
        buf.push((v - 13) as u8);
    } else {
        let pair = wire::write_u16((v - 269) as u16);
        buf.push(pair[0]);
        buf.push(pair[1]);
    }
}

/// Token, options and payload of a message.
#[derive(Debug, PartialEq, Eq)]
pub struct Body {
    pub token: Token,
    pub options: Opts,
    pub payload: Option<Vec<u8>>,
}

/// A body as a mathematical value.
pub struct BodyView {
    pub token: Seq<u8>,
    pub options: Seq<RawOption>,
    pub payload: Option<Seq<u8>>,
}

impl View for Body {
    type V = BodyView;

    open spec fn view(&self) -> BodyView {
        BodyView {
            token: self.token@,
            options: self.options@,
            payload: match self.payload {
                Some(bytes) => Some(bytes@),
                None => None,
            },
        }
    }
}

impl Clone for Body {
    fn clone(&self) -> (body: Body)
        ensures
            body@ == self@,
    {
        let payload: Option<Vec<u8>> = match &self.payload {
            None => None,
            Some(bytes) => {
                let mut copy: Vec<u8> = Vec::new();
                copy.extend_from_slice(bytes.as_slice());
                assert(copy@ =~= bytes@);
                Some(copy)
            },
        };
        Body { token: self.token.clone(), options: self.options.clone(), payload }
    }
}

impl BodyView {
    /// A body that can be written and read back: a token of at most eight
    /// bytes, options in ascending order with values short enough to be
    /// written, and a payload that, where there is one, is not empty.
    pub open spec fn well_formed(self) -> bool {
        &&& self.token.len() <= 8
        &&& ascending(self.options)
        &&& encodable(self.options)
        &&& self.payload matches Some(bytes) ==> bytes.len() > 0
    }

    /// The bytes of the body: token, options, payload.
    pub open spec fn encode(self) -> Seq<u8> {
        self.token + encode_options(self.options, 0) + encode_payload(self.payload)
    }

    /// What reading a body with a token of `tkl` bytes from `bytes` gives.
    pub open spec fn parse(tkl: usize, bytes: Seq<u8>) -> Result<BodyView, FormatErrorView> {
        if bytes.len() < tkl {
            Err(
                FormatErrorView::TokenLengthMismatch {
                    actual: bytes.len() as usize,
                    expected: tkl,
                },
            )
        } else {
            let rest = bytes.subrange(tkl as int, bytes.len() as int);
            match parse_options(rest, 0, 0) {
                Err(e) => Err(e),
                Ok((options, end)) => match parse_payload(rest, end) {
                    Err(e) => Err(e),
                    Ok(payload) => Ok(
                        BodyView {
                            token: Token::spec_new(bytes.subrange(0, tkl as int)),
                            options,
                            payload,
                        },
                    ),
                },
            }
        }
    }
}

impl Body {
    pub fn new(token: Token, options: Opts, payload: Option<Vec<u8>>) -> (body: Body)
        ensures
            body == (Body { token, options, payload }),
    {
        Body { token, options, payload }
    }

    /// Reads the body of a message whose header is `header` from the bytes
    /// behind the header. The token that is read is the one `Token::new`
    /// makes of the first `header.tkl` bytes. The error carries no header.
    pub fn from_bytes(header: &Header, bytes: &[u8]) -> (r: Result<Body, MessageError>)
        ensures
            match r {
                Ok(body) => BodyView::parse(header.tkl, bytes@) == Ok::<BodyView, FormatErrorView>(
                    body@,
                ),
                Err(e) => (BodyView::parse(header.tkl, bytes@) matches Err(fault) && e@
                    == MessageErrorView::format(fault)),
            },
    {
        if bytes.len() < header.tkl {
            let fault = FormatError::TokenLengthMismatch {
                actual: bytes.len(),
                expected: header.tkl,
            };
            return Err(MessageError::new(ErrorKind::MessageFormat(fault)));
        }
        let token = Token::new(slice_subrange(bytes, 0, header.tkl));
        let rest = slice_subrange(bytes, header.tkl, bytes.len());
        let mut options = Opts::new();
        let mut prev: u16 = 0;
        let mut i: usize = 0;
        while i < rest.len() && rest[i] != PAYLOAD_MARKER
            invariant
                i <= rest@.len(),
                header.tkl <= bytes@.len(),
                rest@ == bytes@.subrange(header.tkl as int, bytes@.len() as int),
                parse_options(rest@, 0, 0) == behind(
                    options@,
                    parse_options(rest@, i as int, prev as int),
                ),
                options@.len() > 0 ==> options@.last().number <= prev,
            decreases rest@.len() - i,
        {
            match read_option(rest, i, prev) {
                Err(fault) => {
                    return Err(MessageError::new(ErrorKind::MessageFormat(fault)));
                },
                Ok((number, start, end)) => {
                    let ghost opt = RawOption {
                        number,
                        value: rest@.subrange(start as int, end as int),
                    };
                    let ghost before = options@;
                    proof {
                        use_type_invariant(&options);
                        let onward = parse_options(rest@, end as int, number as int);
                        if let Ok((more, stop)) = onward {
                            assert(before + (seq![opt] + more) =~= before.push(opt) + more);
                        }
                        assert(before.insert(before.len() as int, opt) =~= before.push(opt));
                    }
                    options.push_raw(number, slice_subrange(rest, start, end));
                    prev = number;
                    i = end;
                },
            }
        }
        assert(parse_options(rest@, 0, 0) == Ok::<(Seq<RawOption>, int), FormatErrorView>(
            (options@, i as int),
        ));
        let payload: Option<Vec<u8>> = if i < rest.len() {
            if rest.len() - i <= 1 {
                return Err(
                    MessageError::new(
                        ErrorKind::MessageFormat(FormatError::UnexpectedPayloadMarker),
                    ),
                );
            }
            Some(slice_to_vec(slice_subrange(rest, i + 1, rest.len())))
        } else {
            None
        };
        Ok(Body { token, options, payload })
    }
}

/// The next option in a run of options adds its bytes behind those of the
/// options before it, counted from the number of the last of them.
proof fn lemma_encode_next(front: Seq<u8>, opts: Seq<RawOption>, i: int)
    requires
        0 <= i < opts.len(),
        ascending(opts),
        encodable(opts.subrange(0, i)),
        opts[i].value.len() <= MAX_EXTENDED,
    ensures
        0 <= last_number(opts.subrange(0, i), 0) <= opts[i].number,
        last_number(opts.subrange(0, i + 1), 0) == opts[i].number,
        encodable(opts.subrange(0, i + 1)),
        front + encode_options(opts.subrange(0, i + 1), 0) == front + encode_options(
            opts.subrange(0, i),
            0,
        ) + encode_option(last_number(opts.subrange(0, i), 0), opts[i]),
{
    let done = opts.subrange(0, i);
    let next = opts.subrange(0, i + 1);
    if i > 0 {
        assert(done.last() == opts[i - 1]);
        assert(opts[i - 1].number <= opts[i].number);
    }
    assert(done.push(opts[i]) =~= next);
    lemma_encode_options_push(done, 0, opts[i]);
    assert forall|k: int| 0 <= k < next.len() implies next[k].value.len() <= MAX_EXTENDED by {
        if k < i {
            assert(done[k] == next[k]);
        }
    }
    assert(front + (encode_options(done, 0) + encode_option(last_number(done, 0), opts[i]))
        =~= front + encode_options(done, 0) + encode_option(last_number(done, 0), opts[i]));
}

/// A head byte, two extensions and a value, appended one after the other,
/// are the bytes of the option appended at once.
proof fn lemma_appended(
    start: Seq<u8>,
    head: u8,
    dext: Seq<u8>,
    lext: Seq<u8>,
    value: Seq<u8>,
)
    ensures
        start.push(head) + dext + lext + value == start + (seq![head] + dext + lext + value),
{
    assert(start.push(head) + dext + lext + value =~= start + (seq![head] + dext + lext + value));
}

impl Body {
    /// Writes the body: the token, the options in ascending order of their
    /// numbers, and the payload behind its marker if it is not empty. An
    /// option value whose length cannot be spelled is refused.
    #[verifier::rlimit(40)]
    pub fn to_bytes(&self) -> (r: Result<Vec<u8>, MessageError>)
        ensures
            match r {
                Ok(buf) => encodable(self@.options) && buf@ == self@.encode(),
                Err(e) => !encodable(self@.options) && e@ == MessageErrorView::format(
                    FormatErrorView::InvalidOptionLength,
                ),
            },
    {
        let mut buf: Vec<u8> = Vec::new();
        buf.extend_from_slice(self.token.to_bytes());
        let ghost opts = self.options@;
        proof {
            use_type_invariant(&self.options);
            assert(opts.subrange(0, 0) =~= Seq::<RawOption>::empty());
            assert(buf@ =~= self.token@ + encode_options(opts.subrange(0, 0), 0));
        }
        let count: usize = self.options.len();
        let mut prev: u16 = 0;
        let mut i: usize = 0;
        while i < count
            invariant
                i <= count,
                count == opts.len(),
                opts == self.options@,
                ascending(opts),
                prev == last_number(opts.subrange(0, i as int), 0),
                encodable(opts.subrange(0, i as int)),
                buf@ == self.token@ + encode_options(opts.subrange(0, i as int), 0),
            decreases count - i,
        {
            let number: u16 = self.options.number_at(i);
            let value = self.options.value_at(i);
            if value.len() > MAX_EXTENDED {
                assert(opts[i as int].value.len() > MAX_EXTENDED);
                return Err(
                    MessageError::new(ErrorKind::MessageFormat(FormatError::InvalidOptionLength)),
                );
            }
            proof {
                lemma_encode_next(self.token@, opts, i as int);
            }
            let delta: usize = (number - prev) as usize;
            let head: u8 = (nibble(delta) << 4) | nibble(value.len());
            let ghost start = buf@;
            buf.push(head);
            push_extension(&mut buf, delta);
            push_extension(&mut buf, value.len());
            buf.extend_from_slice(value);
            proof {
                lemma_appended(
                    start,
                    head,
                    extension_of(delta as int),
                    extension_of(value@.len() as int),
                    value@,
                );
                assert(buf@ == start + encode_option(prev as int, opts[i as int]));
            }
            prev = number;
            i += 1;
        }
        proof {
            assert(opts.subrange(0, count as int) =~= opts);
        }
        let ghost written = buf@;
        match &self.payload {
            Some(bytes) => {
                if bytes.len() > 0 {
                    buf.push(PAYLOAD_MARKER);
                    buf.extend_from_slice(bytes.as_slice());
                }
            },
            None => {},
        }
        assert(buf@ =~= written + encode_payload(self@.payload));
        Ok(buf)
    }
}

} // verus!
