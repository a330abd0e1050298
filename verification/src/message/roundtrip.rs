//! Writing and reading are inverse to each other: a well-formed message that
//! is written and read comes back as it was, and the bytes of a message that
//! was read are the bytes that writing the message gives.

use super::body::{
    behind, encodable, encode_option, encode_options, encode_payload, extension_of, nibble_of,
    parse_option, parse_options, parse_payload, read_extended, BodyView, MAX_EXTENDED,
};
use super::code::RawCode;
use super::error::{FormatErrorView, MessageErrorView};
use super::header::{spec_first_byte, Header, MessageType};
use super::message::MessageView;
use super::option::{ascending, RawOption};
use super::token::Token;
use crate::params::PAYLOAD_MARKER;
use vstd::prelude::*;

verus! {

/// Reading the four bytes of a well-formed header gives the header back,
/// whatever follows them.
pub proof fn lemma_header_written_then_read(header: Header, bytes: Seq<u8>)
    requires
        header.well_formed(),
        bytes.len() >= 4,
        bytes.subrange(0, 4) == header.spec_to_bytes(),
    ensures
        Header::spec_parse(bytes) == header,
        Header::spec_from_bytes(bytes) == Ok::<Header, MessageErrorView>(header),
{
    let t = header.mtype.spec_as_u8();
    let k = header.tkl as u8;
    assert(t <= 3 && k <= 8 ==> ((1u8 << 6) | (t << 4) | k) >> 6 == 1 && (((1u8 << 6) | (t << 4)
        | k) >> 4) & 0b11 == t && ((1u8 << 6) | (t << 4) | k) & 0x0F == k) by (bit_vector);
    MessageType::lemma_type_roundtrip(header.mtype);
    assert(t & 0b11 == t) by (bit_vector)
        requires
            t <= 3,
    ;
    RawCode::lemma_code_roundtrip(header.code);
}

/// The four bytes of a header that was read, with a token length of at most
/// eight, are the bytes it was read from.
pub proof fn lemma_header_read_then_written(bytes: Seq<u8>)
    requires
        bytes.len() >= 4,
        bytes[0] & 0x0F <= 8,
    ensures
        Header::spec_parse(bytes).spec_to_bytes() == bytes.subrange(0, 4),
        Header::spec_parse(bytes).code.in_range(),
        Header::spec_parse(bytes).tkl <= 8,
{
    let header = Header::spec_parse(bytes);
    let b0 = bytes[0];
    let t = header.mtype.spec_as_u8();
    assert(t == (b0 >> 4) & 0b11) by {
        let bits = (b0 >> 4) & 0b11;
        assert(bits <= 3) by (bit_vector)
            requires
                bits == (b0 >> 4) & 0b11,
        ;
    }
    assert(((b0 >> 6) << 6) | (((b0 >> 4) & 0b11) << 4) | (b0 & 0x0F) == b0) by (bit_vector);
    RawCode::lemma_byte_roundtrip(bytes[1]);
}

/// A delta or a length that is spelled and read comes back, and reading
/// stops behind its extension.
proof fn lemma_extended_written_then_read(bytes: Seq<u8>, v: int, at: int, room: int)
    requires
        0 <= v <= MAX_EXTENDED,
        0 <= at,
        0 <= room,
        at + extension_of(v).len() <= bytes.len(),
        v > 12 ==> at + extension_of(v).len() + room <= bytes.len(),
        bytes.subrange(at, at + extension_of(v).len()) == extension_of(v),
    ensures
        read_extended(bytes, nibble_of(v), at, room) == Some((v, at + extension_of(v).len())),
{
    if 12 < v <= 268 {
        assert(bytes[at] == bytes.subrange(at, at + 1)[0]);
    }
}

/// The bytes of an option, read where they stand, give the option back.
pub proof fn lemma_option_written_then_read(bytes: Seq<u8>, at: int, prev: int, opt: RawOption)
    requires
        0 <= at,
        0 <= prev <= opt.number,
        opt.value.len() <= MAX_EXTENDED,
        at + encode_option(prev, opt).len() <= bytes.len(),
        bytes.subrange(at, at + encode_option(prev, opt).len()) == encode_option(prev, opt),
    ensures
        parse_option(bytes, at, prev) == Ok::<(RawOption, int), FormatErrorView>(
            (opt, at + encode_option(prev, opt).len()),
        ),
        bytes[at] != PAYLOAD_MARKER,
        encode_option(prev, opt).len() >= 1,
{
    let delta = opt.number - prev;
    let len = opt.value.len() as int;
    let dn = nibble_of(delta);
    let ln = nibble_of(len);
    let dext = extension_of(delta);
    let lext = extension_of(len);
    let enc = encode_option(prev, opt);
    assert(dn <= 14 && ln <= 14 ==> ((dn << 4) | ln) >> 4 == dn && ((dn << 4) | ln) & 0x0F == ln
        && ((dn << 4) | ln) != 0xFF) by (bit_vector);
    let window = bytes.subrange(at, at + enc.len());
    assert(bytes[at] == window[0]);
    let behind = at + 1 + dext.len();
    let start = behind + lext.len();
    assert(bytes.subrange(at + 1, behind) =~= dext) by {
        assert forall|k: int| 0 <= k < dext.len() implies bytes.subrange(at + 1, behind)[k]
            == dext[k] by {
            assert(bytes[at + 1 + k] == window[1 + k]);
        }
    }
    assert(bytes.subrange(behind, start) =~= lext) by {
        assert forall|k: int| 0 <= k < lext.len() implies bytes.subrange(behind, start)[k]
            == lext[k] by {
            assert(bytes[behind + k] == window[1 + dext.len() + k]);
        }
    }
    assert(bytes.subrange(start, start + len) =~= opt.value) by {
        assert forall|k: int| 0 <= k < len implies bytes.subrange(start, start + len)[k]
            == opt.value[k] by {
            assert(bytes[start + k] == window[1 + dext.len() + lext.len() + k]);
        }
    }
    lemma_extended_written_then_read(bytes, delta, at + 1, 0);
    lemma_extended_written_then_read(bytes, len, behind, 1);
}

/// The bytes of a run of options, read where they stand, give the options
/// back, provided that the message ends behind them or a payload marker follows.
pub proof fn lemma_options_written_then_read(
    bytes: Seq<u8>,
    at: int,
    prev: int,
    opts: Seq<RawOption>,
)
    requires
        0 <= at,
        0 <= prev,
        ascending(opts),
        encodable(opts),
        opts.len() > 0 ==> prev <= opts[0].number,
        at + encode_options(opts, prev).len() <= bytes.len(),
        bytes.subrange(at, at + encode_options(opts, prev).len()) == encode_options(opts, prev),
        at + encode_options(opts, prev).len() == bytes.len() || bytes[at + encode_options(
            opts,
            prev,
        ).len()] == PAYLOAD_MARKER,
    ensures
        parse_options(bytes, at, prev) == Ok::<(Seq<RawOption>, int), FormatErrorView>(
            (opts, at + encode_options(opts, prev).len()),
        ),
    decreases opts.len(),
{
    let enc = encode_options(opts, prev);
    if opts.len() == 0 {
        assert(opts =~= Seq::<RawOption>::empty());
    } else {
        let first = opts[0];
        let tail = opts.drop_first();
        let one = encode_option(prev, first);
        let more = encode_options(tail, first.number as int);
        let window = bytes.subrange(at, at + enc.len());
        assert(bytes.subrange(at, at + one.len()) =~= one);
        lemma_option_written_then_read(bytes, at, prev, first);
        let next = at + one.len();
        assert(bytes.subrange(next, next + more.len()) =~= more) by {
            assert forall|k: int| 0 <= k < more.len() implies bytes.subrange(
                next,
                next + more.len(),
            )[k] == more[k] by {
                assert(bytes[next + k] == window[one.len() + k]);
            }
        }
        lemma_options_written_then_read(bytes, next, first.number as int, tail);
        assert(seq![first] + tail =~= opts);
    }
}

/// The bytes of a payload, read where they stand at the end of the message,
/// give the payload back.
proof fn lemma_payload_written_then_read(bytes: Seq<u8>, at: int, payload: Option<Seq<u8>>)
    requires
        0 <= at <= bytes.len(),
        payload matches Some(p) ==> p.len() > 0,
        bytes.subrange(at, bytes.len() as int) == encode_payload(payload),
    ensures
        parse_payload(bytes, at) == Ok::<Option<Seq<u8>>, FormatErrorView>(payload),
        at == bytes.len() || bytes[at] == PAYLOAD_MARKER,
{
    let tail = bytes.subrange(at, bytes.len() as int);
    match payload {
        Some(p) => {
            assert(tail.len() == 1 + p.len());
            assert(bytes[at] == tail[0]);
            assert(bytes.subrange(at + 1, bytes.len() as int) =~= p) by {
                assert forall|k: int| 0 <= k < p.len() implies bytes.subrange(
                    at + 1,
                    bytes.len() as int,
                )[k] == p[k] by {
                    assert(bytes[at + 1 + k] == tail[1 + k]);
                }
            }
        },
        None => {
            assert(tail.len() == 0);
        },
    }
}

/// The two parts of a joined sequence are the sequences that were joined.
proof fn lemma_parts(a: Seq<u8>, b: Seq<u8>)
    ensures
        (a + b).len() == a.len() + b.len(),
        (a + b).subrange(0, a.len() as int) == a,
        (a + b).subrange(a.len() as int, (a + b).len() as int) == b,
{
}

/// A sequence is all of itself, and nothing is left behind it.
proof fn lemma_whole(a: Seq<u8>)
    ensures
        a.subrange(0, a.len() as int) == a,
        a.subrange(a.len() as int, a.len() as int).len() == 0,
{
}

/// Three sequences joined from the left or from the right are the same.
proof fn lemma_joined(a: Seq<u8>, b: Seq<u8>, c: Seq<u8>)
    ensures
        a + b + c == a + (b + c),
{
}

/// A sequence cut in two and put together again is the sequence.
proof fn lemma_cut(bytes: Seq<u8>, at: int)
    requires
        0 <= at <= bytes.len(),
    ensures
        bytes.subrange(0, at) + bytes.subrange(at, bytes.len() as int) == bytes,
{
}

/// A well-formed body that is written and read comes back as it was.
#[verifier::rlimit(40)]
pub proof fn lemma_body_written_then_read(body: BodyView)
    requires
        body.well_formed(),
    ensures
        BodyView::parse(body.token.len() as usize, body.encode()) == Ok::<
            BodyView,
            FormatErrorView,
        >(body),
{
    let tkl = body.token.len() as int;
    let bytes = body.encode();
    let opts = encode_options(body.options, 0);
    let tail = encode_payload(body.payload);
    let end = opts.len() as int;
    lemma_joined(body.token, opts, tail);
    lemma_parts(body.token, opts + tail);
    lemma_parts(opts, tail);
    let rest = bytes.subrange(tkl, bytes.len() as int);
    lemma_payload_written_then_read(rest, end, body.payload);
    lemma_options_written_then_read(rest, 0, 0, body.options);
}

/// A well-formed message that is written and read comes back as it was.
#[verifier::rlimit(40)]
pub proof fn lemma_written_then_read(message: MessageView)
    requires
        message.well_formed(),
    ensures
        message.writable(),
        MessageView::parse(message.encode()) == Ok::<MessageView, MessageErrorView>(message),
{
    let bytes = message.encode();
    let head = message.header.spec_to_bytes();
    match message.kind.body() {
        None => {
            lemma_whole(head);
            lemma_header_written_then_read(message.header, bytes);
        },
        Some(body) => {
            lemma_parts(head, body.encode());
            lemma_header_written_then_read(message.header, bytes);
            lemma_body_written_then_read(body);
        },
    }
}

/// A delta or a length that was read is spelled by the bytes it was read from.
proof fn lemma_extended_read_then_written(bytes: Seq<u8>, nibble: u8, at: int, room: int)
    requires
        0 <= at <= bytes.len(),
        0 <= room,
        read_extended(bytes, nibble, at, room) is Some,
    ensures
        ({
            let (v, next) = read_extended(bytes, nibble, at, room)->0;
            &&& 0 <= v <= MAX_EXTENDED
            &&& nibble_of(v) == nibble
            &&& at <= next <= bytes.len()
            &&& bytes.subrange(at, next) == extension_of(v)
            &&& v > 12 ==> next + room <= bytes.len()
        }),
{
}

/// An option that was read is spelled by the bytes it was read from.
pub proof fn lemma_option_read_then_written(bytes: Seq<u8>, at: int, prev: int)
    requires
        0 <= at < bytes.len(),
        0 <= prev,
        parse_option(bytes, at, prev) is Ok,
    ensures
        ({
            let (opt, next) = parse_option(bytes, at, prev)->Ok_0;
            &&& at < next <= bytes.len()
            &&& bytes.subrange(at, next) == encode_option(prev, opt)
            &&& prev <= opt.number
            &&& opt.value.len() <= MAX_EXTENDED
        }),
{
    let (opt, next) = parse_option(bytes, at, prev)->Ok_0;
    let head = bytes[at];
    let dn = head >> 4;
    let ln = head & 0x0F;
    assert(((head >> 4) << 4) | (head & 0x0F) == head) by (bit_vector);
    lemma_extended_read_then_written(bytes, dn, at + 1, 0);
    let (delta, behind) = read_extended(bytes, dn, at + 1, 0)->0;
    lemma_extended_read_then_written(bytes, ln, behind, 1);
    let (length, start) = read_extended(bytes, ln, behind, 1)->0;
    assert(opt.number == prev + delta);
    assert(next == start + length);
}

/// Options that were read are in ascending order, short enough to be
/// written, and spelled by the bytes they were read from; reading stopped at
/// the end of the bytes or at a payload marker.
pub proof fn lemma_options_read_then_written(bytes: Seq<u8>, at: int, prev: int)
    requires
        0 <= at <= bytes.len(),
        0 <= prev,
        parse_options(bytes, at, prev) is Ok,
    ensures
        ({
            let (opts, end) = parse_options(bytes, at, prev)->Ok_0;
            &&& at <= end <= bytes.len()
            &&& bytes.subrange(at, end) == encode_options(opts, prev)
            &&& ascending(opts)
            &&& encodable(opts)
            &&& opts.len() > 0 ==> prev <= opts[0].number
            &&& end == bytes.len() || bytes[end] == PAYLOAD_MARKER
        }),
    decreases bytes.len() - at,
{
    let (opts, _) = parse_options(bytes, at, prev)->Ok_0;
    if at < bytes.len() && bytes[at] != PAYLOAD_MARKER {
        lemma_option_read_then_written(bytes, at, prev);
        let (first, next) = parse_option(bytes, at, prev)->Ok_0;
        let onward = parse_options(bytes, next, first.number as int);
        lemma_options_read_then_written(bytes, next, first.number as int);
        let (tail, _) = onward->Ok_0;
        assert(opts.drop_first() =~= tail);
    }
}

/// A payload that was read is not empty and is spelled by the bytes it was read from.
proof fn lemma_payload_read_then_written(bytes: Seq<u8>, at: int)
    requires
        0 <= at <= bytes.len(),
        at == bytes.len() || bytes[at] == PAYLOAD_MARKER,
        parse_payload(bytes, at) is Ok,
    ensures
        ({
            let payload = parse_payload(bytes, at)->Ok_0;
            &&& bytes.subrange(at, bytes.len() as int) == encode_payload(payload)
            &&& payload matches Some(p) ==> p.len() > 0
        }),
{
}

/// Options and payload that were read are spelled by the bytes they were read from.
proof fn lemma_tail_read_then_written(rest: Seq<u8>)
    requires
        parse_options(rest, 0, 0) is Ok,
        parse_payload(rest, parse_options(rest, 0, 0)->Ok_0.1) is Ok,
    ensures
        ({
            let (opts, end) = parse_options(rest, 0, 0)->Ok_0;
            let payload = parse_payload(rest, end)->Ok_0;
            &&& ascending(opts)
            &&& encodable(opts)
            &&& payload matches Some(p) ==> p.len() > 0
            &&& encode_options(opts, 0) + encode_payload(payload) == rest
        }),
{
    let (_, end) = parse_options(rest, 0, 0)->Ok_0;
    lemma_options_read_then_written(rest, 0, 0);
    lemma_payload_read_then_written(rest, end);
    lemma_cut(rest, end);
}

/// A body that was read with a token length of at most eight is well formed
/// and spelled by the bytes it was read from.
#[verifier::rlimit(40)]
pub proof fn lemma_body_read_then_written(tkl: usize, bytes: Seq<u8>)
    requires
        tkl <= 8,
        BodyView::parse(tkl, bytes) is Ok,
    ensures
        ({
            let body = BodyView::parse(tkl, bytes)->Ok_0;
            &&& body.well_formed()
            &&& body.token.len() == tkl
            &&& body.encode() == bytes
        }),
{
    let body = BodyView::parse(tkl, bytes)->Ok_0;
    let rest = bytes.subrange(tkl as int, bytes.len() as int);
    let token = bytes.subrange(0, tkl as int);
    let written = encode_options(body.options, 0);
    let tail = encode_payload(body.payload);
    lemma_tail_read_then_written(rest);
    lemma_cut(bytes, tkl as int);
    lemma_joined(token, written, tail);
}

/// A message that was read is well formed and spelled by the bytes it was
/// read from: writing it gives the datagram back, with every option, known
/// or not, in its place.
#[verifier::rlimit(40)]
pub proof fn lemma_read_then_written(bytes: Seq<u8>)
    requires
        MessageView::parse(bytes) is Ok,
    ensures
        ({
            let message = MessageView::parse(bytes)->Ok_0;
            &&& message.well_formed()
            &&& message.writable()
            &&& message.encode() == bytes
        }),
{
    let header = Header::spec_parse(bytes);
    let rest = bytes.subrange(4, bytes.len() as int);
    lemma_header_read_then_written(bytes);
    lemma_cut(bytes, 4);
    if header.code == RawCode(0, 0) {
        lemma_whole(bytes);
    } else {
        lemma_body_read_then_written(header.tkl, rest);
    }
}

} // verus!
