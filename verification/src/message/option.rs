//! Options: the numbered values that a message carries between token and payload.

use super::error::{ErrorKindView, FormatErrorView, MessageError};
use vstd::prelude::*;

verus! {

/// An option as a mathematical value: its number and the bytes of its value.
pub struct RawOption {
    pub number: u16,
    pub value: Seq<u8>,
}

/// The numbers never go down from one option to the next.
pub open spec fn ascending(opts: Seq<RawOption>) -> bool {
    forall|i: int, j: int| 0 <= i <= j < opts.len() ==> opts[i].number <= opts[j].number
}

/// Where a new option with number `number` goes: behind the last option whose
/// number is not greater, so that options of one number keep the order in
/// which they came.
pub open spec fn slot(opts: Seq<RawOption>, number: u16) -> int
    decreases opts.len(),
{
    if opts.len() == 0 {
        0
    } else if opts.last().number <= number {
        opts.len() as int
    } else {
        slot(opts.drop_last(), number)
    }
}

/// The values of the options numbered `number`, in their order.
pub open spec fn values_of(opts: Seq<RawOption>, number: u16) -> Seq<Seq<u8>>
    decreases opts.len(),
{
    if opts.len() == 0 {
        Seq::empty()
    } else if opts.last().number == number {
        values_of(opts.drop_last(), number).push(opts.last().value)
    } else {
        values_of(opts.drop_last(), number)
    }
}

/// In an ascending sequence, everything before the slot of `number` is at
/// most `number` and everything from the slot on is greater, so an option
/// put into its slot leaves the sequence ascending.
pub proof fn lemma_slot_splits(opts: Seq<RawOption>, number: u16, value: Seq<u8>)
    requires
        ascending(opts),
    ensures
        0 <= slot(opts, number) <= opts.len(),
        forall|i: int| 0 <= i < slot(opts, number) ==> opts[i].number <= number,
        forall|i: int| slot(opts, number) <= i < opts.len() ==> opts[i].number > number,
        ascending(opts.insert(slot(opts, number), RawOption { number, value })),
    decreases opts.len(),
{
    let at = slot(opts, number);
    if opts.len() > 0 && opts.last().number > number {
        let front = opts.drop_last();
        lemma_slot_splits(front, number, value);
        assert forall|i: int| 0 <= i < at implies opts[i].number <= number by {
            assert(front[i].number <= number);
        }
        assert forall|i: int| at <= i < opts.len() implies opts[i].number > number by {
            if i < front.len() {
                assert(front[i].number > number);
            }
        }
    }
}

/// Whether an option must be understood by whoever receives it.
#[derive(Clone, Copy, Debug, PartialEq, Eq, Structural)]
pub enum Class {
    Critical,
    Elective,
}

/// Whether a proxy that does not understand an option may pass it on.
#[derive(Clone, Copy, Debug, PartialEq, Eq, Structural)]
pub enum Proxy {
    SafeToForward,
    Unsafe,
}

/// Whether an option is part of the key under which a response is cached,
/// and if it is, the three bits of its number that say how.
#[derive(Clone, Copy, Debug, PartialEq, Eq, Structural)]
pub enum Cache {
    NoCacheKey,
    CacheKey(u8),
}

/// The class of an option: bit 0 of its number set means critical.
pub open spec fn spec_class(number: u16) -> Class {
    if number & 1 == 1 {
        Class::Critical
    } else {
        Class::Elective
    }
}

/// The proxy policy of an option: bit 1 of its number set means unsafe to forward.
pub open spec fn spec_proxy(number: u16) -> Proxy {
    if number & 2 == 2 {
        Proxy::Unsafe
    } else {
        Proxy::SafeToForward
    }
}

/// The cache policy of an option: bits 2 to 4 of its number all set means
/// that it is no part of the cache key.
pub open spec fn spec_cache_key(number: u16) -> Cache {
    if (number >> 2) & 7 == 7 {
        Cache::NoCacheKey
    } else {
        Cache::CacheKey(((number >> 2) & 7) as u8)
    }
}

/// The numbers of the options that the registry knows.
pub open spec fn spec_registered(number: u16) -> bool {
    number == 1 || number == 3 || number == 4 || number == 5 || number == 6 || number == 7
        || number == 8 || number == 11 || number == 12 || number == 14 || number == 15 || number
        == 17 || number == 20 || number == 35 || number == 39 || number == 60 || number == 284
}

/// There is a critical option that the registry does not know.
pub open spec fn has_unknown_critical(opts: Seq<RawOption>) -> bool {
    exists|i: int|
        0 <= i < opts.len() && !spec_registered(#[trigger] opts[i].number) && spec_class(
            opts[i].number,
        ) == Class::Critical
}

pub fn class_of(number: u16) -> (class: Class)
    ensures
        class == spec_class(number),
{
    if number & 1 == 1 {
        Class::Critical
    } else {
        Class::Elective
    }
}

pub fn proxy_of(number: u16) -> (proxy: Proxy)
    ensures
        proxy == spec_proxy(number),
{
    if number & 2 == 2 {
        Proxy::Unsafe
    } else {
        Proxy::SafeToForward
    }
}

pub fn cache_key_of(number: u16) -> (cache: Cache)
    ensures
        cache == spec_cache_key(number),
{
    let bits: u16 = (number >> 2) & 7;
    assert((number >> 2) & 7 <= 7) by (bit_vector);
    if bits == 7 {
        Cache::NoCacheKey
    } else {
        Cache::CacheKey(bits as u8)
    }
}

pub fn is_registered(number: u16) -> (known: bool)
    ensures
        known == spec_registered(number),
{
    number == 1 || number == 3 || number == 4 || number == 5 || number == 6 || number == 7
        || number == 8 || number == 11 || number == 12 || number == 14 || number == 15 || number
        == 17 || number == 20 || number == 35 || number == 39 || number == 60 || number == 284
}

/// An option of the registry: a number, a format for its value, and
/// bounds for the length of the value.
pub trait Opt: Sized {
    /// The number of the option.
    const NUMBER: u16;

    /// The type of the value.
    type Format;

    /// The bytes of the value as they stand in a message.
    spec fn wire(&self) -> Seq<u8>;

    /// The option holds `value`.
    spec fn holds(&self, value: Self::Format) -> bool;

    /// `bytes` are the value of such an option: their length is within the
    /// bounds and they fit the format.
    spec fn accepts(bytes: Seq<u8>) -> bool;

    /// The option is the one that `bytes` stand for.
    spec fn stands_for(&self, bytes: Seq<u8>) -> bool;

    /// `fault` is the fault found in `bytes` that are not accepted.
    spec fn refuses(bytes: Seq<u8>, fault: FormatErrorView) -> bool;

    fn new(value: Self::Format) -> (opt: Self)
        ensures
            opt.holds(value),
    ;

    /// Reads the value of an option from the bytes it has in a message.
    fn from_bytes(bytes: &[u8]) -> (r: Result<Self, MessageError>)
        ensures
            match r {
                Ok(opt) => Self::accepts(bytes@) && opt.stands_for(bytes@),
                Err(e) => !Self::accepts(bytes@) && e@.header is None && (
                e@.kind matches ErrorKindView::MessageFormat(fault) && Self::refuses(bytes@, fault)),
            },
    ;

    /// The bytes of the value as they stand in a message.
    fn to_bytes(&self) -> (bytes: Vec<u8>)
        ensures
            bytes@ == self.wire(),
    ;

    /// The number of bytes of the value.
    fn len(&self) -> (n: usize)
        ensures
            n == self.wire().len(),
    ;

    #[inline(always)]
    fn class() -> (class: Class)
        ensures
            class == spec_class(Self::NUMBER),
    {
        class_of(Self::NUMBER)
    }

    #[inline(always)]
    fn proxy() -> (proxy: Proxy)
        ensures
            proxy == spec_proxy(Self::NUMBER),
    {
        proxy_of(Self::NUMBER)
    }

    #[inline(always)]
    fn cache_key() -> (cache: Cache)
        ensures
            cache == spec_cache_key(Self::NUMBER),
    {
        cache_key_of(Self::NUMBER)
    }
}

/// The place of the first option numbered `number` whose value `T` does
/// not accept, or the number of options where every such value is accepted.
pub open spec fn first_refused<T: Opt>(opts: Seq<RawOption>, number: u16) -> int
    decreases opts.len(),
{
    if opts.len() == 0 {
        0
    } else if opts[0].number == number && !T::accepts(opts[0].value) {
        0
    } else {
        1 + first_refused::<T>(opts.drop_first(), number)
    }
}

/// There is an option numbered `number`.
pub open spec fn has_number(opts: Seq<RawOption>, number: u16) -> bool {
    exists|i: int| 0 <= i < opts.len() && (#[trigger] opts[i]).number == number
}

#[derive(Debug, PartialEq, Eq)]
struct Entry {
    number: u16,
    value: Vec<u8>,
}

/// The options of a message, kept in ascending order of their numbers;
/// options of one number stay in the order in which they were pushed.
#[derive(Debug, PartialEq, Eq)]
pub struct Opts {
    entries: Vec<Entry>,
}

impl View for Opts {
    type V = Seq<RawOption>;

    closed spec fn view(&self) -> Seq<RawOption> {
        entries_view(self.entries@)
    }
}

spec fn entries_view(entries: Seq<Entry>) -> Seq<RawOption> {
    Seq::new(entries.len(), |i: int| RawOption { number: entries[i].number, value: entries[i].value@ })
}

impl Opts {
    /// Holds of every value of this type: the numbers never go down.
    #[verifier::type_invariant]
    pub open spec fn ordered(&self) -> bool {
        ascending(self@)
    }

    pub fn new() -> (opts: Opts)
        ensures
            opts@ == Seq::<RawOption>::empty(),
    {
        let opts = Opts { entries: Vec::new() };
        opts
    }

    /// How many options there are, counting repeated numbers.
    pub fn len(&self) -> (n: usize)
        ensures
            n == self@.len(),
    {
        self.entries.len()
    }

    /// The number of the option at `index`.
    pub fn number_at(&self, index: usize) -> (number: u16)
        requires
            index < self@.len(),
        ensures
            number == self@[index as int].number,
    {
        self.entries[index].number
    }

    /// The value of the option at `index`.
    pub fn value_at(&self, index: usize) -> (value: &[u8])
        requires
            index < self@.len(),
        ensures
            value@ == self@[index as int].value,
    {
        self.entries[index].value.as_slice()
    }

    /// Adds an option of the registry.
    pub fn push<T: Opt>(&mut self, option: T)
        ensures
            0 <= slot(old(self)@, T::NUMBER) <= old(self)@.len(),
            final(self)@ == old(self)@.insert(
                slot(old(self)@, T::NUMBER),
                RawOption { number: T::NUMBER, value: option.wire() },
            ),
    {
        let bytes = option.to_bytes();
        self.push_raw(T::NUMBER, bytes.as_slice());
    }

    /// Reads the options with the number of `T`, in their order. Where
    /// there is none, it gives nothing; where the value of one is not
    /// accepted, it fails with the fault of the first such value.
    pub fn get<T: Opt>(&self) -> (r: Result<Option<Vec<T>>, MessageError>)
        ensures
            match r {
                Ok(Some(found)) => {
                    &&& has_number(self@, T::NUMBER)
                    &&& first_refused::<T>(self@, T::NUMBER) == self@.len()
                    &&& found@.len() == values_of(self@, T::NUMBER).len()
                    &&& forall|i: int|
                        0 <= i < found@.len() ==> (#[trigger] found@[i]).stands_for(
                            values_of(self@, T::NUMBER)[i],
                        )
                },
                Ok(None) => !has_number(self@, T::NUMBER),
                Err(e) => {
                    &&& first_refused::<T>(self@, T::NUMBER) < self@.len()
                    &&& e@.header is None
                    &&& e@.kind matches ErrorKindView::MessageFormat(fault)
                    &&& T::refuses(self@[first_refused::<T>(self@, T::NUMBER)].value, fault)
                },
            },
    {
        let ghost opts = self@;
        let mut found: Vec<T> = Vec::new();
        let mut any = false;
        let mut i: usize = 0;
        proof {
            assert(opts.subrange(0, opts.len() as int) =~= opts);
        }
        while i < self.entries.len()
            invariant
                i <= self.entries@.len(),
                opts == self@,
                opts.len() == self.entries@.len(),
                forall|k: int|
                    0 <= k < opts.len() ==> opts[k].number == self.entries@[k].number
                        && opts[k].value == self.entries@[k].value@,
                any <==> has_number(opts.subrange(0, i as int), T::NUMBER),
                first_refused::<T>(opts, T::NUMBER) == i + first_refused::<T>(
                    opts.subrange(i as int, opts.len() as int),
                    T::NUMBER,
                ),
                found@.len() == values_of(opts.subrange(0, i as int), T::NUMBER).len(),
                forall|k: int|
                    0 <= k < found@.len() ==> (#[trigger] found@[k]).stands_for(
                        values_of(opts.subrange(0, i as int), T::NUMBER)[k],
                    ),
            decreases self.entries@.len() - i,
        {
            let ghost done = opts.subrange(0, i as int);
            let ghost ahead = opts.subrange(i as int, opts.len() as int);
            let ghost next = opts.subrange(0, i + 1);
            proof {
                assert(ahead.drop_first() =~= opts.subrange(i + 1, opts.len() as int));
                assert(next.drop_last() =~= done);
                assert(next.last() == opts[i as int]);
            }
            if self.entries[i].number == T::NUMBER {
                match T::from_bytes(self.entries[i].value.as_slice()) {
                    Ok(opt) => {
                        found.push(opt);
                        any = true;
                    },
                    Err(e) => {
                        return Err(e);
                    },
                }
            } else {
            }
            i += 1;
        }
        if any {
            Ok(Some(found))
        } else {
            Ok(None)
        }
    }

    /// Whether there is a critical option that the registry does not know.
    pub fn has_unknown_critical(&self) -> (found: bool)
        ensures
            found == has_unknown_critical(self@),
    {
        let mut i: usize = 0;
        while i < self.entries.len()
            invariant
                i <= self.entries@.len(),
                self@.len() == self.entries@.len(),
                forall|k: int| 0 <= k < self@.len() ==> self@[k].number == self.entries@[k].number,
                forall|k: int|
                    0 <= k < i ==> spec_registered(#[trigger] self@[k].number) || spec_class(
                        self@[k].number,
                    ) != Class::Critical,
            decreases self.entries@.len() - i,
        {
            let number: u16 = self.entries[i].number;
            if !is_registered(number) && class_of(number) == Class::Critical {
                assert(!spec_registered(self@[i as int].number));
                return true;
            }
            i += 1;
        }
        false
    }

    /// Adds an option by number and raw value, whether the number is known or not.
    pub fn push_raw(&mut self, num: u16, raw: &[u8])
        ensures
            0 <= slot(old(self)@, num) <= old(self)@.len(),
            final(self)@ == old(self)@.insert(
                slot(old(self)@, num),
                RawOption { number: num, value: raw@ },
            ),
    {
        proof {
            use_type_invariant(&*self);
        }
        let ghost before = self@;
        let mut pos: usize = self.entries.len();
        proof {
            assert(before.subrange(0, pos as int) =~= before);
        }
        while pos > 0 && self.entries[pos - 1].number > num
            invariant
                pos <= self.entries@.len(),
                self@ == before,
                before.len() == self.entries@.len(),
                forall|i: int| 0 <= i < before.len() ==> before[i].number == self.entries@[i].number,
                slot(before, num) == slot(before.subrange(0, pos as int), num),
            decreases pos,
        {
            proof {
                assert(before.subrange(0, pos as int).drop_last() =~= before.subrange(
                    0,
                    pos - 1,
                ));
            }
            pos -= 1;
        }
        proof {
            lemma_slot_splits(before, num, raw@);
        }
        let mut value: Vec<u8> = Vec::new();
        value.extend_from_slice(raw);
        assert(value@ =~= raw@);
        let entry = Entry { number: num, value };
        proof {
            let after = before.insert(pos as int, RawOption { number: num, value: raw@ });
            let grown = self.entries@.insert(pos as int, entry);
            assert(entries_view(grown) =~= after);
        }
        let mut entries: Vec<Entry> = Vec::new();
        core::mem::swap(&mut self.entries, &mut entries);
        entries.insert(pos, entry);
        self.entries = entries;
    }
}

impl Clone for Opts {
    fn clone(&self) -> (opts: Opts)
        ensures
            opts@ == self@,
    {
        let mut entries: Vec<Entry> = Vec::new();
        let mut i: usize = 0;
        while i < self.entries.len()
            invariant
                i <= self.entries@.len(),
                entries@.len() == i,
                forall|k: int|
                    0 <= k < i ==> entries@[k].number == self.entries@[k].number
                        && entries@[k].value@ == self.entries@[k].value@,
            decreases self.entries@.len() - i,
        {
            let mut value: Vec<u8> = Vec::new();
            value.extend_from_slice(self.entries[i].value.as_slice());
            entries.push(Entry { number: self.entries[i].number, value });
            i += 1;
        }
        proof {
            use_type_invariant(self);
            assert(entries_view(entries@) =~= self@);
        }
        Opts { entries }
    }
}

} // verus!
