//! The dispatcher: it owns the table of exchanges, the message id counters
//! and the outbox, takes what the transport received, and decides what is
//! sent and which requests go to the handler. It does no input or output
//! itself: whoever drives it hands it the datagrams and the time, and sends
//! what it finds in the outbox.

use crate::codec::{ParsedMsg, ParsedMsgView};
use crate::error::{Error, ErrorKind, ErrorKindView};
use crate::exchange::{
    empty_message, first_wait, queue_with, Event, EventView, Exchange, ExchangeView, Key, Outbox,
    OutboxView, ToSend,
};
use crate::message::builder::MessageBuilder;
use crate::message::code::{ClientErrorCode, ResponseCode, SuccessCode};
use crate::message::header::MessageType;
use crate::message::message::{Message, MessageView};
use crate::message::option::has_unknown_critical;
use crate::midgen::MidGen;
use crate::peer::{PeerAddr, PeerIp};
use crate::request::{Request, RequestView};
use crate::response::{Carry, Response, ResponseView};
use vstd::prelude::*;

verus! {

/// How many messages the outbox of a server holds.
pub const OUTBOX_CAPACITY: usize = 1024;

/// The dispatcher.
#[derive(Debug)]
pub struct Server {
    mid: MidGen,
    exchanges: Vec<Exchange>,
    outbox: Outbox,
}

/// A dispatcher as a mathematical value.
pub struct ServerView {
    pub mids: Map<PeerIp, u16>,
    pub exchanges: Seq<ExchangeView>,
    pub outbox: OutboxView,
}

impl View for Server {
    type V = ServerView;

    closed spec fn view(&self) -> ServerView {
        ServerView {
            mids: self.mid@,
            exchanges: exchange_views(self.exchanges@),
            outbox: self.outbox@,
        }
    }
}

/// The views of the exchanges of a table.
pub open spec fn exchange_views(exchanges: Seq<Exchange>) -> Seq<ExchangeView> {
    Seq::new(exchanges.len(), |i: int| exchanges[i]@)
}

/// The key of an exchange: the peer and the message id of its request.
pub open spec fn key_of(exchange: ExchangeView) -> Key {
    Key(exchange.source, exchange.mid)
}

/// There is an exchange with key `key`.
pub open spec fn holds(exchanges: Seq<ExchangeView>, key: Key) -> bool {
    exists|i: int| 0 <= i < exchanges.len() && key_of(#[trigger] exchanges[i]) == key
}

/// The exchange at `at` is the first with key `key`.
pub open spec fn is_first(exchanges: Seq<ExchangeView>, key: Key, at: int) -> bool {
    &&& 0 <= at < exchanges.len()
    &&& key_of(exchanges[at]) == key
    &&& forall|k: int| 0 <= k < at ==> key_of(#[trigger] exchanges[k]) != key
}

/// The place of the first exchange with key `key`, where there is one.
pub open spec fn first(exchanges: Seq<ExchangeView>, key: Key) -> int {
    choose|at: int| is_first(exchanges, key, at)
}

/// Only one place is the first.
pub proof fn lemma_first_is_unique(exchanges: Seq<ExchangeView>, key: Key, at: int)
    requires
        is_first(exchanges, key, at),
    ensures
        holds(exchanges, key),
        first(exchanges, key) == at,
{
}

/// Where an exchange with key `key` is in the table, one of them is the first.
pub proof fn lemma_first_exists(exchanges: Seq<ExchangeView>, key: Key)
    requires
        holds(exchanges, key),
    ensures
        is_first(exchanges, key, first(exchanges, key)),
{
    let found = choose|i: int| 0 <= i < exchanges.len() && key_of(#[trigger] exchanges[i]) == key;
    lemma_first_before(exchanges, key, found);
}

/// Where the exchange at `at` has key `key`, some exchange up to `at` is
/// the first with that key.
proof fn lemma_first_before(exchanges: Seq<ExchangeView>, key: Key, at: int)
    requires
        0 <= at < exchanges.len(),
        key_of(exchanges[at]) == key,
    ensures
        is_first(exchanges, key, first(exchanges, key)),
    decreases at,
{
    if forall|k: int| 0 <= k < at ==> key_of(#[trigger] exchanges[k]) != key {
        assert(is_first(exchanges, key, at));
    } else {
        let earlier = choose|k: int| 0 <= k < at && key_of(#[trigger] exchanges[k]) == key;
        lemma_first_before(exchanges, key, earlier);
    }
}

/// The exchanges after a message from `src` that answers some of them: each
/// exchange whose last message it answers has taken it, the others are as
/// they were.
pub open spec fn answered(
    exchanges: Seq<ExchangeView>,
    message: MessageView,
    src: PeerAddr,
    now: u64,
) -> Seq<ExchangeView> {
    Seq::new(
        exchanges.len(),
        |i: int|
            if exchanges[i].answers(src, message.header.message_id) {
                exchanges[i].handle(message, now)
            } else {
                exchanges[i]
            },
    )
}

/// The response to a request with a critical option that is not known:
/// 4.02 Bad Option, with nothing in it.
pub open spec fn bad_option_response(dest: PeerAddr) -> ResponseView {
    ResponseView {
        dest,
        code: ResponseCode::ClientError(ClientErrorCode::BadOption),
        options: Seq::empty(),
        payload: None,
    }
}

/// The response that the handler is given to fill in: 2.05 Content for the
/// peer that sent the request, with nothing in it.
pub open spec fn blank_response(dest: PeerAddr) -> ResponseView {
    ResponseView {
        dest,
        code: ResponseCode::Success(SuccessCode::Content),
        options: Seq::empty(),
        payload: None,
    }
}

/// No two exchanges have the same key.
pub open spec fn distinct_keys(exchanges: Seq<ExchangeView>) -> bool {
    forall|i: int, j: int|
        0 <= i < j < exchanges.len() ==> key_of(#[trigger] exchanges[i]) != key_of(
            #[trigger] exchanges[j],
        )
}

/// What a datagram comes to.
pub struct Dispatch {
    /// The dispatcher afterwards.
    pub server: ServerView,
    /// The request that goes to the handler, with the response to fill in,
    /// where the datagram was a new request.
    pub handler: Option<(RequestView, ResponseView)>,
    /// A message was to be sent and found the outbox full.
    pub broken: bool,
}

impl ServerView {
    /// What holds of every dispatcher: no two exchanges in the table have
    /// the same peer and request message id, and the outbox holds no more
    /// messages than it has room for.
    pub open spec fn well_formed(self) -> bool {
        distinct_keys(self.exchanges) && self.outbox.well_formed()
    }

    /// Nothing happens.
    pub open spec fn idle(self) -> Dispatch {
        Dispatch { server: self, handler: None, broken: false }
    }

    /// `message` is put into the outbox for the peer at `dest`; where the
    /// outbox is full, nothing changes and the channel is broken.
    pub open spec fn emit(self, message: MessageView, dest: PeerAddr) -> Dispatch {
        if self.outbox.full() {
            Dispatch { server: self, handler: None, broken: true }
        } else {
            Dispatch {
                server: ServerView {
                    outbox: OutboxView {
                        queue: self.outbox.queue.push((message, dest)),
                        ..self.outbox
                    },
                    ..self
                },
                handler: None,
                broken: false,
            }
        }
    }

    /// What a message of the kind request from `src` comes to at `now`.
    ///
    /// A request whose peer and message id are those of an exchange in the
    /// table is the same request sent again: no exchange is made; the
    /// response of the exchange is sent again where there is one, else
    /// nothing happens. A message that is no proper request is answered
    /// with a reset. A request with a critical option that is not known is
    /// answered with 4.02 Bad Option, carried by the acknowledgement, and its
    /// exchange is kept to answer the request when it comes again. Any other
    /// request gets an exchange and goes to the handler.
    pub open spec fn request(self, message: MessageView, src: PeerAddr, now: u64) -> Dispatch {
        let key = Key(src, message.header.message_id);
        if holds(self.exchanges, key) {
            match self.exchanges[first(self.exchanges, key)].cached() {
                Some(response) => self.emit(response, src),
                None => self.idle(),
            }
        } else {
            match RequestView::of_message(src, message) {
                None => self.emit(
                    empty_message(MessageType::Reset, message.header.message_id),
                    src,
                ),
                Some(request) => {
                    let fresh = ExchangeView::of_request(request);
                    if has_unknown_critical(request.options) {
                        let step = fresh.step(
                            EventView::Piggyback(bad_option_response(src)),
                            now,
                            0,
                            self.mids,
                        );
                        if self.outbox.full() {
                            Dispatch { server: self, handler: None, broken: true }
                        } else {
                            Dispatch {
                                server: ServerView {
                                    exchanges: self.exchanges.push(
                                        ExchangeView { state: step.state, ..fresh },
                                    ),
                                    outbox: OutboxView {
                                        queue: queue_with(self.outbox.queue, step.sent, src),
                                        ..self.outbox
                                    },
                                    ..self
                                },
                                handler: None,
                                broken: false,
                            }
                        }
                    } else {
                        Dispatch {
                            server: ServerView { exchanges: self.exchanges.push(fresh), ..self },
                            handler: Some((request, blank_response(src))),
                            broken: false,
                        }
                    }
                },
            }
        }
    }

    /// What a datagram from `src` comes to at `now`.
    ///
    /// An invalid datagram is dropped; a rejected one is answered with a
    /// reset that has the message id of its header. Of the messages, one
    /// with a reserved code is dropped; a request is treated as `request`
    /// says; a reset or an acknowledgement is taken by the exchanges whose
    /// last message it answers; a ping, and any other empty message, is
    /// answered with a reset; any other response is dropped.
    pub open spec fn incoming(self, parsed: ParsedMsgView, src: PeerAddr, now: u64) -> Dispatch {
        match parsed {
            ParsedMsgView::Invalid(_) => self.idle(),
            ParsedMsgView::Reject(header, _) => self.emit(
                empty_message(MessageType::Reset, header.message_id),
                src,
            ),
            ParsedMsgView::Valid(message) => {
                let mid = message.header.message_id;
                if message.kind is Reserved {
                    self.idle()
                } else if message.kind is Request {
                    self.request(message, src, now)
                } else if message.header.mtype == MessageType::Reset
                    || message.header.mtype == MessageType::Acknowledgement {
                    if message.kind is Empty || message.header.mtype
                        == MessageType::Acknowledgement {
                        Dispatch {
                            server: ServerView {
                                exchanges: answered(self.exchanges, message, src, now),
                                ..self
                            },
                            handler: None,
                            broken: false,
                        }
                    } else {
                        self.idle()
                    }
                } else if message.kind is Empty {
                    self.emit(empty_message(MessageType::Reset, mid), src)
                } else {
                    self.idle()
                }
            },
        }
    }
}

/// What polling a run of exchanges at `now` comes to.
pub struct Sweep {
    /// The exchanges that are left: those polled that are not to be
    /// forgotten, and those that were not polled.
    pub exchanges: Seq<ExchangeView>,
    /// The outbox queue afterwards.
    pub queue: Seq<(MessageView, PeerAddr)>,
    /// A message was to be sent and found the outbox full.
    pub broken: bool,
}

/// Polls the exchanges at `now`, first to last. Each takes the step that a
/// tick makes it take; what it sends goes to the end of the queue; it is
/// dropped from the table where it can be forgotten afterwards. Polling
/// stops before the first exchange whose message finds the queue full.
pub open spec fn sweep(
    exchanges: Seq<ExchangeView>,
    queue: Seq<(MessageView, PeerAddr)>,
    capacity: nat,
    mids: Map<PeerIp, u16>,
    now: u64,
) -> Sweep
    decreases exchanges.len(),
{
    if exchanges.len() == 0 {
        Sweep { exchanges, queue, broken: false }
    } else {
        let head = exchanges[0];
        let step = head.step(EventView::Tick, now, 0, mids);
        if step.sent is Some && queue.len() >= capacity {
            Sweep { exchanges, queue, broken: true }
        } else {
            let polled = ExchangeView { state: step.state, ..head };
            let rest = sweep(
                exchanges.drop_first(),
                queue_with(queue, step.sent, head.source),
                capacity,
                mids,
                now,
            );
            Sweep {
                exchanges: if polled.forgettable(now) {
                    rest.exchanges
                } else {
                    seq![polled] + rest.exchanges
                },
                ..rest
            }
        }
    }
}

/// The outcome `rest` of polling on, with the exchanges `kept` that were
/// polled before and are still in the table.
pub open spec fn swept(kept: Seq<ExchangeView>, rest: Sweep) -> Sweep {
    Sweep { exchanges: kept + rest.exchanges, ..rest }
}

impl ServerView {
    /// What `event` for the exchange with key `key` comes to at `now`, with
    /// `jitter` as the first wait of a confirmable response. An event for an
    /// exchange that is not in the table is dropped. The first exchange with
    /// the key takes the step that the event makes it take; where the
    /// message that the step sends finds the outbox full, nothing changes
    /// and the channel is broken.
    pub open spec fn deliver(self, key: Key, event: EventView, now: u64, jitter: u64) -> Dispatch {
        if !holds(self.exchanges, key) {
            self.idle()
        } else {
            let at = first(self.exchanges, key);
            let exchange = self.exchanges[at];
            let step = exchange.step(event, now, jitter, self.mids);
            if step.sent is Some && self.outbox.full() {
                Dispatch { server: self, handler: None, broken: true }
            } else {
                Dispatch {
                    server: ServerView {
                        mids: step.mids,
                        exchanges: self.exchanges.update(
                            at,
                            ExchangeView { state: step.state, ..exchange },
                        ),
                        outbox: OutboxView {
                            queue: queue_with(self.outbox.queue, step.sent, exchange.source),
                            ..self.outbox
                        },
                    },
                    handler: None,
                    broken: false,
                }
            }
        }
    }
}

/// How the dispatcher stands after `deliver_with`, and what that reports:
/// what `ServerView::deliver` says has been done, and the call failed with
/// a broken channel exactly where a message found the outbox full.
pub open spec fn delivered(
    before: ServerView,
    key: Key,
    event: EventView,
    now: u64,
    jitter: u64,
    after: ServerView,
    r: Result<(), Error>,
) -> bool {
    let dispatch = before.deliver(key, event, now, jitter);
    &&& after == dispatch.server
    &&& match r {
        Ok(_) => !dispatch.broken,
        Err(e) => dispatch.broken && e@ == ErrorKindView::BrokenChannel("server tx"@),
    }
}

/// The view of what goes to the handler.
pub open spec fn handler_view(handler: Option<(Request, Response)>) -> Option<
    (RequestView, ResponseView),
> {
    match handler {
        Some((request, response)) => Some((request@, response@)),
        None => None,
    }
}

/// Taking a datagram leaves a well-formed dispatcher well formed.
pub proof fn lemma_incoming_keeps_well_formed(
    server: ServerView,
    parsed: ParsedMsgView,
    src: PeerAddr,
    now: u64,
)
    requires
        server.well_formed(),
    ensures
        server.incoming(parsed, src, now).server.well_formed(),
{
    match parsed {
        ParsedMsgView::Valid(message) => {
        },
        _ => {},
    }
}

/// Handing an exchange what its handler came to leaves a well-formed
/// dispatcher well formed.
pub proof fn lemma_deliver_keeps_well_formed(
    server: ServerView,
    key: Key,
    event: EventView,
    now: u64,
    jitter: u64,
)
    requires
        server.well_formed(),
    ensures
        server.deliver(key, event, now, jitter).server.well_formed(),
{
    if holds(server.exchanges, key) {
        lemma_first_exists(server.exchanges, key);
    }
}

/// Polling makes no exchange and changes no key: every exchange that is
/// left has the key of an exchange that was there, no two of them the same,
/// and the queue stays within its capacity.
pub proof fn lemma_sweep_keeps_well_formed(
    exchanges: Seq<ExchangeView>,
    queue: Seq<(MessageView, PeerAddr)>,
    capacity: nat,
    mids: Map<PeerIp, u16>,
    now: u64,
)
    requires
        distinct_keys(exchanges),
        queue.len() <= capacity,
    ensures
        ({
            let swept = sweep(exchanges, queue, capacity, mids, now);
            &&& distinct_keys(swept.exchanges)
            &&& swept.queue.len() <= capacity
            &&& forall|i: int|
                0 <= i < swept.exchanges.len() ==> holds(
                    exchanges,
                    key_of(#[trigger] swept.exchanges[i]),
                )
        }),
    decreases exchanges.len(),
{
    if exchanges.len() > 0 {
        let head = exchanges[0];
        let tail = exchanges.drop_first();
        let step = head.step(EventView::Tick, now, 0, mids);
        if !(step.sent is Some && queue.len() >= capacity) {
            let onward = queue_with(queue, step.sent, head.source);
            lemma_sweep_keeps_well_formed(tail, onward, capacity, mids, now);
        }
    }
}

/// A request is given one exchange, however often it comes. The first time
/// a proper request with a peer and message id that are new to the table
/// comes, the table gets one exchange, with that key. As long as the table
/// holds an exchange with that key, the request coming again gets no
/// exchange and does not go to the handler: the table and the message id
/// counters stay as they are, and all that is sent is the response of the
/// exchange, where it has one.
pub proof fn lemma_request_gets_one_exchange(
    server: ServerView,
    later: ServerView,
    message: MessageView,
    src: PeerAddr,
    now: u64,
    again: u64,
)
    requires
        message.kind is Request,
        RequestView::of_message(src, message) is Some,
        !holds(server.exchanges, Key(src, message.header.message_id)),
        !server.outbox.full(),
        holds(later.exchanges, Key(src, message.header.message_id)),
    ensures
        ({
            let key = Key(src, message.header.message_id);
            let first_time = server.incoming(ParsedMsgView::Valid(message), src, now);
            let second_time = first_time.server.incoming(ParsedMsgView::Valid(message), src, again);
            let any_time = later.incoming(ParsedMsgView::Valid(message), src, again);
            &&& !first_time.broken
            &&& first_time.server.exchanges.len() == server.exchanges.len() + 1
            &&& key_of(first_time.server.exchanges.last()) == key
            &&& holds(first_time.server.exchanges, key)
            &&& second_time.handler is None
            &&& second_time.server.exchanges == first_time.server.exchanges
            &&& second_time.server.mids == first_time.server.mids
            &&& any_time.handler is None
            &&& any_time.server.exchanges == later.exchanges
            &&& any_time.server.mids == later.mids
            &&& !any_time.broken ==> any_time.server.outbox.queue == queue_with(
                later.outbox.queue,
                later.exchanges[first(later.exchanges, key)].cached(),
                src,
            )
        }),
{
}

/// A reset from the peer reaches its exchange at once: every exchange whose
/// last message the reset answers, one that waits for the acknowledgement
/// of its response among them, is cancelled by the time the reset has been
/// taken, and nothing is sent for it.
pub proof fn lemma_reset_reaches_exchange(
    server: ServerView,
    reset: MessageView,
    src: PeerAddr,
    now: u64,
    at: int,
)
    requires
        reset.kind is Empty,
        reset.header.mtype == MessageType::Reset,
        0 <= at < server.exchanges.len(),
        server.exchanges[at].answers(src, reset.header.message_id),
    ensures
        ({
            let taken = server.incoming(ParsedMsgView::Valid(reset), src, now);
            &&& !taken.broken
            &&& taken.handler is None
            &&& taken.server.outbox == server.outbox
            &&& taken.server.exchanges.len() == server.exchanges.len()
            &&& taken.server.exchanges[at].state is Cancelled
            &&& taken.server.exchanges[at].forgettable(now)
        }),
{
}

/// Polling leaves no exchange in the table that can be forgotten: unless
/// the outbox broke, every exchange that is left is still under way or
/// holds a response that is kept for some time yet.
pub proof fn lemma_sweep_forgets(
    exchanges: Seq<ExchangeView>,
    queue: Seq<(MessageView, PeerAddr)>,
    capacity: nat,
    mids: Map<PeerIp, u16>,
    now: u64,
)
    ensures
        ({
            let swept = sweep(exchanges, queue, capacity, mids, now);
            !swept.broken ==> forall|i: int|
                0 <= i < swept.exchanges.len() ==> !(#[trigger] swept.exchanges[i]).forgettable(
                    now,
                )
        }),
    decreases exchanges.len(),
{
    if exchanges.len() > 0 {
        let head = exchanges[0];
        let step = head.step(EventView::Tick, now, 0, mids);
        if !(step.sent is Some && queue.len() >= capacity) {
            let onward = queue_with(queue, step.sent, head.source);
            lemma_sweep_forgets(exchanges.drop_first(), onward, capacity, mids, now);
            let rest = sweep(exchanges.drop_first(), onward, capacity, mids, now);
            assert(!rest.broken ==> forall|i: int|
                0 <= i < rest.exchanges.len() ==> !(#[trigger] rest.exchanges[i]).forgettable(
                    now,
                ));
        }
    }
}

/// A request with a critical option that is not known does not go to the
/// handler: it is answered with 4.02 Bad Option, carried by an
/// acknowledgement with the message id and the token of the request.
pub proof fn lemma_unknown_critical_is_refused(
    server: ServerView,
    message: MessageView,
    src: PeerAddr,
    now: u64,
)
    requires
        message.kind is Request,
        RequestView::of_message(src, message) is Some,
        has_unknown_critical(RequestView::of_message(src, message)->0.options),
        !holds(server.exchanges, Key(src, message.header.message_id)),
        !server.outbox.full(),
    ensures
        ({
            let request = RequestView::of_message(src, message)->0;
            let taken = server.incoming(ParsedMsgView::Valid(message), src, now);
            &&& !taken.broken
            &&& taken.handler is None
            &&& taken.server.outbox.queue.len() == server.outbox.queue.len() + 1
            &&& taken.server.outbox.queue.last().1 == src
            &&& taken.server.outbox.queue.last().0 == ExchangeView::of_request(
                request,
            ).piggyback(bad_option_response(src))
            &&& taken.server.outbox.queue.last().0.header.code == crate::message::code::RawCode(
                4,
                2,
            )
            &&& taken.server.outbox.queue.last().0.header.mtype == MessageType::Acknowledgement
            &&& taken.server.outbox.queue.last().0.header.message_id
                == message.header.message_id
        }),
{
}

impl Server {
    /// A dispatcher with no exchanges, fresh message id counters and an
    /// empty outbox of `OUTBOX_CAPACITY` messages.
    pub fn new() -> (server: Server)
        ensures
            server@ == (ServerView {
                mids: Map::empty(),
                exchanges: Seq::empty(),
                outbox: OutboxView { queue: Seq::empty(), capacity: OUTBOX_CAPACITY as nat },
            }),
            server@.well_formed(),
    {
        Server::with_capacity(OUTBOX_CAPACITY)
    }

    /// A dispatcher like a new one, with an outbox of `capacity` messages.
    pub fn with_capacity(capacity: usize) -> (server: Server)
        ensures
            server@ == (ServerView {
                mids: Map::empty(),
                exchanges: Seq::empty(),
                outbox: OutboxView { queue: Seq::empty(), capacity: capacity as nat },
            }),
            server@.well_formed(),
    {
        let server = Server {
            mid: MidGen::new(),
            exchanges: Vec::new(),
            outbox: Outbox::new(capacity),
        };
        assert(server@.exchanges =~= Seq::empty());
        server
    }

    /// How many exchanges the table holds.
    pub fn len(&self) -> (n: usize)
        ensures
            n == self@.exchanges.len(),
    {
        self.exchanges.len()
    }

    /// The place of the first exchange with key `key`.
    pub fn find(&self, key: Key) -> (found: Option<usize>)
        ensures
            match found {
                Some(at) => is_first(self@.exchanges, key, at as int),
                None => !holds(self@.exchanges, key),
            },
    {
        let mut i: usize = 0;
        while i < self.exchanges.len()
            invariant
                i <= self.exchanges@.len(),
                self@.exchanges.len() == self.exchanges@.len(),
                forall|k: int| 0 <= k < i ==> key_of(#[trigger] self@.exchanges[k]) != key,
            decreases self.exchanges@.len() - i,
        {
            if self.exchanges[i].key() == key {
                return Some(i);
            }
            i += 1;
        }
        None
    }

    /// The exchange at `at`, where the table has as many.
    pub fn exchange(&self, at: usize) -> (exchange: Option<&Exchange>)
        ensures
            match exchange {
                Some(e) => at < self@.exchanges.len() && e@ == self@.exchanges[at as int],
                None => at >= self@.exchanges.len(),
            },
    {
        if at < self.exchanges.len() {
            Some(&self.exchanges[at])
        } else {
            None
        }
    }

    /// Puts `message` into the outbox for the peer at `dest`.
    fn emit(&mut self, message: Message, dest: PeerAddr) -> (r: Result<(), Error>)
        ensures
            final(self)@ == old(self)@.emit(message@, dest).server,
            match r {
                Ok(_) => !old(self)@.emit(message@, dest).broken,
                Err(e) => old(self)@.emit(message@, dest).broken && e@
                    == ErrorKindView::BrokenChannel("server tx"@),
            },
    {
        self.outbox.try_send(ToSend(message, dest))
    }

    /// Lets every exchange whose last message `message` answers take it.
    fn answer(&mut self, message: &Message, src: PeerAddr, now: u64)
        ensures
            final(self)@ == (ServerView {
                exchanges: answered(old(self)@.exchanges, message@, src, now),
                ..old(self)@
            }),
    {
        let mid: u16 = message.header().message_id();
        let ghost before = self@.exchanges;
        let mut i: usize = 0;
        while i < self.exchanges.len()
            invariant
                i <= self.exchanges@.len(),
                mid == message@.header.message_id,
                self@.exchanges.len() == before.len(),
                self.exchanges@.len() == before.len(),
                self@.mids == old(self)@.mids,
                self@.outbox == old(self)@.outbox,
                forall|k: int|
                    0 <= k < i ==> self@.exchanges[k] == answered(before, message@, src, now)[k],
                forall|k: int| i <= k < before.len() ==> self@.exchanges[k] == before[k],
            decreases self.exchanges@.len() - i,
        {
            let ghost views = self@.exchanges;
            if self.exchanges[i].answers(src, mid) {
                self.exchanges[i].handle(message, now);
            }
            proof {
                assert forall|k: int| 0 <= k < i + 1 implies self@.exchanges[k] == answered(
                    before,
                    message@,
                    src,
                    now,
                )[k] by {
                    if k < i {
                        assert(self@.exchanges[k] == views[k]);
                    }
                }
            }
            i += 1;
        }
        assert(self@.exchanges =~= answered(before, message@, src, now));
    }

    /// Takes a datagram that the transport received from `src` at `now`,
    /// and does with it what `ServerView::incoming` says. It gives back the
    /// request that is to go to the handler, with the response to fill in,
    /// where the datagram was a new request, and fails with a broken channel
    /// where a message was to be sent and found the outbox full.
    pub fn poll_incoming(&mut self, parsed: ParsedMsg, src: PeerAddr, now: u64) -> (r: Result<
        Option<(Request, Response)>,
        Error,
    >)
        ensures
            final(self)@ == old(self)@.incoming(parsed@, src, now).server,
            old(self)@.well_formed() ==> final(self)@.well_formed(),
            match r {
                Ok(handler) => !old(self)@.incoming(parsed@, src, now).broken && handler_view(
                    handler,
                ) == old(self)@.incoming(parsed@, src, now).handler,
                Err(e) => old(self)@.incoming(parsed@, src, now).broken && e@
                    == ErrorKindView::BrokenChannel("server tx"@),
            },
    {
        proof {
            if self@.well_formed() {
                lemma_incoming_keeps_well_formed(self@, parsed@, src, now);
            }
        }
        let msg = match parsed {
            ParsedMsg::Valid(msg) => msg,
            ParsedMsg::Reject(header, _) => {
                let rst = MessageBuilder::reset(header.message_id()).build();
                return match self.emit(rst, src) {
                    Ok(_) => Ok(None),
                    Err(e) => Err(e),
                };
            },
            ParsedMsg::Invalid(_) => {
                return Ok(None);
            },
        };
        let mid: u16 = msg.header().message_id();
        let mtype = msg.header().message_type();
        if msg.is_reserved() {
            return Ok(None);
        }
        if msg.is_request() {
            return self.request(msg, src, now);
        }
        if mtype == MessageType::Reset || mtype == MessageType::Acknowledgement {
            if msg.is_empty() || mtype == MessageType::Acknowledgement {
                self.answer(&msg, src, now);
            }
            return Ok(None);
        }
        if msg.is_empty() {
            let rst = MessageBuilder::reset(mid).build();
            return match self.emit(rst, src) {
                Ok(_) => Ok(None),
                Err(e) => Err(e),
            };
        }
        Ok(None)
    }

    /// Takes a message of the kind request, as `ServerView::request` says.
    fn request(&mut self, msg: Message, src: PeerAddr, now: u64) -> (r: Result<
        Option<(Request, Response)>,
        Error,
    >)
        requires
            msg@.kind is Request,
        ensures
            final(self)@ == old(self)@.request(msg@, src, now).server,
            match r {
                Ok(handler) => !old(self)@.request(msg@, src, now).broken && handler_view(handler)
                    == old(self)@.request(msg@, src, now).handler,
                Err(e) => old(self)@.request(msg@, src, now).broken && e@
                    == ErrorKindView::BrokenChannel("server tx"@),
            },
    {
        let mid: u16 = msg.header().message_id();
        let key = Key::new(src, mid);
        match self.find(key) {
            Some(at) => {
                proof {
                    lemma_first_is_unique(self@.exchanges, key, at as int);
                }
                match self.exchanges[at].cached() {
                    Some(response) => match self.emit(response, src) {
                        Ok(_) => Ok(None),
                        Err(e) => Err(e),
                    },
                    None => Ok(None),
                }
            },
            None => {
                let req = match Request::from_message(src, msg) {
                    Some(req) => req,
                    None => {
                        let rst = MessageBuilder::reset(mid).build();
                        return match self.emit(rst, src) {
                            Ok(_) => Ok(None),
                            Err(e) => Err(e),
                        };
                    },
                };
                let mut exch = Exchange::new(&req);
                if req.options().has_unknown_critical() {
                    let res = Response::with_code(
                        src,
                        ResponseCode::ClientError(ClientErrorCode::BadOption),
                    );
                    match exch.poll_with(
                        Event::Carry(Carry::Piggyback(res)),
                        now,
                        0,
                        &mut self.mid,
                        &mut self.outbox,
                    ) {
                        Err(e) => {
                            return Err(e);
                        },
                        Ok(_) => {},
                    }
                    self.exchanges.push(exch);
                    assert(self@.exchanges =~= old(self)@.exchanges.push(exch@));
                    return Ok(None);
                }
                let res = Response::from_request(&req);
                self.exchanges.push(exch);
                assert(self@.exchanges =~= old(self)@.exchanges.push(exch@));
                Ok(Some((req, res)))
            },
        }
    }

    /// Hands the exchange with key `key` what its handler came to: the
    /// answer, the separate response, or the failure. Where the step starts
    /// to wait for an acknowledgement, the first wait is drawn at random
    /// from `ACK_TIMEOUT` up to, but not including, `ACK_TIMEOUT_MAX`; all
    /// else is as `deliver_with` says.
    pub fn deliver(&mut self, key: Key, event: Event, now: u64) -> (r: Result<(), Error>)
        ensures
            exists|jitter: u64|
                crate::params::ACK_TIMEOUT <= jitter < crate::params::ACK_TIMEOUT_MAX
                    && #[trigger] delivered(old(self)@, key, event@, now, jitter, final(self)@, r),
            old(self)@.well_formed() ==> final(self)@.well_formed(),
    {
        let jitter: u64 = first_wait();
        let r = self.deliver_with(key, event, now, jitter);
        r
    }

    /// Hands the exchange with key `key` what its handler came to, as
    /// `ServerView::deliver` says. It fails with a broken channel where a
    /// message was to be sent and found the outbox full; a failure that
    /// ends the exchange alone is no failure of the dispatcher.
    pub fn deliver_with(&mut self, key: Key, event: Event, now: u64, jitter: u64) -> (r: Result<
        (),
        Error,
    >)
        ensures
            delivered(old(self)@, key, event@, now, jitter, final(self)@, r),
            old(self)@.well_formed() ==> final(self)@.well_formed(),
    {
        proof {
            if self@.well_formed() {
                lemma_deliver_keeps_well_formed(self@, key, event@, now, jitter);
            }
        }
        let at: usize = match self.find(key) {
            Some(at) => at,
            None => {
                return Ok(());
            },
        };
        proof {
            lemma_first_is_unique(self@.exchanges, key, at as int);
        }
        let ghost views = self@.exchanges;
        let polled = self.exchanges[at].poll_with(event, now, jitter, &mut self.mid, &mut self.outbox);
        proof {
            assert(self@.exchanges =~= views.update(at as int, self.exchanges@[at as int]@));
        }
        match polled {
            Ok(_) => Ok(()),
            Err(e) => match e.kind() {
                ErrorKind::BrokenChannel(_) => {
                    assert(self@.exchanges =~= views);
                    Err(e)
                },
                _ => Ok(()),
            },
        }
    }

    /// Polls every exchange at `now`, as `sweep` says: responses whose timer
    /// has run out are sent again or given up, and exchanges that can be
    /// forgotten leave the table. It fails with a broken channel where a
    /// message was to be sent and found the outbox full; the exchanges
    /// polled before that have taken their steps.
    pub fn poll_exchanges(&mut self, now: u64) -> (r: Result<(), Error>)
        ensures
            ({
                let swept = sweep(
                    old(self)@.exchanges,
                    old(self)@.outbox.queue,
                    old(self)@.outbox.capacity,
                    old(self)@.mids,
                    now,
                );
                &&& final(self)@ == (ServerView {
                    exchanges: swept.exchanges,
                    outbox: OutboxView { queue: swept.queue, ..old(self)@.outbox },
                    ..old(self)@
                })
                &&& match r {
                    Ok(_) => !swept.broken,
                    Err(e) => swept.broken && e@ == ErrorKindView::BrokenChannel("server tx"@),
                }
            }),
            old(self)@.well_formed() ==> final(self)@.well_formed(),
    {
        proof {
            if self@.well_formed() {
                lemma_sweep_keeps_well_formed(
                    self@.exchanges,
                    self@.outbox.queue,
                    self@.outbox.capacity,
                    self@.mids,
                    now,
                );
            }
        }
        let ghost start = self@;
        let ghost goal = sweep(
            start.exchanges,
            start.outbox.queue,
            start.outbox.capacity,
            start.mids,
            now,
        );
        let mut i: usize = 0;
        proof {
            assert(self@.exchanges.subrange(0, 0) + self@.exchanges.subrange(
                0,
                self@.exchanges.len() as int,
            ) =~= self@.exchanges);
        }
        while i < self.exchanges.len()
            invariant
                i <= self.exchanges@.len(),
                self@.exchanges.len() == self.exchanges@.len(),
                start == old(self)@,
                goal == sweep(
                    start.exchanges,
                    start.outbox.queue,
                    start.outbox.capacity,
                    start.mids,
                    now,
                ),
                self@.mids == start.mids,
                self@.outbox.capacity == start.outbox.capacity,
                start.well_formed() ==> distinct_keys(goal.exchanges) && goal.queue.len()
                    <= start.outbox.capacity,
                goal == swept(
                    self@.exchanges.subrange(0, i as int),
                    sweep(
                        self@.exchanges.subrange(i as int, self@.exchanges.len() as int),
                        self@.outbox.queue,
                        start.outbox.capacity,
                        start.mids,
                        now,
                    ),
                ),
            decreases self.exchanges@.len() - i,
        {
            let ghost views = self@.exchanges;
            let ghost kept = views.subrange(0, i as int);
            let ghost ahead = views.subrange(i as int, views.len() as int);
            let polled = self.exchanges[i].poll_with(
                Event::Tick,
                now,
                0,
                &mut self.mid,
                &mut self.outbox,
            );
            if let Err(e) = polled {
                if let ErrorKind::BrokenChannel(_) = e.kind() {
                    proof {
                        assert(self@.exchanges =~= views);
                        assert(kept + ahead =~= views);
                    }
                    return Err(e);
                }
            }
            let ghost after = self@.exchanges[i as int];
            if self.exchanges[i].forgettable(now) {
                let _ = self.exchanges.remove(i);
                proof {
                    assert(self@.exchanges.subrange(0, i as int) =~= kept);
                    assert(self@.exchanges.subrange(i as int, self@.exchanges.len() as int)
                        =~= ahead.drop_first());
                }
            } else {
                proof {
                    assert(self@.exchanges.subrange(0, i + 1) =~= kept.push(after));
                    assert(self@.exchanges.subrange(i + 1, self@.exchanges.len() as int)
                        =~= ahead.drop_first());
                    let rest = sweep(
                        ahead.drop_first(),
                        self@.outbox.queue,
                        start.outbox.capacity,
                        start.mids,
                        now,
                    );
                    assert(kept + (seq![after] + rest.exchanges) =~= kept.push(after)
                        + rest.exchanges);
                }
                i += 1;
            }
        }
        proof {
            assert(self@.exchanges.subrange(0, i as int) =~= self@.exchanges);
        }
        Ok(())
    }

    /// Cancels every exchange that is under way, as a server does that is
    /// shut down. What is in the outbox stays there.
    pub fn shutdown(&mut self)
        ensures
            final(self)@ == (ServerView {
                exchanges: Seq::new(
                    old(self)@.exchanges.len(),
                    |i: int| old(self)@.exchanges[i].cancelled(),
                ),
                ..old(self)@
            }),
            old(self)@.well_formed() ==> final(self)@.well_formed(),
    {
        let ghost before = self@.exchanges;
        let mut i: usize = 0;
        while i < self.exchanges.len()
            invariant
                i <= self.exchanges@.len(),
                before == old(self)@.exchanges,
                self@.exchanges.len() == before.len(),
                self.exchanges@.len() == before.len(),
                self@.mids == old(self)@.mids,
                self@.outbox == old(self)@.outbox,
                forall|k: int| 0 <= k < i ==> self@.exchanges[k] == before[k].cancelled(),
                forall|k: int| i <= k < before.len() ==> self@.exchanges[k] == before[k],
            decreases self.exchanges@.len() - i,
        {
            let ghost views = self@.exchanges;
            self.exchanges[i].cancel();
            proof {
                assert forall|k: int| 0 <= k < i + 1 implies self@.exchanges[k]
                    == before[k].cancelled() by {
                    if k < i {
                        assert(self@.exchanges[k] == views[k]);
                    }
                }
            }
            i += 1;
        }
        assert(self@.exchanges =~= Seq::new(before.len(), |i: int| before[i].cancelled()));
    }

    /// Takes every message out of the outbox, for the transport to send
    /// them in this order.
    pub fn poll_outgoing(&mut self) -> (items: Vec<ToSend>)
        ensures
            items@.len() == old(self)@.outbox.queue.len(),
            forall|i: int| 0 <= i < items@.len() ==> items@[i]@ == old(self)@.outbox.queue[i],
            final(self)@ == (ServerView {
                outbox: OutboxView { queue: Seq::empty(), ..old(self)@.outbox },
                ..old(self)@
            }),
            old(self)@.well_formed() ==> final(self)@.well_formed(),
    {
        self.outbox.drain()
    }
}

} // verus!
