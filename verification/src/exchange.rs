//! One exchange: a request, the response to it, and what has to happen in
//! between so that the response arrives.

use crate::error::{Error, ErrorKindView};
use crate::message::body::BodyView;
use crate::message::builder::MessageBuilder;
use crate::message::code::{Method, RawCode, ResponseCode, ServerErrorCode};
use crate::message::header::{Header, MessageType};
use crate::message::message::{Message, MessageKindView, MessageView};
use crate::message::token::Token;
use crate::midgen::MidGen;
use crate::params::{
    ACK_TIMEOUT, ACK_TIMEOUT_MAX, EXCHANGE_LIFETIME, MAX_RETRANSMIT, VERSION,
};
use crate::peer::{PeerAddr, PeerIp};
use crate::reliability::Reliablity;
use crate::request::Request;
use crate::response::{Carry, Response, ResponseView};
use rand::Rng;
use vstd::arithmetic::power2::{lemma_pow2_unfold, pow2};
use vstd::prelude::*;

verus! {

/// A message and the peer it goes to.
#[derive(Debug)]
pub struct ToSend(pub Message, pub PeerAddr);

impl View for ToSend {
    type V = (MessageView, PeerAddr);

    open spec fn view(&self) -> (MessageView, PeerAddr) {
        (self.0@, self.1)
    }
}

/// What an exchange is known by: the peer and the message id of its request.
#[derive(Clone, Copy, Debug, Hash, PartialEq, Eq, Structural)]
pub struct Key(pub PeerAddr, pub u16);

impl Key {
    #[inline]
    pub fn new(addr: PeerAddr, mid: u16) -> (key: Key)
        ensures
            key == Key(addr, mid),
    {
        Key(addr, mid)
    }

    pub fn from_request(request: &Request) -> (key: Key)
        ensures
            key == Key(request@.source, request@.message_id),
    {
        Key(request.source(), request.message_id())
    }
}

/// Whether something that is polled has come to its end.
#[derive(Clone, Copy, Debug, PartialEq, Eq, Structural)]
pub enum Async {
    Ready,
    NotReady,
}

/// The queue of messages that wait to be handed to the transport. It holds
/// at most `capacity` messages.
#[derive(Debug)]
pub struct Outbox {
    queue: Vec<ToSend>,
    capacity: usize,
}

/// An outbox as a mathematical value.
pub struct OutboxView {
    pub queue: Seq<(MessageView, PeerAddr)>,
    pub capacity: nat,
}

impl OutboxView {
    /// The queue holds no more messages than it has room for.
    pub open spec fn well_formed(self) -> bool {
        self.queue.len() <= self.capacity
    }

    /// There is no room for one more message.
    pub open spec fn full(self) -> bool {
        self.queue.len() >= self.capacity
    }
}

impl View for Outbox {
    type V = OutboxView;

    closed spec fn view(&self) -> OutboxView {
        OutboxView {
            queue: Seq::new(self.queue@.len(), |i: int| self.queue@[i]@),
            capacity: self.capacity as nat,
        }
    }
}

impl Outbox {
    /// An empty outbox with room for `capacity` messages.
    pub fn new(capacity: usize) -> (outbox: Outbox)
        ensures
            outbox@ == (OutboxView { queue: Seq::empty(), capacity: capacity as nat }),
            outbox@.well_formed(),
    {
        let outbox = Outbox { queue: Vec::new(), capacity };
        assert(outbox@.queue =~= Seq::empty());
        outbox
    }

    pub fn len(&self) -> (n: usize)
        ensures
            n == self@.queue.len(),
    {
        self.queue.len()
    }

    pub fn is_full(&self) -> (full: bool)
        ensures
            full == self@.full(),
    {
        self.queue.len() >= self.capacity
    }

    /// Puts a message at the end of the queue, or fails with a broken
    /// channel and leaves the queue as it is where the queue is full.
    pub fn try_send(&mut self, item: ToSend) -> (r: Result<(), Error>)
        ensures
            match r {
                Ok(_) => !old(self)@.full() && final(self)@ == (OutboxView {
                    queue: old(self)@.queue.push(item@),
                    ..old(self)@
                }),
                Err(e) => old(self)@.full() && final(self)@ == old(self)@ && e@
                    == ErrorKindView::BrokenChannel("server tx"@),
            },
            old(self)@.well_formed() ==> final(self)@.well_formed(),
    {
        if self.queue.len() >= self.capacity {
            return Err(Error::broken_channel_at("server tx"));
        }
        self.queue.push(item);
        assert(self@.queue =~= old(self)@.queue.push(item@));
        Ok(())
    }

    /// Takes every message out of the queue, in the order in which they were put in.
    pub fn drain(&mut self) -> (items: Vec<ToSend>)
        ensures
            items@.len() == old(self)@.queue.len(),
            forall|i: int| 0 <= i < items@.len() ==> items@[i]@ == old(self)@.queue[i],
            final(self)@ == (OutboxView { queue: Seq::empty(), ..old(self)@ }),
    {
        let mut items: Vec<ToSend> = Vec::new();
        core::mem::swap(&mut self.queue, &mut items);
        assert(self@.queue =~= Seq::empty());
        items
    }
}

/// `Rng::gen_range` on the thread's generator: a number drawn from `low`
/// up to, but not including, `high`. It panics on an empty range.
#[verifier::external_body]
fn random_between(low: u64, high: u64) -> (n: u64)
    requires
        low < high,
    ensures
        low <= n < high,
{
    rand::thread_rng().gen_range(low, high)
}

/// The first wait for the acknowledgement of a confirmable response, drawn
/// at random from `ACK_TIMEOUT` up to, but not including, `ACK_TIMEOUT_MAX`.
pub fn first_wait() -> (delay: u64)
    ensures
        ACK_TIMEOUT <= delay < ACK_TIMEOUT_MAX,
{
    random_between(ACK_TIMEOUT, ACK_TIMEOUT_MAX)
}

/// `now + delay`, or the greatest time there is where the sum would pass it.
pub open spec fn spec_after(now: u64, delay: int) -> u64 {
    if now + delay > u64::MAX {
        u64::MAX
    } else {
        (now + delay) as u64
    }
}

/// The wait that follows the retransmission numbered `retr`:
/// `ACK_TIMEOUT * 2^retr`.
pub open spec fn spec_backoff(retr: nat) -> int {
    ACK_TIMEOUT * pow2(retr)
}

/// What polling a transmission can say.
#[derive(Clone, Copy, Debug, PartialEq, Eq, Structural)]
pub enum Retry {
    /// The timer has not run out.
    Wait,
    /// The timer has run out: the message is to be sent again.
    Resend,
    /// The timer has run out and the message has been sent as often as allowed.
    GiveUp,
}

/// The timer of a confirmable response: when it runs out next, and how
/// often the response has been sent again.
#[derive(Clone, Copy, Debug, PartialEq, Eq, Structural)]
pub struct Transmition {
    pub deadline: u64,
    pub retr: u32,
}

impl Transmition {
    /// The transmission of a message sent at `now` whose first wait is `delay`.
    pub open spec fn spec_with_delay(now: u64, delay: u64) -> Transmition {
        Transmition { deadline: spec_after(now, delay as int), retr: 0 }
    }

    /// What the timer says at `now`.
    pub open spec fn spec_due(self, now: u64) -> Retry {
        if now < self.deadline {
            Retry::Wait
        } else if self.retr < MAX_RETRANSMIT {
            Retry::Resend
        } else {
            Retry::GiveUp
        }
    }

    /// The transmission after the message was sent again at `now`: one more
    /// retransmission, and a wait twice as long as the one before.
    pub open spec fn spec_resent(self, now: u64) -> Transmition {
        Transmition {
            deadline: spec_after(now, spec_backoff((self.retr + 1) as nat)),
            retr: (self.retr + 1) as u32,
        }
    }

    /// The transmission of a message sent at `now`. The first wait is drawn
    /// at random from `ACK_TIMEOUT` up to, but not including,
    /// `ACK_TIMEOUT` times the random factor.
    pub fn new(now: u64) -> (t: Transmition)
        ensures
            exists|delay: u64|
                ACK_TIMEOUT <= delay < ACK_TIMEOUT_MAX && t == #[trigger] Transmition::spec_with_delay(
                    now,
                    delay,
                ),
    {
        Transmition::with_delay(now, first_wait())
    }

    /// The transmission of a message sent at `now` whose first wait is `delay`.
    pub fn with_delay(now: u64, delay: u64) -> (t: Transmition)
        ensures
            t == Transmition::spec_with_delay(now, delay),
    {
        Transmition { deadline: now.saturating_add(delay), retr: 0 }
    }

    /// What the timer says at `now`, without touching it.
    pub fn due(&self, now: u64) -> (retry: Retry)
        ensures
            retry == self.spec_due(now),
    {
        if now < self.deadline {
            Retry::Wait
        } else if self.retr < MAX_RETRANSMIT {
            Retry::Resend
        } else {
            Retry::GiveUp
        }
    }

    /// Polls the timer at `now`. Where the timer has run out and the message
    /// may be sent again, the next wait starts at `now`.
    pub fn poll_retry(&mut self, now: u64) -> (r: Result<Async, ()>)
        ensures
            match old(self).spec_due(now) {
                Retry::Wait => r == Ok::<Async, ()>(Async::NotReady) && *final(self) == *old(
                    self,
                ),
                Retry::Resend => r == Ok::<Async, ()>(Async::Ready) && *final(self) == old(
                    self,
                ).spec_resent(now),
                Retry::GiveUp => r is Err && *final(self) == *old(self),
            },
    {
        match self.due(now) {
            Retry::Wait => Ok(Async::NotReady),
            Retry::GiveUp => Err(()),
            Retry::Resend => {
                let retr: u32 = self.retr + 1;
                let mut timeout: u64 = ACK_TIMEOUT;
                let mut i: u32 = 0;
                proof {
                    vstd::arithmetic::power2::lemma2_to64();
                }
                while i < retr
                    invariant
                        i <= retr <= MAX_RETRANSMIT,
                        timeout == ACK_TIMEOUT * pow2(i as nat),
                        timeout <= ACK_TIMEOUT * 16,
                    decreases retr - i,
                {
                    proof {
                        lemma_pow2_unfold((i + 1) as nat);
                        vstd::arithmetic::power2::lemma2_to64();
                        vstd::arithmetic::power2::lemma_pow2_strictly_increases(i as nat, 4);
                    }
                    timeout = timeout * 2;
                    i += 1;
                }
                self.retr = retr;
                self.deadline = now.saturating_add(timeout);
                Ok(Async::Ready)
            },
        }
    }
}

/// The message that carries `res` with the given type, message id and token.
pub open spec fn response_message(
    res: ResponseView,
    mtype: MessageType,
    mid: u16,
    token: Seq<u8>,
) -> MessageView {
    MessageView {
        header: Header {
            version: VERSION,
            mtype,
            tkl: token.len() as usize,
            code: res.code.spec_as_raw_code(),
            message_id: mid,
        },
        kind: MessageKindView::Response(
            BodyView { token, options: res.options, payload: res.payload },
        ),
    }
}

/// The empty message with the given type and message id.
pub open spec fn empty_message(mtype: MessageType, mid: u16) -> MessageView {
    MessageView {
        header: Header { version: VERSION, mtype, tkl: 0, code: RawCode(0, 0), message_id: mid },
        kind: MessageKindView::Empty,
    }
}

/// The response that stands for a handler that failed:
/// 5.00 Internal Server Error, with nothing in it.
pub open spec fn failure_response(dest: PeerAddr) -> ResponseView {
    ResponseView {
        dest,
        code: ResponseCode::ServerError(ServerErrorCode::InternalServerError),
        options: Seq::empty(),
        payload: None,
    }
}

/// Where an exchange stands.
#[derive(Debug)]
pub enum State {
    /// The handler has the request and has not answered.
    Handling,
    /// The handler has promised a separate response, to be sent with the
    /// given reliability.
    HandlingSep(Reliablity),
    /// A confirmable separate response was sent and is not acknowledged yet:
    /// its timer, the response, and the message that carries it.
    Responding(Transmition, Response, Message),
    /// The response was sent: the response, the message that carried it,
    /// and the time up to which the exchange is kept to answer a request
    /// that is sent again.
    Done(Response, Message, u64),
    /// The peer reset the exchange.
    Cancelled,
    /// The response was sent again as often as allowed and never acknowledged.
    TimedOut,
    /// The handler failed after the request had been acknowledged.
    Failed,
}

/// The state of an exchange as a mathematical value.
pub enum StateView {
    Handling,
    HandlingSep(Reliablity),
    Responding(Transmition, ResponseView, MessageView),
    Done(ResponseView, MessageView, u64),
    Cancelled,
    TimedOut,
    Failed,
}

impl View for State {
    type V = StateView;

    open spec fn view(&self) -> StateView {
        match *self {
            State::Handling => StateView::Handling,
            State::HandlingSep(rel) => StateView::HandlingSep(rel),
            State::Responding(t, res, msg) => StateView::Responding(t, res@, msg@),
            State::Done(res, msg, until) => StateView::Done(res@, msg@, until),
            State::Cancelled => StateView::Cancelled,
            State::TimedOut => StateView::TimedOut,
            State::Failed => StateView::Failed,
        }
    }
}

/// What can happen to an exchange.
#[derive(Debug)]
pub enum Event {
    /// Time has passed.
    Tick,
    /// The handler has answered.
    Carry(Carry),
    /// The separate response that the handler promised is there.
    Finished(Response),
    /// The handler failed, or went away without an answer.
    Failed,
}

/// An event as a mathematical value.
pub enum EventView {
    Tick,
    Piggyback(ResponseView),
    Seperate(Reliablity),
    Finished(ResponseView),
    Failed,
}

impl View for Event {
    type V = EventView;

    open spec fn view(&self) -> EventView {
        match *self {
            Event::Tick => EventView::Tick,
            Event::Carry(Carry::Piggyback(res)) => EventView::Piggyback(res@),
            Event::Carry(Carry::Seperate(rel)) => EventView::Seperate(rel),
            Event::Finished(res) => EventView::Finished(res@),
            Event::Failed => EventView::Failed,
        }
    }
}

/// An exchange.
#[derive(Debug)]
pub struct Exchange {
    source: PeerAddr,
    method: Method,
    mid: u16,
    reliablity: Reliablity,
    token: Token,
    state: State,
}

/// An exchange as a mathematical value.
pub struct ExchangeView {
    pub source: PeerAddr,
    pub method: Method,
    pub mid: u16,
    pub reliablity: Reliablity,
    pub token: Seq<u8>,
    pub state: StateView,
}

impl View for Exchange {
    type V = ExchangeView;

    closed spec fn view(&self) -> ExchangeView {
        ExchangeView {
            source: self.source,
            method: self.method,
            mid: self.mid,
            reliablity: self.reliablity,
            token: self.token@,
            state: self.state@,
        }
    }
}

/// What a step of an exchange comes to.
pub struct Step {
    /// The state after the step.
    pub state: StateView,
    /// The message id counters after the step.
    pub mids: Map<PeerIp, u16>,
    /// The message that the step sends to the peer, if it sends one.
    pub sent: Option<MessageView>,
    /// What polling reports: ready, not ready, or the failure that ended the exchange.
    pub result: Result<Async, ErrorKindView>,
}

impl ExchangeView {
    /// The exchange of a request in the hands of the handler.
    pub open spec fn of_request(request: crate::request::RequestView) -> ExchangeView {
        ExchangeView {
            source: request.source,
            method: request.method,
            mid: request.message_id,
            reliablity: request.reliablity,
            token: request.token,
            state: StateView::Handling,
        }
    }

    /// The acknowledgement that carries `res`: it has the message id and the
    /// token of the request.
    pub open spec fn piggyback(self, res: ResponseView) -> MessageView {
        response_message(res, MessageType::Acknowledgement, self.mid, self.token)
    }

    /// The exchange has come to an end.
    pub open spec fn ended(self) -> bool {
        !(self.state is Handling || self.state is HandlingSep || self.state is Responding)
    }

    /// The message id that the peer answers when it acknowledges or resets
    /// the last message of the exchange: the id of the request, or the id of
    /// the separate response once that was sent.
    pub open spec fn outstanding_mid(self) -> u16 {
        match self.state {
            StateView::Responding(_, _, msg) => msg.header.message_id,
            StateView::Done(_, msg, _) => msg.header.message_id,
            _ => self.mid,
        }
    }

    /// The exchange after it was cancelled: cancelled where it was under
    /// way, as it was where it had come to an end.
    pub open spec fn cancelled(self) -> ExchangeView {
        if self.ended() {
            self
        } else {
            ExchangeView { state: StateView::Cancelled, ..self }
        }
    }

    /// A message from `src` with message id `mid` answers the last message
    /// of the exchange.
    pub open spec fn answers(self, src: PeerAddr, mid: u16) -> bool {
        self.source == src && self.outstanding_mid() == mid
    }

    /// The response that is sent again when the request comes again.
    pub open spec fn cached(self) -> Option<MessageView> {
        match self.state {
            StateView::Responding(_, _, msg) => Some(msg),
            StateView::Done(_, msg, _) => Some(msg),
            _ => None,
        }
    }

    /// The exchange can be forgotten at `now`: it ended without a response,
    /// or its response has been kept long enough.
    pub open spec fn forgettable(self, now: u64) -> bool {
        match self.state {
            StateView::Done(_, _, until) => until <= now,
            StateView::Cancelled => true,
            StateView::TimedOut => true,
            StateView::Failed => true,
            _ => false,
        }
    }

    /// What `event` at `now` does to the exchange. `jitter` is the first
    /// wait of a confirmable response, should the step send one, and `mids`
    /// are the message id counters.
    pub open spec fn step(
        self,
        event: EventView,
        now: u64,
        jitter: u64,
        mids: Map<PeerIp, u16>,
    ) -> Step {
        let until = spec_after(now, EXCHANGE_LIFETIME as int);
        match (self.state, event) {
            (StateView::Handling, EventView::Piggyback(res)) => Step {
                state: StateView::Done(res, self.piggyback(res), until),
                mids,
                sent: Some(self.piggyback(res)),
                result: Ok(Async::Ready),
            },
            (StateView::Handling, EventView::Failed) => {
                let res = failure_response(self.source);
                Step {
                    state: StateView::Done(res, self.piggyback(res), until),
                    mids,
                    sent: Some(self.piggyback(res)),
                    result: Ok(Async::Ready),
                }
            },
            (StateView::Handling, EventView::Seperate(rel)) => Step {
                state: StateView::HandlingSep(rel),
                mids,
                sent: if self.reliablity == Reliablity::Confirmable {
                    Some(empty_message(MessageType::Acknowledgement, self.mid))
                } else {
                    None
                },
                result: Ok(Async::NotReady),
            },
            (StateView::HandlingSep(rel), EventView::Finished(res)) => {
                let mid = MidGen::spec_next(mids, self.source.ip);
                match rel {
                    Reliablity::Confirmable => {
                        let msg = response_message(res, MessageType::Confirmable, mid, self.token);
                        Step {
                            state: StateView::Responding(
                                Transmition::spec_with_delay(now, jitter),
                                res,
                                msg,
                            ),
                            mids: mids.insert(self.source.ip, mid),
                            sent: Some(msg),
                            result: Ok(Async::NotReady),
                        }
                    },
                    Reliablity::NonConfirmable => {
                        let msg = response_message(
                            res,
                            MessageType::NonConfirmable,
                            mid,
                            self.token,
                        );
                        Step {
                            state: StateView::Done(res, msg, until),
                            mids: mids.insert(self.source.ip, mid),
                            sent: Some(msg),
                            result: Ok(Async::Ready),
                        }
                    },
                }
            },
            (StateView::HandlingSep(_), EventView::Failed) => Step {
                state: StateView::Failed,
                mids,
                sent: None,
                result: Err(ErrorKindView::Handler),
            },
            (StateView::Responding(t, res, msg), EventView::Tick) => match t.spec_due(now) {
                Retry::Wait => Step {
                    state: self.state,
                    mids,
                    sent: None,
                    result: Ok(Async::NotReady),
                },
                Retry::Resend => Step {
                    state: StateView::Responding(t.spec_resent(now), res, msg),
                    mids,
                    sent: Some(msg),
                    result: Ok(Async::NotReady),
                },
                Retry::GiveUp => Step {
                    state: StateView::TimedOut,
                    mids,
                    sent: None,
                    result: Err(ErrorKindView::ResponseTimeout),
                },
            },
            (StateView::Done(_, _, _), _) => Step {
                state: self.state,
                mids,
                sent: None,
                result: Ok(Async::Ready),
            },
            (StateView::Cancelled, _) => Step {
                state: self.state,
                mids,
                sent: None,
                result: Err(ErrorKindView::RequestCancelled),
            },
            (StateView::TimedOut, _) => Step {
                state: self.state,
                mids,
                sent: None,
                result: Err(ErrorKindView::ResponseTimeout),
            },
            (StateView::Failed, _) => Step {
                state: self.state,
                mids,
                sent: None,
                result: Err(ErrorKindView::Handler),
            },
            _ => Step { state: self.state, mids, sent: None, result: Ok(Async::NotReady) },
        }
    }

    /// What a message from the peer that answers the last message of the
    /// exchange does to it at `now`: a reset cancels the exchange, whatever
    /// its state; an acknowledgement ends the wait for it; anything else
    /// changes nothing.
    pub open spec fn handle(self, message: MessageView, now: u64) -> ExchangeView {
        if message.kind is Empty && message.header.mtype == MessageType::Reset {
            ExchangeView { state: StateView::Cancelled, ..self }
        } else if message.header.mtype == MessageType::Acknowledgement {
            match self.state {
                StateView::Responding(_, res, msg) => ExchangeView {
                    state: StateView::Done(res, msg, spec_after(now, EXCHANGE_LIFETIME as int)),
                    ..self
                },
                _ => self,
            }
        } else {
            self
        }
    }
}

/// What polling reports, as a mathematical value.
pub open spec fn poll_view(r: Result<Async, Error>) -> Result<Async, ErrorKindView> {
    match r {
        Ok(progress) => Ok(progress),
        Err(e) => Err(e@),
    }
}

/// The queue with `sent`, if there is one, put at its end for the peer at `dest`.
pub open spec fn queue_with(
    queue: Seq<(MessageView, PeerAddr)>,
    sent: Option<MessageView>,
    dest: PeerAddr,
) -> Seq<(MessageView, PeerAddr)> {
    match sent {
        Some(message) => queue.push((message, dest)),
        None => queue,
    }
}

impl Exchange {
    /// The exchange of a request that is handed to the handler.
    pub fn new(request: &Request) -> (exchange: Exchange)
        ensures
            exchange@ == ExchangeView::of_request(request@),
    {
        Exchange {
            source: request.source(),
            method: request.method(),
            mid: request.message_id(),
            reliablity: request.reliablity(),
            token: request.token().clone(),
            state: State::Handling,
        }
    }

    #[inline]
    pub fn key(&self) -> (key: Key)
        ensures
            key == Key(self@.source, self@.mid),
    {
        Key(self.source, self.mid)
    }

    pub fn state(&self) -> (state: &State)
        ensures
            state@ == self@.state,
    {
        &self.state
    }

    pub fn outstanding_mid(&self) -> (mid: u16)
        ensures
            mid == self@.outstanding_mid(),
    {
        match &self.state {
            State::Responding(_, _, msg) => msg.header().message_id(),
            State::Done(_, msg, _) => msg.header().message_id(),
            _ => self.mid,
        }
    }

    pub fn answers(&self, src: PeerAddr, mid: u16) -> (b: bool)
        ensures
            b == self@.answers(src, mid),
    {
        self.source == src && self.outstanding_mid() == mid
    }

    /// A copy of the response that is sent again when the request comes again.
    pub fn cached(&self) -> (message: Option<Message>)
        ensures
            match message {
                Some(m) => self@.cached() == Some(m@),
                None => self@.cached() is None,
            },
    {
        match &self.state {
            State::Responding(_, _, msg) => Some(msg.clone()),
            State::Done(_, msg, _) => Some(msg.clone()),
            _ => None,
        }
    }

    pub fn forgettable(&self, now: u64) -> (b: bool)
        ensures
            b == self@.forgettable(now),
    {
        match &self.state {
            State::Done(_, _, until) => *until <= now,
            State::Cancelled => true,
            State::TimedOut => true,
            State::Failed => true,
            _ => false,
        }
    }

    /// Cancels the exchange, unless it has come to an end.
    pub fn cancel(&mut self)
        ensures
            final(self)@ == old(self)@.cancelled(),
    {
        match &self.state {
            State::Handling | State::HandlingSep(_) | State::Responding(_, _, _) => {
                self.state = State::Cancelled;
            },
            _ => {},
        }
    }

    /// Takes a message from the peer that answers the last message of the
    /// exchange.
    pub fn handle(&mut self, message: &Message, now: u64)
        ensures
            final(self)@ == old(self)@.handle(message@, now),
    {
        if message.is_reset() {
            self.state = State::Cancelled;
        } else if message.header().message_type() == MessageType::Acknowledgement {
            let mut state = State::Cancelled;
            core::mem::swap(&mut self.state, &mut state);
            self.state = match state {
                State::Responding(_, res, msg) => State::Done(
                    res,
                    msg,
                    now.saturating_add(EXCHANGE_LIFETIME),
                ),
                other => other,
            };
        }
    }

    /// Whether `event` would take a first wait drawn at random: it does
    /// where it brings the separate response that an exchange has promised
    /// to send as a confirmable message.
    fn starts_transmission(&self, event: &Event) -> (b: bool)
        ensures
            b == (self@.state == StateView::HandlingSep(Reliablity::Confirmable)
                && event@ is Finished),
    {
        match (&self.state, event) {
            (State::HandlingSep(Reliablity::Confirmable), Event::Finished(_)) => true,
            _ => false,
        }
    }

    /// Lets `event` happen to the exchange at `now`. A message that the
    /// step sends is put into `tx`. Where the step starts to wait for an
    /// acknowledgement, the first wait is drawn at random from `ACK_TIMEOUT`
    /// up to, but not including, `ACK_TIMEOUT_MAX`; all else is as
    /// `poll_with` says.
    pub fn poll(&mut self, event: Event, now: u64, midgen: &mut MidGen, tx: &mut Outbox) -> (r:
        Result<Async, Error>)
        ensures
            exists|jitter: u64|
                ACK_TIMEOUT <= jitter < ACK_TIMEOUT_MAX && #[trigger] polled(
                    old(self)@,
                    event@,
                    now,
                    jitter,
                    old(midgen)@,
                    old(tx)@,
                    final(self)@,
                    final(midgen)@,
                    final(tx)@,
                    r,
                ),
    {
        let jitter: u64 = if self.starts_transmission(&event) {
            first_wait()
        } else {
            ACK_TIMEOUT
        };
        let r = self.poll_with(event, now, jitter, midgen, tx);
        r
    }

    /// Lets `event` happen to the exchange at `now`, with `jitter` as the
    /// first wait of a confirmable response. The step is the one that
    /// `ExchangeView::step` describes; the message that it sends, if any, is
    /// put into `tx`. Where that message finds `tx` full, nothing happens
    /// but that the call fails with a broken channel.
    pub fn poll_with(
        &mut self,
        event: Event,
        now: u64,
        jitter: u64,
        midgen: &mut MidGen,
        tx: &mut Outbox,
    ) -> (r: Result<Async, Error>)
        ensures
            polled(
                old(self)@,
                event@,
                now,
                jitter,
                old(midgen)@,
                old(tx)@,
                final(self)@,
                final(midgen)@,
                final(tx)@,
                r,
            ),
    {
        let full = tx.is_full();
        let until: u64 = now.saturating_add(EXCHANGE_LIFETIME);
        let mut state = State::Cancelled;
        core::mem::swap(&mut self.state, &mut state);
        match (state, event) {
            (State::Handling, Event::Carry(Carry::Piggyback(res))) => {
                if full {
                    self.state = State::Handling;
                    return Err(Error::broken_channel_at("server tx"));
                }
                let ack = res.serialize().acknowledgement().message_id(self.mid).token(
                    self.token.clone(),
                ).build();
                let _ = tx.try_send(ToSend(ack.clone(), self.source));
                self.state = State::Done(res, ack, until);
                Ok(Async::Ready)
            },
            (State::Handling, Event::Failed) => {
                if full {
                    self.state = State::Handling;
                    return Err(Error::broken_channel_at("server tx"));
                }
                let res = Response::with_code(
                    self.source,
                    ResponseCode::ServerError(ServerErrorCode::InternalServerError),
                );
                let ack = res.serialize().acknowledgement().message_id(self.mid).token(
                    self.token.clone(),
                ).build();
                let _ = tx.try_send(ToSend(ack.clone(), self.source));
                self.state = State::Done(res, ack, until);
                Ok(Async::Ready)
            },
            (State::Handling, Event::Carry(Carry::Seperate(rel))) => {
                match self.reliablity {
                    Reliablity::Confirmable => {
                        if full {
                            self.state = State::Handling;
                            return Err(Error::broken_channel_at("server tx"));
                        }
                        let ack = MessageBuilder::empty().acknowledgement().message_id(
                            self.mid,
                        ).build();
                        let _ = tx.try_send(ToSend(ack, self.source));
                    },
                    Reliablity::NonConfirmable => {},
                }
                self.state = State::HandlingSep(rel);
                Ok(Async::NotReady)
            },
            (State::HandlingSep(rel), Event::Finished(res)) => {
                if full {
                    self.state = State::HandlingSep(rel);
                    return Err(Error::broken_channel_at("server tx"));
                }
                let mid: u16 = midgen.next(self.source);
                match rel {
                    Reliablity::Confirmable => {
                        let con_msg = res.serialize().message_id(mid).token(
                            self.token.clone(),
                        ).confirmable().build();
                        let _ = tx.try_send(ToSend(con_msg.clone(), self.source));
                        self.state = State::Responding(
                            Transmition::with_delay(now, jitter),
                            res,
                            con_msg,
                        );
                        Ok(Async::NotReady)
                    },
                    Reliablity::NonConfirmable => {
                        let non_res = res.serialize().non_confirmable().message_id(mid).token(
                            self.token.clone(),
                        ).build();
                        let _ = tx.try_send(ToSend(non_res.clone(), self.source));
                        self.state = State::Done(res, non_res, until);
                        Ok(Async::Ready)
                    },
                }
            },
            (State::HandlingSep(_), Event::Failed) => {
                self.state = State::Failed;
                Err(Error::handler())
            },
            (State::Responding(trans, res, con_msg), Event::Tick) => {
                match trans.due(now) {
                    Retry::Wait => {
                        self.state = State::Responding(trans, res, con_msg);
                        Ok(Async::NotReady)
                    },
                    Retry::Resend => {
                        if full {
                            self.state = State::Responding(trans, res, con_msg);
                            return Err(Error::broken_channel_at("server tx"));
                        }
                        let mut trans = trans;
                        let _ = trans.poll_retry(now);
                        let _ = tx.try_send(ToSend(con_msg.clone(), self.source));
                        self.state = State::Responding(trans, res, con_msg);
                        Ok(Async::NotReady)
                    },
                    Retry::GiveUp => {
                        self.state = State::TimedOut;
                        Err(Error::response_timeout())
                    },
                }
            },
            (State::Done(res, msg, kept), _) => {
                self.state = State::Done(res, msg, kept);
                Ok(Async::Ready)
            },
            (State::Cancelled, _) => {
                self.state = State::Cancelled;
                Err(Error::request_cancelled())
            },
            (State::TimedOut, _) => {
                self.state = State::TimedOut;
                Err(Error::response_timeout())
            },
            (State::Failed, _) => {
                self.state = State::Failed;
                Err(Error::handler())
            },
            (other, _) => {
                self.state = other;
                Ok(Async::NotReady)
            },
        }
    }
}

/// How an exchange, the message id counters and the outbox stand after a
/// poll, and what the poll reports: the step that `ExchangeView::step`
/// describes has been taken and the message that it sends stands at the end
/// of the outbox; or, where that message found the outbox full, nothing has
/// changed and the poll reports a broken channel.
pub open spec fn polled(
    before: ExchangeView,
    event: EventView,
    now: u64,
    jitter: u64,
    mids_before: Map<PeerIp, u16>,
    tx_before: OutboxView,
    after: ExchangeView,
    mids_after: Map<PeerIp, u16>,
    tx_after: OutboxView,
    r: Result<Async, Error>,
) -> bool {
    let step = before.step(event, now, jitter, mids_before);
    if step.sent is Some && tx_before.full() {
        &&& after == before
        &&& mids_after == mids_before
        &&& tx_after == tx_before
        &&& poll_view(r) == Err::<Async, ErrorKindView>(
            ErrorKindView::BrokenChannel("server tx"@),
        )
    } else {
        &&& after == (ExchangeView { state: step.state, ..before })
        &&& mids_after == step.mids
        &&& tx_after == (OutboxView {
            queue: queue_with(tx_before.queue, step.sent, before.source),
            ..tx_before
        })
        &&& poll_view(r) == step.result
    }
}

/// The message that carries a piggybacked response is an acknowledgement
/// with the message id and the token of the request, and its code is the
/// code that the handler chose.
pub proof fn lemma_piggyback_correlation(
    exchange: ExchangeView,
    res: ResponseView,
    now: u64,
    jitter: u64,
    mids: Map<PeerIp, u16>,
)
    requires
        exchange.state is Handling,
    ensures
        ({
            let step = exchange.step(EventView::Piggyback(res), now, jitter, mids);
            &&& step.sent matches Some(ack)
            &&& ack.header.mtype == MessageType::Acknowledgement
            &&& ack.header.message_id == exchange.mid
            &&& ack.header.code == res.code.spec_as_raw_code()
            &&& ack.kind matches MessageKindView::Response(body)
            &&& body.token == exchange.token
            &&& body.options == res.options
            &&& body.payload == res.payload
            &&& step.state is Done
            &&& step.mids == mids
        }),
{
}

/// A promise of a separate response is answered with an empty
/// acknowledgement of the request exactly where the request was
/// confirmable. The confirmable separate response then has the next
/// message id that the server gives to the peer, and the token of the
/// request; the exchange waits for its acknowledgement.
pub proof fn lemma_separate_correlation(
    exchange: ExchangeView,
    res: ResponseView,
    now: u64,
    jitter: u64,
    mids: Map<PeerIp, u16>,
)
    requires
        exchange.state is Handling,
    ensures
        ({
            let promised = exchange.step(
                EventView::Seperate(Reliablity::Confirmable),
                now,
                jitter,
                mids,
            );
            let waiting = ExchangeView { state: promised.state, ..exchange };
            let answered = waiting.step(EventView::Finished(res), now, jitter, promised.mids);
            &&& promised.sent is Some <==> exchange.reliablity == Reliablity::Confirmable
            &&& promised.sent matches Some(ack) ==> ack == empty_message(
                MessageType::Acknowledgement,
                exchange.mid,
            )
            &&& answered.sent matches Some(message)
            &&& message.header.mtype == MessageType::Confirmable
            &&& message.header.message_id == MidGen::spec_next(mids, exchange.source.ip)
            &&& message.header.code == res.code.spec_as_raw_code()
            &&& message.kind matches MessageKindView::Response(body)
            &&& body.token == exchange.token
            &&& answered.mids == mids.insert(exchange.source.ip, message.header.message_id)
            &&& answered.state matches StateView::Responding(t, _, cached)
            &&& cached == message
            &&& t == Transmition::spec_with_delay(now, jitter)
        }),
{
}

/// The schedule of retransmissions. A timer that has not run out sends
/// nothing. One that runs out at `now` with fewer than `MAX_RETRANSMIT`
/// retransmissions behind it sends the response again, counts one more, and
/// runs out next `ACK_TIMEOUT * 2^n` later, `n` being the new count; so the
/// count never passes `MAX_RETRANSMIT`. One that runs out with
/// `MAX_RETRANSMIT` retransmissions behind it ends the exchange with a
/// response timeout and sends nothing.
pub proof fn lemma_retransmission_schedule(
    exchange: ExchangeView,
    now: u64,
    jitter: u64,
    mids: Map<PeerIp, u16>,
)
    requires
        exchange.state is Responding,
        exchange.state->Responding_0.retr <= MAX_RETRANSMIT,
        now + ACK_TIMEOUT * 16 <= u64::MAX,
    ensures
        ({
            let t = exchange.state->Responding_0;
            let message = exchange.state->Responding_2;
            let step = exchange.step(EventView::Tick, now, jitter, mids);
            &&& now < t.deadline ==> step.sent is None && step.state == exchange.state
            &&& now >= t.deadline && t.retr < MAX_RETRANSMIT ==> {
                &&& step.sent == Some(message)
                &&& step.state matches StateView::Responding(next, _, cached)
                &&& cached == message
                &&& next.retr == t.retr + 1
                &&& next.retr <= MAX_RETRANSMIT
                &&& next.deadline == now + ACK_TIMEOUT * pow2(next.retr as nat)
            }
            &&& now >= t.deadline && t.retr == MAX_RETRANSMIT ==> {
                &&& step.sent is None
                &&& step.state is TimedOut
                &&& step.result == Err::<Async, ErrorKindView>(ErrorKindView::ResponseTimeout)
            }
        }),
{
    let t = exchange.state->Responding_0;
    if t.retr < MAX_RETRANSMIT {
        vstd::arithmetic::power2::lemma2_to64();
        if t.retr + 1 < 4 {
            vstd::arithmetic::power2::lemma_pow2_strictly_increases((t.retr + 1) as nat, 4);
        }
        assert(ACK_TIMEOUT * pow2((t.retr + 1) as nat) <= ACK_TIMEOUT * 16) by (nonlinear_arith)
            requires
                pow2((t.retr + 1) as nat) <= 16,
        ;
    }
}

/// A reset that answers the last message of an exchange cancels the
/// exchange, whatever its state; a cancelled exchange stays cancelled, sends
/// nothing more, whatever happens to it, and reports that the request was
/// cancelled.
pub proof fn lemma_reset_cancels(
    exchange: ExchangeView,
    reset: MessageView,
    event: EventView,
    now: u64,
    later: u64,
    jitter: u64,
    mids: Map<PeerIp, u16>,
)
    requires
        reset.kind is Empty,
        reset.header.mtype == MessageType::Reset,
    ensures
        ({
            let cancelled = exchange.handle(reset, now);
            let step = cancelled.step(event, later, jitter, mids);
            &&& cancelled.state is Cancelled
            &&& cancelled.forgettable(later)
            &&& step.sent is None
            &&& step.state is Cancelled
            &&& step.mids == mids
            &&& step.result == Err::<Async, ErrorKindView>(ErrorKindView::RequestCancelled)
        }),
{
}

} // verus!
