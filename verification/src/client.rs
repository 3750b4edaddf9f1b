use vstd::prelude::*;
use std::collections::HashSet;
use crate::error::{Error, ErrorView};
use crate::message::{appended, Message};
use crate::payload::{Payload, Value};
use crate::post::{unmarshalled, Lossless, Post, PortId};
use crate::reply::{
    law_replies_are_told_apart, malformed_reply, open_reply, refusal_wire, reply_kind, result_wire,
    Arrival, ReplyKind,
};
use crate::protocol::{check_handshake, handshake, handshake_name, is_handshake};

verus! {

broadcast use vstd::std_specs::hash::group_hash_axioms;

/// The state of a client: whether the server has acknowledged the handshake,
/// the calls that wait for that in the order in which they came, the reply
/// channels on which a reply is still awaited, and whether the state is held
/// by an operation in progress.
pub struct ClientView {
    pub ready: bool,
    pub waiters: Seq<u64>,
    pub listeners: Set<u64>,
    pub in_use: bool,
}

/// A queue without the entries that equal `x`, the others in their order.
pub open spec fn without(s: Seq<u64>, x: u64) -> Seq<u64>
    decreases s.len(),
{
    if s.len() == 0 {
        s
    } else if s.last() == x {
        without(s.drop_last(), x)
    } else {
        without(s.drop_last(), x).push(s.last())
    }
}

/// The client after a message arrived on its channel: a handshake makes it
/// ready and empties the queue of waiters, anything else changes nothing.
pub open spec fn after_message(c: ClientView, data: Value) -> ClientView {
    if is_handshake(data) {
        ClientView { ready: true, waiters: Seq::empty(), ..c }
    } else {
        c
    }
}

/// The waiters that a message releases: all of them, in their order, if it is
/// a handshake, and none otherwise.
pub open spec fn released_by(c: ClientView, data: Value) -> Seq<u64> {
    if is_handshake(data) {
        c.waiters
    } else {
        Seq::empty()
    }
}

/// The client after a call asked whether it may go on: a ready client is
/// unchanged, another has the call at the end of its queue.
pub open spec fn after_wait(c: ClientView, waiter: u64) -> ClientView {
    if c.ready {
        c
    } else {
        ClientView { waiters: c.waiters.push(waiter), ..c }
    }
}

/// The client after a call was given up: it waits no longer, and where it
/// had a reply channel already, nothing is awaited on that any more.
pub open spec fn after_cancel(c: ClientView, waiter: u64, reply: Option<u64>) -> ClientView {
    ClientView {
        waiters: without(c.waiters, waiter),
        listeners: match reply {
            Some(port) => c.listeners.remove(port),
            None => c.listeners,
        },
        ..c
    }
}

/// Whether a call's envelope may go on the wire: the client is ready, and no
/// reply is awaited on the call's reply channel yet.
pub open spec fn may_send(c: ClientView, reply: u64) -> bool {
    c.ready && !c.listeners.contains(reply)
}

/// The client after a call's envelope was handed out for sending.
pub open spec fn after_send(c: ClientView, reply: u64) -> ClientView {
    ClientView { listeners: c.listeners.insert(reply), ..c }
}

/// Whether a reply is awaited on a channel.
pub open spec fn awaited(c: ClientView, reply: u64) -> bool {
    c.listeners.contains(reply)
}

/// The client after something arrived on a reply channel, or after the
/// channel refused the call: nothing is awaited on that channel any more.
pub open spec fn after_receive(c: ClientView, reply: u64) -> ClientView {
    ClientView { listeners: c.listeners.remove(reply), ..c }
}

/// The call engine of the calling side.
///
/// It decides; it does not send. Each operation takes what happened and
/// returns what is to be put on the wire, so that the owner of the channel
/// can carry it out.
#[derive(Debug)]
pub struct Client {
    server_ready: bool,
    on_ready: Vec<u64>,
    listeners: HashSet<u64>,
    in_use: bool,
}

impl View for Client {
    type V = ClientView;

    closed spec fn view(&self) -> ClientView {
        ClientView {
            ready: self.server_ready,
            waiters: self.on_ready@,
            listeners: self.listeners@,
            in_use: self.in_use,
        }
    }
}

impl Client {
    /// A client that is not ready yet, and the handshake request that its
    /// owner sends once the receive handler is installed.
    pub fn new() -> (r: (Client, Message))
        ensures
            r.0@ == (ClientView {
                ready: false,
                waiters: Seq::empty(),
                listeners: Set::empty(),
                in_use: false,
            }),
            r.1@.fields == seq![Value::Text(handshake_name())],
            r.1@.transfer == Seq::<Value>::empty(),
    {
        let client = Client {
            server_ready: false,
            on_ready: Vec::new(),
            listeners: HashSet::new(),
            in_use: false,
        };
        (client, handshake())
    }

    /// Whether the handshake was acknowledged.
    pub fn is_ready(&self) -> (ready: bool)
        ensures
            ready == self@.ready,
    {
        self.server_ready
    }

    /// Takes the state for one operation. While it is taken, a second attempt
    /// fails with `ClientUnavailable` and changes nothing.
    pub fn acquire(&mut self) -> (r: Result<(), Error>)
        ensures
            match r {
                Ok(()) => !old(self)@.in_use && final(self)@ == (ClientView {
                    in_use: true,
                    ..old(self)@
                }),
                Err(e) => old(self)@.in_use && e@ == ErrorView::ClientUnavailable && final(self)@
                    == old(self)@,
            },
    {
        if self.in_use {
            Err(Error::ClientUnavailable)
        } else {
            self.in_use = true;
            Ok(())
        }
    }

    /// Gives the state back.
    pub fn release(&mut self)
        ensures
            final(self)@ == (ClientView { in_use: false, ..old(self)@ }),
    {
        self.in_use = false;
    }

    /// Handles a message that arrived on the client's channel. A handshake
    /// makes the client ready and releases every call that waits at that
    /// moment, first come first out; the result lists them. Any other message
    /// changes nothing and releases nobody.
    pub fn on_message(&mut self, data: &Payload) -> (released: Vec<u64>)
        ensures
            final(self)@ == after_message(old(self)@, data@),
            released@ == released_by(old(self)@, data@),
    {
        if check_handshake(data) {
            self.server_ready = true;
            let mut released: Vec<u64> = Vec::new();
            std::mem::swap(&mut self.on_ready, &mut released);
            released
        } else {
            Vec::new()
        }
    }

    /// Asks whether a call may go on. A ready client says yes and registers
    /// nothing. Otherwise the call is queued under `waiter`, behind those that
    /// wait already, until a handshake releases it.
    pub fn wait_for_server(&mut self, waiter: u64) -> (ready: bool)
        ensures
            ready == old(self)@.ready,
            final(self)@ == after_wait(old(self)@, waiter),
    {
        if self.server_ready {
            true
        } else {
            self.on_ready.push(waiter);
            false
        }
    }

    /// Forgets a call that was given up: it leaves the queue of waiters, and
    /// no reply is awaited on its reply channel any more, if it had one
    /// already. Nothing is to be sent.
    pub fn cancel(&mut self, waiter: u64, reply: Option<PortId>)
        ensures
            final(self)@ == after_cancel(
                old(self)@,
                waiter,
                match reply {
                    Some(port) => Some(port.0),
                    None => None,
                },
            ),
    {
        let mut kept: Vec<u64> = Vec::new();
        let mut i: usize = 0;
        while i < self.on_ready.len()
            invariant
                i <= self.on_ready.len(),
                self.on_ready == old(self).on_ready,
                self.listeners == old(self).listeners,
                self.server_ready == old(self).server_ready,
                self.in_use == old(self).in_use,
                kept@ == without(self.on_ready@.take(i as int), waiter),
            decreases self.on_ready.len() - i,
        {
            let entry: u64 = self.on_ready[i];
            proof {
                let next = self.on_ready@.take(i + 1);
                assert(next.drop_last() =~= self.on_ready@.take(i as int));
                assert(next.last() == entry);
            }
            if entry != waiter {
                kept.push(entry);
            }
            i += 1;
        }
        assert(self.on_ready@.take(i as int) =~= self.on_ready@);
        self.on_ready = kept;
        match reply {
            Some(port) => {
                self.listeners.remove(&port.0);
            },
            None => {},
        }
    }

    /// Completes the envelope of a call with its reply channel and starts to
    /// listen for the reply.
    ///
    /// A ready client with a fresh reply channel gets the envelope to send:
    /// the message with the channel's end as its last field, marked for
    /// transfer; from then on one reply is awaited on that channel. A client
    /// that is not ready yet sends nothing and fails with `ClientUnavailable`;
    /// a channel on which a reply is already awaited is no fresh channel, and
    /// fails with `CreationFailed`. A failure leaves the client as it was.
    pub fn send_message(&mut self, message: Message, reply: PortId) -> (r: Result<Message, Error>)
        ensures
            match r {
                Ok(envelope) => {
                    &&& may_send(old(self)@, reply.0)
                    &&& envelope@ == appended(message@, Value::Port(reply.0), true)
                    &&& final(self)@ == after_send(old(self)@, reply.0)
                },
                Err(e) => {
                    &&& !may_send(old(self)@, reply.0)
                    &&& final(self)@ == old(self)@
                    &&& !old(self)@.ready ==> e@ == ErrorView::ClientUnavailable
                    &&& old(self)@.ready ==> old(self)@.listeners.contains(reply.0) && e@ == (
                    ErrorView::CreationFailed {
                        type_label: "MessageChannel"@,
                        error: "reply channel is already in use"@,
                    })
                },
            },
    {
        if !self.server_ready {
            return Err(Error::ClientUnavailable);
        }
        if self.listeners.contains(&reply.0) {
            return Err(
                Error::CreationFailed {
                    type_label: "MessageChannel".to_owned(),
                    error: "reply channel is already in use".to_owned(),
                },
            );
        }
        let mut envelope = message;
        match envelope.post(reply) {
            Ok(()) => {
                self.listeners.insert(reply.0);
                Ok(envelope)
            },
            Err(e) => Err(e),
        }
    }

    /// Takes note of what the channel said to the sending of a call's
    /// envelope. A refused envelope fails the call at once with `PostFailed`,
    /// and its reply is not awaited any longer.
    pub fn posted(&mut self, reply: PortId, outcome: Result<(), String>) -> (r: Result<(), Error>)
        ensures
            match outcome {
                Ok(()) => r is Ok && final(self)@ == old(self)@,
                Err(text) => r matches Err(e) && e@ == (ErrorView::PostFailed { error: text@ })
                    && final(self)@ == after_receive(old(self)@, reply.0),
            },
    {
        match outcome {
            Ok(()) => Ok(()),
            Err(text) => {
                self.listeners.remove(&reply.0);
                Err(Error::PostFailed { error: text })
            },
        }
    }

    /// Hands in what arrived on a reply channel.
    ///
    /// Where a reply is awaited on that channel, it is this one and no other:
    /// the channel stops listening, and the result is the decoded value, or
    /// `ReceiveFailed` with the channel's own words where the channel failed.
    /// On any other channel nothing is awaited, nothing changes and the result
    /// is `None`.
    pub fn receive<T: Post>(&mut self, reply: PortId, outcome: Result<Payload, String>) -> (r:
        Option<Result<T, Error>>)
        ensures
            received::<T>(old(self)@, reply.0, outcome, r),
            final(self)@ == after_receive(old(self)@, reply.0),
    {
        if self.listeners.remove(&reply.0) {
            Some(decode_reply::<T>(outcome))
        } else {
            assert(self@.listeners =~= old(self)@.listeners);
            None
        }
    }
}

/// What a call resolves with, given what its reply channel delivered: the
/// decoded value where a result arrived that holds one of type `T`, the
/// decoding error where it holds none, the other side's error where a
/// refusal arrived, whatever `T` is, `DeserializeFailed` where neither
/// arrived, and `ReceiveFailed` where the channel failed.
pub open spec fn decoded_reply<T: Post>(
    outcome: Result<Payload, String>,
    decoded: Result<T, Error>,
) -> bool {
    match outcome {
        Ok(payload) => match reply_kind(payload@) {
            ReplyKind::Outcome(v) => unmarshalled::<T>(v, decoded),
            ReplyKind::Refusal(error) => decoded matches Err(e) && e@ == error,
            ReplyKind::Malformed => decoded matches Err(e) && e@ == malformed_reply(),
        },
        Err(text) => decoded matches Err(e) && e@ == (ErrorView::ReceiveFailed { error: text@ }),
    }
}

/// Decodes what a reply channel delivered as the declared return type.
pub fn decode_reply<T: Post>(outcome: Result<Payload, String>) -> (decoded: Result<T, Error>)
    ensures
        decoded_reply::<T>(outcome, decoded),
{
    match outcome {
        Ok(payload) => match open_reply(payload) {
            Arrival::Outcome(data) => T::from_payload(data),
            Arrival::Refusal(error) => Err(error),
            Arrival::Malformed => Err(
                Error::DeserializeFailed {
                    type_label: "reply".to_owned(),
                    error: "reply is neither a result nor a refusal".to_owned(),
                },
            ),
        },
        Err(text) => Err(Error::ReceiveFailed { error: text }),
    }
}

/// A refusal resolves the call with the error that it carries, for every
/// return type: a call that the other side refused fails with the other
/// side's error, and is never taken for a result.
pub proof fn law_refusal_fails_the_call<T: Post>(
    error: ErrorView,
    payload: Payload,
    decoded: Result<T, Error>,
)
    requires
        payload@ == refusal_wire(error),
        decoded_reply::<T>(Ok(payload), decoded),
    ensures
        decoded matches Err(e) && e@ == error,
{
    law_replies_are_told_apart(error, Value::Null);
}

/// A result resolves the call with the value that was marshalled into it,
/// for every lossless return type.
pub proof fn law_result_resolves_the_call<T: Lossless>(
    value: T::Model,
    payload: Payload,
    decoded: Result<T, Error>,
)
    requires
        T::postable(),
        T::sendable(value),
        payload@ == result_wire(T::wire(value)),
        decoded_reply::<T>(Ok(payload), decoded),
    ensures
        decoded matches Ok(back) && back.model() == value,
{
    law_replies_are_told_apart(ErrorView::ClientUnavailable, T::wire(value));
    T::round_trip(value);
}

/// What can happen to a client, one event at a time.
pub enum ClientEvent {
    /// A message arrived on the client's channel.
    Message(Value),
    /// A call asked whether it may go on, under this waiter.
    Wait(u64),
    /// The call with this waiter, and this reply channel if it had one
    /// already, was given up.
    Cancel(u64, Option<u64>),
    /// A call asked to be sent, with this reply channel.
    Send(u64),
    /// The channel refused the call with this reply channel.
    Refused(u64),
    /// Something arrived on this reply channel.
    Reply(u64),
}

/// The client after one event.
pub open spec fn next(c: ClientView, event: ClientEvent) -> ClientView {
    match event {
        ClientEvent::Message(data) => after_message(c, data),
        ClientEvent::Wait(waiter) => after_wait(c, waiter),
        ClientEvent::Cancel(waiter, reply) => after_cancel(c, waiter, reply),
        ClientEvent::Send(reply) => if may_send(c, reply) {
            after_send(c, reply)
        } else {
            c
        },
        ClientEvent::Refused(reply) => after_receive(c, reply),
        ClientEvent::Reply(reply) => after_receive(c, reply),
    }
}

/// The client after a sequence of events.
pub open spec fn run(c: ClientView, events: Seq<ClientEvent>) -> ClientView
    decreases events.len(),
{
    if events.len() == 0 {
        c
    } else {
        next(run(c, events.drop_last()), events.last())
    }
}

/// Whether an event is the arrival of a handshake.
pub open spec fn acknowledges(event: ClientEvent) -> bool {
    event matches ClientEvent::Message(data) && is_handshake(data)
}

/// One `Wait` per waiter, in order.
pub open spec fn waits(waiters: Seq<u64>) -> Seq<ClientEvent> {
    Seq::new(waiters.len(), |i: int| ClientEvent::Wait(waiters[i]))
}

/// One `Reply` per reply channel, in order.
pub open spec fn replies(ports: Seq<u64>) -> Seq<ClientEvent> {
    Seq::new(ports.len(), |i: int| ClientEvent::Reply(ports[i]))
}

/// One `Send` per reply channel, in order.
pub open spec fn sends(ports: Seq<u64>) -> Seq<ClientEvent> {
    Seq::new(ports.len(), |i: int| ClientEvent::Send(ports[i]))
}

/// What `receive` owes on a channel: a resolution exactly where a reply is
/// awaited on that channel, and then the one that belongs to what arrived.
pub open spec fn received<T: Post>(
    c: ClientView,
    reply: u64,
    outcome: Result<Payload, String>,
    r: Option<Result<T, Error>>,
) -> bool {
    &&& r is Some == awaited(c, reply)
    &&& r matches Some(decoded) ==> decoded_reply::<T>(outcome, decoded)
}

/// Calls that a ready client sends on fresh reply channels are all awaited
/// afterwards, each on its own channel, beside what was awaited before.
pub proof fn lemma_after_sends(c: ClientView, ports: Seq<u64>)
    requires
        c.ready,
        ports.no_duplicates(),
        forall|k: int| 0 <= k < ports.len() ==> !awaited(c, #[trigger] ports[k]),
    ensures
        run(c, sends(ports)).ready,
        run(c, sends(ports)).waiters == c.waiters,
        run(c, sends(ports)).in_use == c.in_use,
        forall|q: u64|
            awaited(run(c, sends(ports)), q) <==> awaited(c, q) || ports.contains(q),
    decreases ports.len(),
{
    if ports.len() > 0 {
        let fewer = ports.drop_last();
        lemma_after_sends(c, fewer);
        assert(sends(ports).drop_last() =~= sends(fewer));
        let before = run(c, sends(fewer));
        let last = ports.last();
        assert(!fewer.contains(last)) by {
            if fewer.contains(last) {
                let j = choose|j: int| 0 <= j < fewer.len() && fewer[j] == last;
                assert(ports[j] == ports[ports.len() - 1]);
            }
        }
        assert(!awaited(c, ports[ports.len() - 1]));
        assert(may_send(before, last));
        assert forall|q: u64|
            awaited(run(c, sends(ports)), q) <==> awaited(c, q) || ports.contains(q) by {
            if ports.contains(q) {
                let i = choose|i: int| 0 <= i < ports.len() && ports[i] == q;
                if i < fewer.len() {
                    assert(fewer[i] == q);
                }
            }
            if fewer.contains(q) {
                let i = choose|i: int| 0 <= i < fewer.len() && fewer[i] == q;
                assert(ports[i] == q);
            }
            assert(ports[ports.len() - 1] == last);
        }
    }
}

/// Any number of calls, sent by a ready client before any reply arrives,
/// each resolve with their own reply, in whatever order the replies arrive:
/// when the replies to some of the calls have arrived in the order `order`,
/// the next one is taken on its own channel, and the call resolves with
/// what that very payload decodes to as its own return type.
pub proof fn law_concurrent_calls_resolve_with_their_own_replies<T: Post>(
    c: ClientView,
    ports: Seq<u64>,
    order: Seq<u64>,
    i: int,
    outcome: Result<Payload, String>,
    r: Option<Result<T, Error>>,
)
    requires
        c.ready,
        ports.no_duplicates(),
        forall|k: int| 0 <= k < ports.len() ==> !awaited(c, #[trigger] ports[k]),
        order.no_duplicates(),
        forall|k: int| 0 <= k < order.len() ==> ports.contains(#[trigger] order[k]),
        0 <= i < order.len(),
        received::<T>(run(run(c, sends(ports)), replies(order.take(i))), order[i], outcome, r),
    ensures
        r matches Some(decoded) && decoded_reply::<T>(outcome, decoded),
        forall|k: int|
            i < k < order.len() ==> awaited(
                next(
                    run(run(c, sends(ports)), replies(order.take(i))),
                    ClientEvent::Reply(order[i]),
                ),
                #[trigger] order[k],
            ),
{
    lemma_after_sends(c, ports);
    let sent = run(c, sends(ports));
    assert forall|k: int| 0 <= k < order.len() implies awaited(sent, #[trigger] order[k]) by {
        assert(ports.contains(order[k]));
    }
    law_replies_find_their_calls(sent, order, i);
}

/// Readiness never reverts: a ready client stays ready, whatever happens.
pub proof fn law_ready_never_reverts(c: ClientView, events: Seq<ClientEvent>)
    requires
        c.ready,
    ensures
        run(c, events).ready,
    decreases events.len(),
{
    if events.len() > 0 {
        law_ready_never_reverts(c, events.drop_last());
    }
}

/// Nothing goes on the wire before the handshake is acknowledged: as long as
/// no handshake has arrived, the client is not ready, no call may be sent,
/// and no reply is awaited that was not awaited before.
pub proof fn law_no_call_before_handshake(c: ClientView, events: Seq<ClientEvent>, reply: u64)
    requires
        !c.ready,
        forall|i: int| 0 <= i < events.len() ==> !acknowledges(#[trigger] events[i]),
    ensures
        !run(c, events).ready,
        !may_send(run(c, events), reply),
        run(c, events).listeners.subset_of(c.listeners),
    decreases events.len(),
{
    if events.len() > 0 {
        law_no_call_before_handshake(c, events.drop_last(), reply);
        assert(!acknowledges(events[events.len() - 1]));
    }
}

/// Nobody waits on a ready client: a client that starts without waiters, or
/// not ready, never has a call in its queue while it is ready.
pub proof fn law_nobody_waits_once_ready(c: ClientView, events: Seq<ClientEvent>)
    requires
        c.ready ==> c.waiters.len() == 0,
    ensures
        run(c, events).ready ==> run(c, events).waiters.len() == 0,
    decreases events.len(),
{
    if events.len() > 0 {
        law_nobody_waits_once_ready(c, events.drop_last());
        let before = run(c, events.drop_last());
        match events.last() {
            ClientEvent::Cancel(waiter, reply) => {
                if before.ready {
                    assert(without(before.waiters, waiter) =~= before.waiters);
                }
            },
            _ => {},
        }
    }
}

/// A ready client lets a call go on at once: asking registers no waiter, and
/// the call may be sent on any fresh reply channel.
pub proof fn law_ready_calls_do_not_wait(c: ClientView, waiter: u64, reply: u64)
    requires
        c.ready,
        !awaited(c, reply),
    ensures
        after_wait(c, waiter) == c,
        may_send(after_wait(c, waiter), reply),
{
}

/// Calls that ask before the handshake are queued in the order in which they
/// asked, and the handshake releases all of them in that order and leaves
/// the client ready with nobody waiting.
pub proof fn law_handshake_releases_in_order(c: ClientView, waiters: Seq<u64>, data: Value)
    requires
        !c.ready,
        is_handshake(data),
    ensures
        run(c, waits(waiters)).waiters == c.waiters + waiters,
        released_by(run(c, waits(waiters)), data) == c.waiters + waiters,
        after_message(run(c, waits(waiters)), data).ready,
        after_message(run(c, waits(waiters)), data).waiters == Seq::<u64>::empty(),
    decreases waiters.len(),
{
    if waiters.len() == 0 {
        assert(c.waiters + waiters =~= c.waiters);
    } else {
        let fewer = waiters.drop_last();
        law_handshake_releases_in_order(c, fewer, data);
        assert(waits(waiters).drop_last() =~= waits(fewer));
        law_no_call_before_handshake(c, waits(fewer), 0);
        assert((c.waiters + fewer).push(waiters.last()) =~= c.waiters + waiters);
    }
}

/// After replies arrived on the given channels, in whatever order, a reply is
/// awaited exactly on the channels on which one was awaited before and none
/// has arrived; nothing else about the client has changed.
pub proof fn lemma_after_replies(c: ClientView, ports: Seq<u64>)
    ensures
        run(c, replies(ports)).ready == c.ready,
        run(c, replies(ports)).waiters == c.waiters,
        run(c, replies(ports)).in_use == c.in_use,
        forall|q: u64|
            awaited(run(c, replies(ports)), q) <==> awaited(c, q) && !ports.contains(q),
    decreases ports.len(),
{
    if ports.len() > 0 {
        let fewer = ports.drop_last();
        lemma_after_replies(c, fewer);
        assert(replies(ports).drop_last() =~= replies(fewer));
        let before = run(c, replies(fewer));
        assert forall|q: u64|
            awaited(run(c, replies(ports)), q) <==> awaited(c, q) && !ports.contains(q) by {
            if ports.contains(q) {
                let i = choose|i: int| 0 <= i < ports.len() && ports[i] == q;
                if i < fewer.len() {
                    assert(fewer[i] == q);
                }
            }
            if fewer.contains(q) {
                let i = choose|i: int| 0 <= i < fewer.len() && fewer[i] == q;
                assert(ports[i] == q);
            }
            assert(ports[ports.len() - 1] == ports.last());
        }
    }
}

/// Concurrent calls are told apart by their reply channels alone: when the
/// replies to any number of outstanding calls arrive in any order, each one
/// finds its own call still waiting for it, leaves the other calls waiting,
/// and once all have arrived exactly the calls without a reply are left.
pub proof fn law_replies_find_their_calls(c: ClientView, ports: Seq<u64>, i: int)
    requires
        ports.no_duplicates(),
        forall|k: int| 0 <= k < ports.len() ==> awaited(c, #[trigger] ports[k]),
        0 <= i < ports.len(),
    ensures
        awaited(run(c, replies(ports.take(i))), ports[i]),
        forall|k: int|
            i < k < ports.len() ==> awaited(
                next(run(c, replies(ports.take(i))), ClientEvent::Reply(ports[i])),
                #[trigger] ports[k],
            ),
        forall|q: u64|
            awaited(run(c, replies(ports)), q) <==> awaited(c, q) && !ports.contains(q),
{
    lemma_after_replies(c, ports);
    lemma_after_replies(c, ports.take(i));
    let earlier = ports.take(i);
    assert forall|k: int| i <= k < ports.len() implies !earlier.contains(ports[k]) by {
        if earlier.contains(ports[k]) {
            let j = choose|j: int| 0 <= j < earlier.len() && earlier[j] == ports[k];
            assert(ports[j] == ports[k]);
        }
    }
    assert(awaited(run(c, replies(earlier)), ports[i]));
    assert forall|k: int| i < k < ports.len() implies awaited(
        next(run(c, replies(earlier)), ClientEvent::Reply(ports[i])),
        #[trigger] ports[k],
    ) by {
        assert(!earlier.contains(ports[k]));
        assert(awaited(run(c, replies(earlier)), ports[k]));
    }
}

} // verus!
