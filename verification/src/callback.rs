use vstd::prelude::*;
use std::collections::HashSet;
use crate::client::{
    decode_reply, decoded_reply, law_refusal_fails_the_call, law_result_resolves_the_call,
};
use crate::error::{Error, ErrorView};
use crate::message::{appended, reports, Fault, Message, MessageView, PostTuple};
use crate::payload::{tag_of, text_is, values, Payload, Value};
use crate::post::{Lossless, Post, PortId};
use crate::reply::{refusal_wire, result_wire};
use crate::protocol::{invoke_name, lemma_names_differ, open_envelope, release_name, rest_of};
use crate::server::{nameless, reply_of, replyless, take_reply};

verus! {

broadcast use vstd::std_specs::hash::group_hash_axioms;

/// What the owning half of a callback does about a message, with payloads as
/// values.
pub enum CallbackReactionView {
    Invoke { arguments: Seq<Value>, reply: u64 },
    Release,
    Reject { reply_to: Option<u64>, error: ErrorView },
    Report(ErrorView),
}

/// What the owning half of a callback does about a message.
#[derive(Debug, PartialEq, Eq)]
pub enum CallbackReaction {
    /// Call the function with these arguments and answer on the reply channel.
    Invoke { arguments: Vec<Payload>, reply: PortId },
    /// The other side has let go of the callback: tear the handler down.
    Release,
    /// Fail the invocation, towards its reply channel where it named one.
    Reject { reply_to: Option<PortId>, error: Error },
    /// The message belongs to no invocation: note the error and drop it.
    Report(Error),
}

impl View for CallbackReaction {
    type V = CallbackReactionView;

    open spec fn view(&self) -> CallbackReactionView {
        match self {
            CallbackReaction::Invoke { arguments, reply } => CallbackReactionView::Invoke {
                arguments: values(arguments@),
                reply: reply.0,
            },
            CallbackReaction::Release => CallbackReactionView::Release,
            CallbackReaction::Reject { reply_to, error } => CallbackReactionView::Reject {
                reply_to: match reply_to {
                    Some(port) => Some(port.0),
                    None => None,
                },
                error: error@,
            },
            CallbackReaction::Report(error) => CallbackReactionView::Report(error@),
        }
    }
}

/// The error for an invocation that arrives after the release.
pub open spec fn released_error() -> ErrorView {
    ErrorView::CallbackFailed { error: "callback was released"@ }
}

/// What the owning half does about a message, given whether it still holds
/// its anchor: an invocation is carried out while the anchor is held and
/// rejected with `CallbackFailed` afterwards; a release is obeyed; anything
/// else is reported.
pub open spec fn callback_reaction(anchored: bool, data: Value) -> CallbackReactionView {
    match tag_of(data) {
        None => CallbackReactionView::Report(nameless()),
        Some(name) => if name == invoke_name() {
            if !anchored {
                CallbackReactionView::Reject {
                    reply_to: reply_of(rest_of(data)),
                    error: released_error(),
                }
            } else {
                match reply_of(rest_of(data)) {
                    Some(reply) => CallbackReactionView::Invoke {
                        arguments: rest_of(data).drop_last(),
                        reply,
                    },
                    None => CallbackReactionView::Report(replyless()),
                }
            }
        } else if name == release_name() {
            CallbackReactionView::Release
        } else {
            CallbackReactionView::Report(ErrorView::UnknownProcedure { name })
        },
    }
}

/// Whether the anchor is still held after a message: a release clears it, and
/// nothing sets it again.
pub open spec fn anchored_after(anchored: bool, data: Value) -> bool {
    anchored && tag_of(data) != Some(release_name())
}

/// The owning half of a callback: it stands for the real function towards
/// the other side, and stays alive by an anchor that it holds itself, until
/// the other side releases it.
#[derive(Debug)]
pub struct CallbackServer {
    phylactery: bool,
}

impl CallbackServer {
    /// Whether the anchor is still held.
    pub closed spec fn anchored(&self) -> bool {
        self.phylactery
    }

    /// The owning half of a fresh callback, anchored.
    pub fn create() -> (server: CallbackServer)
        ensures
            server.anchored(),
    {
        CallbackServer { phylactery: true }
    }

    /// Whether the anchor is still held.
    pub fn is_anchored(&self) -> (yes: bool)
        ensures
            yes == self.anchored(),
    {
        self.phylactery
    }

    /// Decides what to do about a message that arrived on the conduit.
    pub fn on_message(&mut self, data: Payload) -> (r: CallbackReaction)
        ensures
            r@ == callback_reaction(old(self).anchored(), data@),
            final(self).anchored() == anchored_after(old(self).anchored(), data@),
    {
        proof {
            lemma_names_differ();
        }
        match open_envelope(data) {
            None => CallbackReaction::Report(
                Error::DeserializeFailed {
                    type_label: "String".to_owned(),
                    error: "message has no operation name".to_owned(),
                },
            ),
            Some((name, rest)) => {
                let mut rest = rest;
                if text_is(&name, "invoke") {
                    let reply = take_reply(&mut rest);
                    if !self.phylactery {
                        return CallbackReaction::Reject {
                            reply_to: reply,
                            error: Error::CallbackFailed {
                                error: "callback was released".to_owned(),
                            },
                        };
                    }
                    match reply {
                        Some(reply) => CallbackReaction::Invoke { arguments: rest, reply },
                        None => CallbackReaction::Report(
                            Error::DeserializeFailed {
                                type_label: "PortId".to_owned(),
                                error: "call has no reply channel".to_owned(),
                            },
                        ),
                    }
                } else if text_is(&name, "release") {
                    self.phylactery = false;
                    CallbackReaction::Release
                } else {
                    CallbackReaction::Report(Error::UnknownProcedure { name })
                }
            },
        }
    }
}

/// The state of the consuming half of a callback: the conduit to the owning
/// half, whether the callback was released, and the reply channels on which
/// the reply to an invocation is still awaited.
pub struct CallbackClientView {
    pub port: u64,
    pub released: bool,
    pub listeners: Set<u64>,
}

/// The error for an invocation through a proxy that was released.
pub open spec fn proxy_released() -> ErrorView {
    ErrorView::CallbackFailed { error: "callback proxy was released"@ }
}

/// The error for an invocation on a reply channel that is in use.
pub open spec fn reply_in_use() -> ErrorView {
    ErrorView::CallbackFailed { error: "reply channel is already in use"@ }
}

/// The consuming half of a callback: a proxy for a function that lives on
/// the other side.
#[derive(Debug)]
pub struct CallbackClient {
    port: PortId,
    released: bool,
    listeners: HashSet<u64>,
}

impl View for CallbackClient {
    type V = CallbackClientView;

    closed spec fn view(&self) -> CallbackClientView {
        CallbackClientView {
            port: self.port.0,
            released: self.released,
            listeners: self.listeners@,
        }
    }
}

impl CallbackClient {
    /// A proxy for the function behind `port`.
    pub fn new(port: PortId) -> (client: CallbackClient)
        ensures
            client@ == (CallbackClientView {
                port: port.0,
                released: false,
                listeners: Set::empty(),
            }),
    {
        CallbackClient { port, released: false, listeners: HashSet::new() }
    }

    /// The conduit on which invocations and the release are to be sent.
    pub fn port(&self) -> (port: PortId)
        ensures
            port.0 == self@.port,
    {
        self.port
    }

    /// Builds the envelope of one invocation: the name of the invocation,
    /// the arguments in their order, and the end of a fresh reply channel,
    /// marked for transfer. From then on one reply is awaited on that channel.
    ///
    /// A released proxy fails with `CallbackFailed`, and so does a reply
    /// channel that is in use; an argument that cannot be marshalled fails as
    /// marshalling does. A failure leaves the proxy as it was.
    pub fn call<Args>(&mut self, args: Args, reply: PortId) -> (r: Result<Message, Error>) where
        Message: PostTuple<Args>,

        ensures
            match r {
                Ok(envelope) => {
                    &&& !old(self)@.released
                    &&& !old(self)@.listeners.contains(reply.0)
                    &&& invocation::<Args>(args).1 is Nothing
                    &&& envelope@ == appended(invocation::<Args>(args).0, Value::Port(reply.0), true)
                    &&& final(self)@ == (CallbackClientView {
                        listeners: old(self)@.listeners.insert(reply.0),
                        ..old(self)@
                    })
                },
                Err(e) => {
                    &&& final(self)@ == old(self)@
                    &&& if old(self)@.released {
                        e@ == proxy_released()
                    } else if old(self)@.listeners.contains(reply.0) {
                        e@ == reply_in_use()
                    } else {
                        !(invocation::<Args>(args).1 is Nothing) && reports(
                            invocation::<Args>(args).1,
                            r,
                        )
                    }
                },
            },
    {
        if self.released {
            return Err(Error::CallbackFailed { error: "callback proxy was released".to_owned() });
        }
        if self.listeners.contains(&reply.0) {
            return Err(
                Error::CallbackFailed { error: "reply channel is already in use".to_owned() },
            );
        }
        let mut envelope = Message::new("invoke");
        match envelope.post_tuple(args) {
            Ok(()) => {},
            Err(e) => {
                return Err(e);
            },
        }
        match envelope.post(reply) {
            Ok(()) => {
                self.listeners.insert(reply.0);
                Ok(envelope)
            },
            Err(e) => Err(e),
        }
    }

    /// Takes note of what the conduit said to the sending of an invocation.
    /// A refused envelope fails the invocation at once with `CallbackFailed`,
    /// and its reply is not awaited any longer.
    pub fn posted(&mut self, reply: PortId, outcome: Result<(), String>) -> (r: Result<(), Error>)
        ensures
            match outcome {
                Ok(()) => r is Ok && final(self)@ == old(self)@,
                Err(text) => r matches Err(e) && e@ == (ErrorView::CallbackFailed {
                    error: "failed to post message: "@ + text@,
                }) && final(self)@ == (CallbackClientView {
                    listeners: old(self)@.listeners.remove(reply.0),
                    ..old(self)@
                }),
            },
    {
        match outcome {
            Ok(()) => Ok(()),
            Err(text) => {
                self.listeners.remove(&reply.0);
                let mut error = "failed to post message: ".to_owned();
                error.append(text.as_str());
                Err(Error::CallbackFailed { error })
            },
        }
    }

    /// Hands in what arrived on a reply channel. Where a reply is awaited on
    /// it, the channel stops listening and the result is the decoded value, or
    /// the error with which the channel failed; on any other channel nothing
    /// changes and the result is `None`.
    pub fn receive<R: Post>(&mut self, reply: PortId, outcome: Result<Payload, String>) -> (r:
        Option<Result<R, Error>>)
        ensures
            r is Some == old(self)@.listeners.contains(reply.0),
            final(self)@ == (CallbackClientView {
                listeners: old(self)@.listeners.remove(reply.0),
                ..old(self)@
            }),
            r matches Some(decoded) ==> decoded_reply::<R>(outcome, decoded),
    {
        if self.listeners.remove(&reply.0) {
            Some(decode_reply::<R>(outcome))
        } else {
            assert(self@.listeners =~= old(self)@.listeners);
            None
        }
    }

    /// Forgets an invocation that was given up: no reply is awaited on its
    /// reply channel any more. Nothing is to be sent.
    pub fn cancel(&mut self, reply: PortId)
        ensures
            final(self)@ == (CallbackClientView {
                listeners: old(self)@.listeners.remove(reply.0),
                ..old(self)@
            }),
    {
        self.listeners.remove(&reply.0);
    }

    /// Lets go of the callback. The first time this returns the release
    /// message, which is sent on the conduit, one way; after that there is
    /// nothing left to send.
    pub fn release(&mut self) -> (r: Option<Message>)
        ensures
            final(self)@ == (CallbackClientView { released: true, ..old(self)@ }),
            r is Some == !old(self)@.released,
            r matches Some(m) ==> m@ == (MessageView {
                fields: seq![Value::Text(release_name())],
                transfer: Seq::empty(),
            }),
    {
        if self.released {
            None
        } else {
            self.released = true;
            Some(Message::new("release"))
        }
    }
}

/// The message of an invocation before its reply channel is added, and the
/// fault that kept it from being completed.
pub open spec fn invocation<Args>(args: Args) -> (MessageView, Fault) where
    Message: PostTuple<Args>,
 {
    <Message as PostTuple<Args>>::packed_all(
        MessageView { fields: seq![Value::Text(invoke_name())], transfer: Seq::empty() },
        args,
    )
}

/// Whether the anchor is still held after a sequence of messages.
pub open spec fn anchored_after_all(anchored: bool, messages: Seq<Value>) -> bool
    decreases messages.len(),
{
    if messages.len() == 0 {
        anchored
    } else {
        anchored_after(anchored_after_all(anchored, messages.drop_last()), messages.last())
    }
}

/// Once the anchor is gone it stays gone, whatever arrives.
pub proof fn law_release_is_final(messages: Seq<Value>)
    ensures
        !anchored_after_all(false, messages),
    decreases messages.len(),
{
    if messages.len() > 0 {
        law_release_is_final(messages.drop_last());
    }
}

/// The anchor is held after a sequence of messages only if it was held
/// before and none of the messages was a release.
pub proof fn lemma_anchor_needs_no_release(anchored: bool, messages: Seq<Value>, i: int)
    requires
        0 <= i < messages.len(),
        tag_of(messages[i]) == Some(release_name()),
    ensures
        !anchored_after_all(anchored, messages),
    decreases messages.len(),
{
    if i < messages.len() - 1 {
        lemma_anchor_needs_no_release(anchored, messages.drop_last(), i);
    }
}

/// An invocation that arrives after the release fails, and does not hang:
/// however many messages of whatever kind came before the release and after
/// it, the owning half rejects the invocation with `CallbackFailed`, towards
/// the reply channel that the invocation named.
pub proof fn law_invocation_after_release_fails(
    anchored: bool,
    messages: Seq<Value>,
    i: int,
    data: Value,
)
    requires
        0 <= i < messages.len(),
        tag_of(messages[i]) == Some(release_name()),
        tag_of(data) == Some(invoke_name()),
    ensures
        callback_reaction(anchored_after_all(anchored, messages), data) == (
        CallbackReactionView::Reject {
            reply_to: reply_of(rest_of(data)),
            error: released_error(),
        }),
{
    lemma_anchor_needs_no_release(anchored, messages, i);
}

/// Until the release arrives, every invocation that names a reply channel is
/// carried out: no other message takes the anchor away.
pub proof fn law_anchor_holds_until_release(messages: Seq<Value>, data: Value)
    requires
        forall|i: int|
            0 <= i < messages.len() ==> tag_of(#[trigger] messages[i]) != Some(release_name()),
        tag_of(data) == Some(invoke_name()),
        reply_of(rest_of(data)) is Some,
    ensures
        anchored_after_all(true, messages),
        callback_reaction(anchored_after_all(true, messages), data) is Invoke,
    decreases messages.len(),
{
    if messages.len() > 0 {
        law_anchor_holds_until_release(messages.drop_last(), data);
        assert(tag_of(messages[messages.len() - 1]) != Some(release_name()));
    }
}

/// The envelope of one invocation as the proxy sends it: the invocation's
/// name, the arguments, and the reply channel, marked for transfer.
pub open spec fn invocation_envelope<Args>(args: Args, reply: u64) -> MessageView where
    Message: PostTuple<Args>,
 {
    appended(invocation::<Args>(args).0, Value::Port(reply), true)
}

/// What the owning half reads in the envelope of an invocation: it opens
/// with the invocation's name and ends with the reply channel, and between
/// them stand the arguments as they were packed.
pub proof fn lemma_invocation_envelope<Args>(args: Args, reply: u64) where
    Message: PostTuple<Args>,

    ensures
        ({
            let data = Value::List(invocation_envelope::<Args>(args, reply).fields);
            &&& tag_of(data) == Some(invoke_name())
            &&& reply_of(rest_of(data)) == Some(reply)
            &&& rest_of(data).drop_last() == invocation::<Args>(args).0.fields.skip(1)
        }),
{
    let start = MessageView { fields: seq![Value::Text(invoke_name())], transfer: Seq::empty() };
    <Message as PostTuple<Args>>::packing_appends(start, args);
    let packed = invocation::<Args>(args).0;
    assert(packed.fields[0] == start.fields[0]);
    let fields = invocation_envelope::<Args>(args, reply).fields;
    assert(fields == packed.fields.push(Value::Port(reply)));
    assert(fields[0] == Value::Text(invoke_name()));
    assert(fields.skip(1).last() == Value::Port(reply));
    assert(fields.skip(1).drop_last() =~= packed.fields.skip(1));
}

/// A callback that crossed the boundary can be called from the other side,
/// again and again, until it is released: whatever arrived before, as long
/// as it was no release, the owning half carries out the invocation that a
/// proxy sends, with the arguments as they were packed and towards the
/// invocation's own reply channel, and holds its anchor afterwards; and the
/// reply that it makes of the function's result resolves the invocation
/// with that result, for every lossless return type.
pub proof fn law_callback_is_callable_across<Args, R: Lossless>(
    args: Args,
    reply: u64,
    messages: Seq<Value>,
    result: R::Model,
    payload: Payload,
    decoded: Result<R, Error>,
) where Message: PostTuple<Args>
    requires
        forall|i: int|
            0 <= i < messages.len() ==> tag_of(#[trigger] messages[i]) != Some(release_name()),
        R::postable(),
        R::sendable(result),
        payload@ == result_wire(R::wire(result)),
        decoded_reply::<R>(Ok(payload), decoded),
    ensures
        ({
            let data = Value::List(invocation_envelope::<Args>(args, reply).fields);
            let anchored = anchored_after_all(true, messages);
            &&& callback_reaction(anchored, data) == (CallbackReactionView::Invoke {
                arguments: invocation::<Args>(args).0.fields.skip(1),
                reply,
            })
            &&& anchored_after(anchored, data)
        }),
        decoded matches Ok(back) && back.model() == result,
{
    lemma_invocation_envelope::<Args>(args, reply);
    lemma_names_differ();
    let data = Value::List(invocation_envelope::<Args>(args, reply).fields);
    law_anchor_holds_until_release(messages, data);
    law_result_resolves_the_call::<R>(result, payload, decoded);
}

/// An invocation through a proxy, after the owning half has received the
/// release, fails and does not hang: the owning half rejects it towards the
/// invocation's own reply channel, and the refusal that is made of the
/// rejection resolves the invocation with `CallbackFailed`, whatever the
/// return type.
pub proof fn law_invocation_after_release_fails_the_call<Args, R: Post>(
    anchored: bool,
    messages: Seq<Value>,
    i: int,
    args: Args,
    reply: u64,
    payload: Payload,
    decoded: Result<R, Error>,
) where Message: PostTuple<Args>
    requires
        0 <= i < messages.len(),
        tag_of(messages[i]) == Some(release_name()),
        payload@ == refusal_wire(released_error()),
        decoded_reply::<R>(Ok(payload), decoded),
    ensures
        callback_reaction(
            anchored_after_all(anchored, messages),
            Value::List(invocation_envelope::<Args>(args, reply).fields),
        ) == (CallbackReactionView::Reject { reply_to: Some(reply), error: released_error() }),
        decoded matches Err(e) && e@ == released_error(),
        released_error() is CallbackFailed,
{
    lemma_invocation_envelope::<Args>(args, reply);
    let data = Value::List(invocation_envelope::<Args>(args, reply).fields);
    law_invocation_after_release_fails(anchored, messages, i, data);
    law_refusal_fails_the_call::<R>(released_error(), payload, decoded);
}

/// The error for a callback that cannot be marshalled.
pub open spec fn not_local() -> ErrorView {
    ErrorView::SerializeFailed {
        type_label: "Callback"@,
        error: "can't serialize callback without a local callback"@,
    }
}

/// The error for a payload that holds no callback.
pub open spec fn not_a_conduit() -> ErrorView {
    ErrorView::DeserializeFailed {
        type_label: "Callback"@,
        error: "payload is not a channel end"@,
    }
}

/// The error for a callback that has nothing to call.
pub open spec fn no_handler() -> ErrorView {
    ErrorView::CallbackFailed { error: "callback has neither a local nor a remote handler"@ }
}

/// Where one invocation of a callback goes.
#[derive(Debug, PartialEq, Eq)]
pub enum Invocation<Args> {
    /// The function lives here: call it with these arguments.
    Local(Args),
    /// The function lives on the other side: send this envelope.
    Remote(Message),
}

/// A function value that can cross the boundary: on the side where the
/// function lives it holds the function, on the other side a proxy for it.
#[derive(Debug)]
pub struct Callback<F> {
    local: Option<F>,
    remote: Option<CallbackClient>,
}

impl<F> Callback<F> {
    /// The function, on the side where it lives.
    pub closed spec fn local(&self) -> Option<F> {
        self.local
    }

    /// The state of the proxy, on the other side.
    pub closed spec fn remote(&self) -> Option<CallbackClientView> {
        match self.remote {
            Some(client) => Some(client@),
            None => None,
        }
    }

    /// The callback of a function that lives here.
    pub fn from_local(function: F) -> (callback: Callback<F>)
        ensures
            callback.local() == Some(function),
            callback.remote() is None,
    {
        Callback { local: Some(function), remote: None }
    }

    /// Marshals the callback. `conduit` is the far end of a fresh channel
    /// whose near end the owning half will listen on.
    ///
    /// A callback that holds its function yields the function, the owning
    /// half that is to answer for it, anchored, and the conduit as the
    /// payload that stands for the callback on the wire. A callback without a
    /// function of its own fails with `SerializeFailed`.
    pub fn export(self, conduit: PortId) -> (r: Result<(F, CallbackServer, Payload), Error>)
        ensures
            match r {
                Ok((function, server, payload)) => {
                    &&& self.local() == Some(function)
                    &&& server.anchored()
                    &&& payload@ == Value::Port(conduit.0)
                },
                Err(e) => self.local() is None && e@ == not_local(),
            },
    {
        match self.local {
            Some(function) => Ok((function, CallbackServer::create(), Payload::Port(conduit.0))),
            None => Err(
                Error::SerializeFailed {
                    type_label: "Callback".to_owned(),
                    error: "can't serialize callback without a local callback".to_owned(),
                },
            ),
        }
    }

    /// Unmarshals a callback: the payload has to be the end of the conduit
    /// to the owning half, and the callback is then a fresh proxy on it.
    pub fn import(payload: Payload) -> (r: Result<Callback<F>, Error>)
        ensures
            match r {
                Ok(callback) => {
                    &&& payload@ is Port
                    &&& callback.local() is None
                    &&& callback.remote() == Some(
                        CallbackClientView {
                            port: payload@->Port_0,
                            released: false,
                            listeners: Set::empty(),
                        },
                    )
                },
                Err(e) => !(payload@ is Port) && e@ == not_a_conduit(),
            },
    {
        match payload {
            Payload::Port(id) => Ok(
                Callback { local: None, remote: Some(CallbackClient::new(PortId(id))) },
            ),
            _ => Err(
                Error::DeserializeFailed {
                    type_label: "Callback".to_owned(),
                    error: "payload is not a channel end".to_owned(),
                },
            ),
        }
    }

    /// The function, where it lives here.
    pub fn function(&self) -> (function: Option<&F>)
        ensures
            match function {
                Some(f) => self.local() == Some(*f),
                None => self.local() is None,
            },
    {
        self.local.as_ref()
    }

    /// The conduit of the proxy, where the callback is one.
    pub fn conduit(&self) -> (port: Option<PortId>)
        ensures
            match port {
                Some(p) => self.remote() matches Some(proxy) && proxy.port == p.0,
                None => self.remote() is None,
            },
    {
        match &self.remote {
            Some(client) => Some(client.port()),
            None => None,
        }
    }

    /// Routes one invocation. Through a proxy it becomes an envelope, as
    /// `CallbackClient::call` builds it. Where the function lives here, the
    /// arguments come back untouched, to be handed to the function on the
    /// spot. A callback that holds neither fails with `CallbackFailed`.
    pub fn call<Args>(&mut self, args: Args, reply: PortId) -> (r: Result<
        Invocation<Args>,
        Error,
    >) where Message: PostTuple<Args>
        ensures
            final(self).local() == old(self).local(),
            old(self).remote() is None ==> *final(self) == *old(self) && match r {
                Ok(route) => old(self).local() is Some && route == Invocation::Local(args),
                Err(e) => old(self).local() is None && e@ == no_handler(),
            },
            old(self).remote() matches Some(proxy) ==> match r {
                Ok(route) => {
                    &&& !proxy.released
                    &&& !proxy.listeners.contains(reply.0)
                    &&& invocation::<Args>(args).1 is Nothing
                    &&& route matches Invocation::Remote(envelope) && envelope@ == appended(
                        invocation::<Args>(args).0,
                        Value::Port(reply.0),
                        true,
                    )
                    &&& final(self).remote() == Some(
                        CallbackClientView { listeners: proxy.listeners.insert(reply.0), ..proxy },
                    )
                },
                Err(e) => {
                    &&& final(self).remote() == Some(proxy)
                    &&& if proxy.released {
                        e@ == proxy_released()
                    } else if proxy.listeners.contains(reply.0) {
                        e@ == reply_in_use()
                    } else {
                        !(invocation::<Args>(args).1 is Nothing) && reports(
                            invocation::<Args>(args).1,
                            r,
                        )
                    }
                },
            },
    {
        match &mut self.remote {
            Some(client) => match client.call(args, reply) {
                Ok(envelope) => Ok(Invocation::Remote(envelope)),
                Err(e) => Err(e),
            },
            None => {
                if self.local.is_some() {
                    Ok(Invocation::Local(args))
                } else {
                    Err(
                        Error::CallbackFailed {
                            error: "callback has neither a local nor a remote handler".to_owned(),
                        },
                    )
                }
            },
        }
    }

    /// Applies the function that lives here to the arguments of one
    /// invocation. A callback that holds no function fails with
    /// `CallbackFailed`.
    pub fn apply<Args, R>(&self, args: Args) -> (r: Result<R, Error>) where F: Fn(Args) -> R
        requires
            self.local() matches Some(function) ==> call_requires(function, (args,)),
        ensures
            match r {
                Ok(value) => self.local() matches Some(function) && call_ensures(
                    function,
                    (args,),
                    value,
                ),
                Err(e) => self.local() is None && e@ == no_handler(),
            },
    {
        match &self.local {
            Some(function) => Ok(function(args)),
            None => Err(
                Error::CallbackFailed {
                    error: "callback has neither a local nor a remote handler".to_owned(),
                },
            ),
        }
    }

    /// Takes note of what the conduit said to the sending of an invocation,
    /// as `CallbackClient::posted` does. A callback that is no proxy has sent
    /// nothing: it fails with `CallbackFailed` and stays as it is.
    pub fn posted(&mut self, reply: PortId, outcome: Result<(), String>) -> (r: Result<(), Error>)
        ensures
            final(self).local() == old(self).local(),
            old(self).remote() is None ==> *final(self) == *old(self) && (r matches Err(e) && e@
                == no_handler()),
            old(self).remote() matches Some(proxy) ==> match outcome {
                Ok(()) => r is Ok && final(self).remote() == Some(proxy),
                Err(text) => (r matches Err(e) && e@ == (ErrorView::CallbackFailed {
                    error: "failed to post message: "@ + text@,
                })) && final(self).remote() == Some(
                    CallbackClientView { listeners: proxy.listeners.remove(reply.0), ..proxy },
                ),
            },
    {
        match &mut self.remote {
            Some(client) => client.posted(reply, outcome),
            None => Err(
                Error::CallbackFailed {
                    error: "callback has neither a local nor a remote handler".to_owned(),
                },
            ),
        }
    }

    /// Hands in what arrived on a reply channel, as `CallbackClient::receive`
    /// does: where the proxy awaits a reply on it, the invocation resolves
    /// with what arrived; otherwise, and on a callback that is no proxy,
    /// nothing changes and the result is `None`.
    pub fn receive<R: Post>(&mut self, reply: PortId, outcome: Result<Payload, String>) -> (r:
        Option<Result<R, Error>>)
        ensures
            final(self).local() == old(self).local(),
            old(self).remote() is None ==> *final(self) == *old(self) && r is None,
            old(self).remote() matches Some(proxy) ==> {
                &&& r is Some == proxy.listeners.contains(reply.0)
                &&& final(self).remote() == Some(
                    CallbackClientView { listeners: proxy.listeners.remove(reply.0), ..proxy },
                )
                &&& r matches Some(decoded) ==> decoded_reply::<R>(outcome, decoded)
            },
    {
        match &mut self.remote {
            Some(client) => client.receive::<R>(reply, outcome),
            None => None,
        }
    }

    /// Forgets an invocation that was given up, as `CallbackClient::cancel`
    /// does. A callback that is no proxy stays as it is.
    pub fn cancel(&mut self, reply: PortId)
        ensures
            final(self).local() == old(self).local(),
            final(self).remote() == match old(self).remote() {
                Some(proxy) => Some(
                    CallbackClientView { listeners: proxy.listeners.remove(reply.0), ..proxy },
                ),
                None => None,
            },
    {
        match &mut self.remote {
            Some(client) => client.cancel(reply),
            None => {},
        }
    }

    /// Lets go of the callback: a proxy that was not released before yields
    /// the release message for its conduit; otherwise there is nothing to send.
    pub fn release(&mut self) -> (r: Option<Message>)
        ensures
            final(self).local() == old(self).local(),
            final(self).remote() == match old(self).remote() {
                Some(proxy) => Some(CallbackClientView { released: true, ..proxy }),
                None => None,
            },
            r is Some == (old(self).remote() matches Some(proxy) && !proxy.released),
            r matches Some(m) ==> m@ == (MessageView {
                fields: seq![Value::Text(release_name())],
                transfer: Seq::empty(),
            }),
    {
        match &mut self.remote {
            Some(client) => client.release(),
            None => None,
        }
    }
}

impl<F> crate::post::Transfer for Callback<F> {
    open spec fn needs_transfer() -> bool {
        true
    }

    fn transfer_marked() -> (yes: bool) {
        true
    }
}

} // verus!
