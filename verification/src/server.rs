use vstd::prelude::*;
use crate::client::{decoded_reply, law_refusal_fails_the_call};
use crate::error::{Error, ErrorView};
use crate::message::{fault_of, reports, Message, MessageView};
use crate::payload::{tag_of, values, Payload, Value};
use crate::post::{Post, PortId, Transfer};
use crate::protocol::{handshake, handshake_name, open_envelope, rest_of};
use crate::reply::{
    law_replies_are_told_apart, refusal_wire, reply_kind, result_wire, wrap_refusal, wrap_result,
    ReplyKind,
};
use crate::to_async::{Completion, MaybeAsync};

verus! {

/// The state of a server: the names of its operations in the order of their
/// declaration, and whether the implementation is lent out to a call whose
/// synchronous part is still running.
pub struct ServerView {
    pub procedures: Seq<Seq<char>>,
    pub busy: bool,
}

/// What a server does about a message, with payloads as values.
pub enum ReactionView {
    Acknowledge(MessageView),
    Invoke { procedure: int, arguments: Seq<Value>, reply: u64 },
    Refuse { reply_to: Option<u64>, error: ErrorView },
    Report(ErrorView),
}

/// What a server does about a message.
#[derive(Debug, PartialEq, Eq)]
pub enum Reaction {
    /// Send this handshake back on the server's channel.
    Acknowledge(Message),
    /// Call the operation at this place in the table with these arguments,
    /// and answer on the reply channel.
    Invoke { procedure: usize, arguments: Vec<Payload>, reply: PortId },
    /// Tell the caller, on its reply channel where the message named one,
    /// that the call cannot be served.
    Refuse { reply_to: Option<PortId>, error: Error },
    /// The message belongs to no call: note the error and drop the message.
    Report(Error),
}

impl View for Reaction {
    type V = ReactionView;

    open spec fn view(&self) -> ReactionView {
        match self {
            Reaction::Acknowledge(m) => ReactionView::Acknowledge(m@),
            Reaction::Invoke { procedure, arguments, reply } => ReactionView::Invoke {
                procedure: *procedure as int,
                arguments: values(arguments@),
                reply: reply.0,
            },
            Reaction::Refuse { reply_to, error } => ReactionView::Refuse {
                reply_to: match reply_to {
                    Some(port) => Some(port.0),
                    None => None,
                },
                error: error@,
            },
            Reaction::Report(error) => ReactionView::Report(error@),
        }
    }
}

/// Whether `i` is the first place in the table that holds `name`.
pub open spec fn finds(table: Seq<Seq<char>>, name: Seq<char>, i: int) -> bool {
    &&& 0 <= i < table.len()
    &&& table[i] == name
    &&& forall|j: int| 0 <= j < i ==> table[j] != name
}

/// The first place in the table that holds `name`, if any does.
pub open spec fn lookup(table: Seq<Seq<char>>, name: Seq<char>) -> Option<int> {
    if exists|i: int| finds(table, name, i) {
        Some(choose|i: int| finds(table, name, i))
    } else {
        None
    }
}

/// The reply channel of a call: the last of its fields, if that is a channel end.
pub open spec fn reply_of(rest: Seq<Value>) -> Option<u64> {
    if rest.len() > 0 && rest.last() is Port {
        Some(rest.last()->Port_0)
    } else {
        None
    }
}

/// The handshake as a message.
pub open spec fn acknowledgment() -> MessageView {
    MessageView { fields: seq![Value::Text(handshake_name())], transfer: Seq::empty() }
}

/// The error for a message that does not open with an operation name.
pub open spec fn nameless() -> ErrorView {
    ErrorView::DeserializeFailed {
        type_label: "String"@,
        error: "message has no operation name"@,
    }
}

/// The error for a call that names no reply channel.
pub open spec fn replyless() -> ErrorView {
    ErrorView::DeserializeFailed { type_label: "PortId"@, error: "call has no reply channel"@ }
}

/// What a server with these operations does about a message.
///
/// A server whose implementation is lent out reports `ClientUnavailable`. A
/// message without an operation name is reported. Every handshake is
/// acknowledged. A name that the table lacks is refused with
/// `UnknownProcedure`; one that it holds is invoked at its first place, with
/// the fields between the name and the reply channel as arguments.
pub open spec fn reaction(server: ServerView, data: Value) -> ReactionView {
    if server.busy {
        ReactionView::Report(ErrorView::ClientUnavailable)
    } else {
        match tag_of(data) {
            None => ReactionView::Report(nameless()),
            Some(name) => if name == handshake_name() {
                ReactionView::Acknowledge(acknowledgment())
            } else {
                match lookup(server.procedures, name) {
                    None => ReactionView::Refuse {
                        reply_to: reply_of(rest_of(data)),
                        error: ErrorView::UnknownProcedure { name },
                    },
                    Some(procedure) => match reply_of(rest_of(data)) {
                        Some(reply) => ReactionView::Invoke {
                            procedure,
                            arguments: rest_of(data).drop_last(),
                            reply,
                        },
                        None => ReactionView::Report(replyless()),
                    },
                }
            },
        }
    }
}

/// The server after it reacted: its table is the same, and its
/// implementation is lent out exactly if an operation was invoked.
pub open spec fn after_reaction(server: ServerView, data: Value) -> ServerView {
    ServerView {
        procedures: server.procedures,
        busy: server.busy || reaction(server, data) is Invoke,
    }
}

/// `lookup` finds the first place of a name, and only names that the table holds.
pub proof fn lemma_lookup(table: Seq<Seq<char>>, name: Seq<char>, i: int)
    ensures
        finds(table, name, i) ==> lookup(table, name) == Some(i),
        (forall|j: int| 0 <= j < table.len() ==> table[j] != name) ==> lookup(table, name)
            is None,
{
    if finds(table, name, i) {
        let k = choose|k: int| finds(table, name, k);
        assert(finds(table, name, k));
        if k < i {
            assert(table[k] != name);
        }
        if i < k {
            assert(table[i] != name);
        }
    }
}

/// The dispatch engine of the serving side.
///
/// It decides; it does not send, and it does not hold the implementation. It
/// tells the owner of the channel and of the implementation what to do about
/// each message.
#[derive(Debug)]
pub struct Server {
    procedures: Vec<String>,
    busy: bool,
}

impl View for Server {
    type V = ServerView;

    closed spec fn view(&self) -> ServerView {
        ServerView {
            procedures: Seq::new(self.procedures@.len(), |i: int| self.procedures@[i]@),
            busy: self.busy,
        }
    }
}

impl Server {
    /// A server for the operations of these names, and the handshake that its
    /// owner sends once the receive handler is installed, for a client that
    /// was there first.
    pub fn create(procedures: Vec<String>) -> (r: (Server, Message))
        ensures
            r.0@.procedures == Seq::new(procedures@.len(), |i: int| procedures@[i]@),
            !r.0@.busy,
            r.1@ == acknowledgment(),
    {
        (Server { procedures, busy: false }, handshake())
    }

    /// The place of an operation in the table.
    pub fn find(&self, name: &String) -> (place: Option<usize>)
        ensures
            match place {
                Some(i) => lookup(self@.procedures, name@) == Some(i as int),
                None => lookup(self@.procedures, name@) is None,
            },
    {
        let mut i: usize = 0;
        while i < self.procedures.len()
            invariant
                i <= self.procedures.len(),
                forall|j: int| 0 <= j < i ==> self@.procedures[j] != name@,
            decreases self.procedures.len() - i,
        {
            if self.procedures[i] == *name {
                proof {
                    lemma_lookup(self@.procedures, name@, i as int);
                }
                return Some(i);
            }
            i += 1;
        }
        proof {
            lemma_lookup(self@.procedures, name@, 0);
        }
        None
    }

    /// Decides what to do about a message that arrived on the server's channel.
    pub fn on_message(&mut self, data: Payload) -> (r: Reaction)
        ensures
            r@ == reaction(old(self)@, data@),
            final(self)@ == after_reaction(old(self)@, data@),
    {
        if self.busy {
            return Reaction::Report(Error::ClientUnavailable);
        }
        match open_envelope(data) {
            None => Reaction::Report(
                Error::DeserializeFailed {
                    type_label: "String".to_owned(),
                    error: "message has no operation name".to_owned(),
                },
            ),
            Some((name, rest)) => {
                let mut rest = rest;
                if crate::payload::text_is(&name, "*handshake") {
                    return Reaction::Acknowledge(handshake());
                }
                let ghost fields = values(rest@);
                let reply = take_reply(&mut rest);
                match self.find(&name) {
                    None => Reaction::Refuse {
                        reply_to: reply,
                        error: Error::UnknownProcedure { name },
                    },
                    Some(procedure) => match reply {
                        Some(reply) => {
                            self.busy = true;
                            Reaction::Invoke { procedure, arguments: rest, reply }
                        },
                        None => Reaction::Report(
                            Error::DeserializeFailed {
                                type_label: "PortId".to_owned(),
                                error: "call has no reply channel".to_owned(),
                            },
                        ),
                    },
                }
            },
        }
    }

    /// Takes the implementation back once the synchronous part of a call has
    /// run. What is left of the call completes without it.
    pub fn dispatched(&mut self)
        ensures
            final(self)@ == (ServerView { busy: false, ..old(self)@ }),
    {
        self.busy = false;
    }
}

/// Takes the reply channel off the end of a call's fields, where they end
/// with one; otherwise the fields stay as they are.
pub fn take_reply(rest: &mut Vec<Payload>) -> (reply: Option<PortId>)
    ensures
        match reply {
            Some(port) => reply_of(values(old(rest)@)) == Some(port.0) && values(final(rest)@)
                == values(old(rest)@).drop_last(),
            None => reply_of(values(old(rest)@)) is None && final(rest)@ == old(rest)@,
        },
{
    let n = rest.len();
    if n == 0 {
        return None;
    }
    match &rest[n - 1] {
        Payload::Port(id) => {
            let port = PortId(*id);
            let ghost before = rest@;
            rest.pop();
            assert(values(rest@) =~= values(before).drop_last());
            Some(port)
        },
        _ => None,
    }
}

/// A reply on its way: the channel end to post it on, the payload, and the
/// payloads that have to be moved with it.
#[derive(Debug, PartialEq, Eq)]
pub struct Reply {
    pub port: PortId,
    pub data: Payload,
    pub transfer: Vec<Payload>,
}

/// Marshals the result of a call for its reply channel: the reply is the
/// result's payload in the wire form of a result, and the payload is marked
/// for transfer where its type asks for it.
pub fn respond<R: Post + Transfer>(result: R, reply: PortId) -> (r: Result<Reply, Error>)
    ensures
        reports(fault_of::<R>(result.model()), r),
        r matches Ok(answer) ==> {
            &&& answer.port == reply
            &&& answer.data@ == result_wire(R::wire(result.model()))
            &&& reply_kind(answer.data@) == ReplyKind::Outcome(R::wire(result.model()))
            &&& values(answer.transfer@) == if R::needs_transfer() {
                seq![R::wire(result.model())]
            } else {
                Seq::<Value>::empty()
            }
        },
{
    match result.to_payload() {
        Ok(data) => {
            proof {
                law_replies_are_told_apart(ErrorView::ClientUnavailable, data@);
            }
            let mut transfer: Vec<Payload> = Vec::new();
            if R::transfer_marked() {
                transfer.push(data.duplicate());
            }
            assert(values(transfer@) =~= if R::needs_transfer() {
                seq![data@]
            } else {
                Seq::<Value>::empty()
            });
            Ok(Reply { port: reply, data: wrap_result(data), transfer })
        },
        Err(e) => Err(e),
    }
}

/// The reply that tells a caller that its call was refused: the error in
/// the wire form of a refusal, which no result has.
pub fn refusal(error: &Error, reply: PortId) -> (answer: Reply)
    ensures
        answer.port == reply,
        answer.data@ == refusal_wire(error@),
        reply_kind(answer.data@) == ReplyKind::Refusal(error@),
        answer.transfer@.len() == 0,
{
    proof {
        law_replies_are_told_apart(error@, Value::Null);
    }
    Reply { port: reply, data: wrap_refusal(error), transfer: Vec::new() }
}

/// What becomes of the result of an operation: a reply that can go out now,
/// or the unit of work whose end has to be awaited before the reply can be
/// made, with the channel to make it on.
#[derive(Debug, PartialEq, Eq)]
pub enum Answer {
    Now(Reply),
    Later { task: u64, reply: PortId },
}

/// Deals with what an operation handed back. A value that is there is
/// marshalled for the reply channel as `respond` does. One that is still
/// being computed is not waited for: the unit of work and the reply channel
/// are handed back, and the reply is made with `respond` when the value is
/// there.
pub fn answer<R: Post + Transfer, M: MaybeAsync<R>>(result: M, reply: PortId) -> (r: Result<
    Answer,
    Error,
>)
    ensures
        match result.settled() {
            Completion::Ready(value) => {
                &&& reports(fault_of::<R>(value.model()), r)
                &&& r matches Ok(outcome) ==> outcome matches Answer::Now(answer) && {
                    &&& answer.port == reply
                    &&& answer.data@ == result_wire(R::wire(value.model()))
                    &&& values(answer.transfer@) == if R::needs_transfer() {
                        seq![R::wire(value.model())]
                    } else {
                        Seq::<Value>::empty()
                    }
                }
            },
            Completion::Pending(task) => r matches Ok(outcome) && outcome == (Answer::Later {
                task,
                reply,
            }),
        },
{
    match result.to_maybe_async() {
        Completion::Ready(value) => match respond(value, reply) {
            Ok(answer) => Ok(Answer::Now(answer)),
            Err(e) => Err(e),
        },
        Completion::Pending(task) => Ok(Answer::Later { task, reply }),
    }
}

/// What is to be done once an operation has handed back what it had.
#[derive(Debug, PartialEq, Eq)]
pub enum Conclusion {
    /// Post this reply.
    Send(Reply),
    /// Await this unit of work, then conclude again with what it yields.
    Await { task: u64, reply: PortId },
    /// Note the error, and post this refusal to the caller.
    Fail { report: Error, refusal: Reply },
}

/// What a conclusion amounts to, with payloads as values.
pub enum ConclusionView {
    Send { port: u64, data: Value, transfer: Seq<Value> },
    Await { task: u64, reply: u64 },
    Fail { report: ErrorView, port: u64, data: Value },
}

impl View for Conclusion {
    type V = ConclusionView;

    open spec fn view(&self) -> ConclusionView {
        match self {
            Conclusion::Send(answer) => ConclusionView::Send {
                port: answer.port.0,
                data: answer.data@,
                transfer: values(answer.transfer@),
            },
            Conclusion::Await { task, reply } => ConclusionView::Await {
                task: *task,
                reply: reply.0,
            },
            Conclusion::Fail { report, refusal } => ConclusionView::Fail {
                report: report@,
                port: refusal.port.0,
                data: refusal.data@,
            },
        }
    }
}

/// Decides what is done about the outcome of a handler. A reply is posted
/// as it is; a unit of work is awaited; a failure is noted and told to the
/// caller as a refusal on the call's reply channel, so that the call fails
/// with that error and does not hang.
pub fn conclude(outcome: Result<Answer, Error>, reply: PortId) -> (c: Conclusion)
    ensures
        match outcome {
            Ok(Answer::Now(answer)) => c == Conclusion::Send(answer),
            Ok(Answer::Later { task, reply: later }) => c == (Conclusion::Await {
                task,
                reply: later,
            }),
            Err(error) => c@ == (ConclusionView::Fail {
                report: error@,
                port: reply.0,
                data: refusal_wire(error@),
            }) && (c matches Conclusion::Fail { refusal, .. } && refusal.transfer@.len() == 0),
        },
{
    match outcome {
        Ok(Answer::Now(answer)) => Conclusion::Send(answer),
        Ok(Answer::Later { task, reply }) => Conclusion::Await { task, reply },
        Err(error) => {
            let refusal = refusal(&error, reply);
            Conclusion::Fail { report: error, refusal }
        },
    }
}

/// Decides what is done about a call or an invocation that was turned
/// away: the error is noted, and where the message named a reply channel
/// the caller is told by a refusal on it.
pub fn turn_away(reply_to: Option<PortId>, error: Error) -> (r: (Error, Option<Reply>))
    ensures
        r.0 == error,
        match reply_to {
            Some(reply) => (r.1 matches Some(answer) && answer.port == reply && answer.data@
                == refusal_wire(error@) && answer.transfer@.len() == 0),
            None => r.1 is None,
        },
{
    let answer = match reply_to {
        Some(reply) => Some(refusal(&error, reply)),
        None => None,
    };
    (error, answer)
}

/// A call of an operation that the table lacks is refused with
/// `UnknownProcedure` and that name, towards the call's reply channel, and
/// leaves the server as it was: whatever message comes next is treated as if
/// the unknown call had never arrived.
pub proof fn law_unknown_procedure_is_refused(
    server: ServerView,
    data: Value,
    name: Seq<char>,
    next: Value,
)
    requires
        !server.busy,
        tag_of(data) == Some(name),
        name != handshake_name(),
        forall|j: int| 0 <= j < server.procedures.len() ==> server.procedures[j] != name,
    ensures
        reaction(server, data) == (ReactionView::Refuse {
            reply_to: reply_of(rest_of(data)),
            error: ErrorView::UnknownProcedure { name },
        }),
        after_reaction(server, data) == server,
        reaction(after_reaction(server, data), next) == reaction(server, next),
{
    lemma_lookup(server.procedures, name, 0);
}

/// A call of an operation that the table lacks fails at the caller with
/// `UnknownProcedure` and the operation's name, whatever the call's return
/// type: the server refuses it, and the refusal that is made of that
/// resolves the call with the error.
pub proof fn law_unknown_procedure_fails_the_call<R: Post>(
    server: ServerView,
    data: Value,
    name: Seq<char>,
    payload: Payload,
    decoded: Result<R, Error>,
)
    requires
        !server.busy,
        tag_of(data) == Some(name),
        name != handshake_name(),
        forall|j: int| 0 <= j < server.procedures.len() ==> server.procedures[j] != name,
        payload@ == refusal_wire(ErrorView::UnknownProcedure { name }),
        decoded_reply::<R>(Ok(payload), decoded),
    ensures
        reaction(server, data) == (ReactionView::Refuse {
            reply_to: reply_of(rest_of(data)),
            error: ErrorView::UnknownProcedure { name },
        }),
        decoded matches Err(e) && e@ == (ErrorView::UnknownProcedure { name }),
{
    law_unknown_procedure_is_refused(server, data, name, data);
    law_refusal_fails_the_call::<R>(ErrorView::UnknownProcedure { name }, payload, decoded);
}

/// Every handshake is acknowledged, the first and each one after it, as long
/// as the implementation is not lent out; and acknowledging changes nothing.
pub proof fn law_every_handshake_is_acknowledged(server: ServerView, data: Value)
    requires
        !server.busy,
        tag_of(data) == Some(handshake_name()),
    ensures
        reaction(server, data) == ReactionView::Acknowledge(acknowledgment()),
        after_reaction(server, data) == server,
        reaction(after_reaction(server, data), data) == ReactionView::Acknowledge(
            acknowledgment(),
        ),
{
}

} // verus!
