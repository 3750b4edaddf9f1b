use combadge::arguments::Arguments;
use combadge::callback::{Callback, CallbackClient, CallbackReaction, CallbackServer, Invocation};
use combadge::client::{decode_reply, Client};
use combadge::error::Error;
use combadge::handle::{AsHandle, Handle};
use combadge::message::{Message, PostTuple};
use combadge::payload::Payload;
use combadge::post::PortId;
use combadge::reply::{open_reply, wrap_refusal, wrap_result, Arrival};
use combadge::server::{
    conclude, refusal, respond, turn_away, Answer, Conclusion, Reaction, Reply, Server,
};

fn text(s: &str) -> Payload {
    Payload::Text(s.to_string())
}

fn every_error() -> Vec<Error> {
    let s = |t: &str| t.to_string();
    vec![
        Error::CallbackFailed { error: s("callback was released") },
        Error::ClientUnavailable,
        Error::CreationFailed { type_label: s("MessageChannel"), error: s("no") },
        Error::DeserializeFailed { type_label: s("i32"), error: s("bad") },
        Error::PostFailed { error: s("closed") },
        Error::ReceiveFailed { error: s("lost") },
        Error::SerializeFailed { type_label: s("Callback"), error: s("empty") },
        Error::UnknownProcedure { name: s("mul") },
        Error::UnsupportedType { name: s("T") },
        Error::UnknownProcedure { name: String::new() },
    ]
}

fn ready_client() -> Client {
    let (mut client, _) = Client::new();
    client.on_message(&Payload::List(vec![text("*handshake")]));
    client
}

#[test]
fn a_refusal_has_four_fields_on_the_wire() {
    let error = Error::UnknownProcedure { name: "mul".to_string() };
    assert_eq!(
        wrap_refusal(&error),
        Payload::List(vec![text("*error"), Payload::Int(7), text("mul"), text("")])
    );
    let error = Error::DeserializeFailed { type_label: "i32".to_string(), error: "bad".to_string() };
    assert_eq!(
        wrap_refusal(&error),
        Payload::List(vec![text("*error"), Payload::Int(3), text("i32"), text("bad")])
    );
    assert_eq!(
        wrap_refusal(&Error::ClientUnavailable),
        Payload::List(vec![text("*error"), Payload::Int(1), text(""), text("")])
    );
}

#[test]
fn a_result_has_one_field_on_the_wire() {
    assert_eq!(wrap_result(Payload::Int(5)), Payload::List(vec![Payload::Int(5)]));
    assert_eq!(wrap_result(Payload::Null), Payload::List(vec![Payload::Null]));
    assert_eq!(wrap_result(Payload::List(vec![])), Payload::List(vec![Payload::List(vec![])]));
}

#[test]
fn every_error_comes_back_from_its_refusal() {
    for error in every_error() {
        let expected = wrap_refusal(&error);
        assert_eq!(open_reply(expected), Arrival::Refusal(error));
    }
}

#[test]
fn results_and_refusals_are_told_apart() {
    assert_eq!(open_reply(wrap_result(text("*error"))), Arrival::Outcome(text("*error")));
    let lookalike = wrap_refusal(&Error::ClientUnavailable);
    assert_eq!(open_reply(wrap_result(lookalike.duplicate())), Arrival::Outcome(lookalike));
    for malformed in [
        Payload::Null,
        text("*error"),
        Payload::Int(5),
        Payload::List(vec![]),
        Payload::List(vec![Payload::Int(1), Payload::Int(2)]),
        Payload::List(vec![text("*error"), Payload::Int(9), text(""), text("")]),
        Payload::List(vec![text("*error"), Payload::Int(-1), text(""), text("")]),
        Payload::List(vec![text("error"), Payload::Int(1), text(""), text("")]),
        Payload::List(vec![text("*error"), text("1"), text(""), text("")]),
        Payload::List(vec![text("*error"), Payload::Int(1), Payload::Null, text("")]),
        Payload::List(vec![text("*error"), Payload::Int(1), text(""), Payload::Int(0)]),
        Payload::List(vec![Payload::Int(0), Payload::Int(1), text(""), text("")]),
    ] {
        assert_eq!(open_reply(malformed), Arrival::Malformed);
    }
}

#[test]
fn a_refusal_fails_the_call_whatever_its_return_type() {
    for error in every_error() {
        let refused = || Ok(wrap_refusal(&error));
        assert_eq!(decode_reply::<String>(refused()).as_ref(), Err(&error));
        assert_eq!(decode_reply::<i32>(refused()).as_ref(), Err(&error));
        assert_eq!(decode_reply::<bool>(refused()).as_ref(), Err(&error));
        assert_eq!(decode_reply::<()>(refused()).as_ref(), Err(&error));
        assert_eq!(decode_reply::<Payload>(refused()).as_ref(), Err(&error));
        assert_eq!(
            decode_reply::<combadge::result::Result<String, String>>(refused()).as_ref(),
            Err(&error)
        );
    }
}

#[test]
fn a_malformed_reply_fails_the_call() {
    let malformed = Error::DeserializeFailed {
        type_label: "reply".to_string(),
        error: "reply is neither a result nor a refusal".to_string(),
    };
    assert_eq!(decode_reply::<String>(Ok(text("unknown procedure mul"))), Err(malformed));
    assert!(decode_reply::<Payload>(Ok(Payload::Int(5))).is_err());
    assert_eq!(decode_reply::<Payload>(Ok(wrap_result(Payload::Int(5)))), Ok(Payload::Int(5)));
}

#[test]
fn an_unknown_procedure_fails_the_call_with_its_name() {
    let mut client = ready_client();
    let (mut server, _) = Server::create(vec!["add".to_string()]);
    let mut message = Message::new("mul");
    message.post_tuple((2i32, 3i32)).unwrap();
    let envelope = client.send_message(message, PortId(5)).unwrap();

    let (reply_to, error) = match server.on_message(envelope.body()) {
        Reaction::Refuse { reply_to, error } => (reply_to, error),
        other => panic!("not refused: {:?}", other),
    };
    let (report, answer) = turn_away(reply_to, error);
    assert_eq!(report, Error::UnknownProcedure { name: "mul".to_string() });
    let answer = answer.unwrap();
    assert_eq!(answer.port, PortId(5));

    let resolved: Option<Result<String, Error>> = client.receive(answer.port, Ok(answer.data));
    assert_eq!(resolved, Some(Err(Error::UnknownProcedure { name: "mul".to_string() })));
}

#[test]
fn an_invocation_after_the_release_fails_at_the_caller() {
    let mut owner = CallbackServer::create();
    let mut first = CallbackClient::new(PortId(1));
    let mut second = CallbackClient::new(PortId(1));

    let goodbye = first.release().unwrap();
    assert_eq!(owner.on_message(goodbye.body()), CallbackReaction::Release);

    let envelope = second.call((1i32,), PortId(9)).unwrap();
    let (reply_to, error) = match owner.on_message(envelope.body()) {
        CallbackReaction::Reject { reply_to, error } => (reply_to, error),
        other => panic!("not rejected: {:?}", other),
    };
    let (_, answer) = turn_away(reply_to, error);
    let answer = answer.unwrap();
    assert_eq!(answer.port, PortId(9));

    let resolved: Option<Result<String, Error>> = second.receive(PortId(9), Ok(answer.data));
    assert_eq!(
        resolved,
        Some(Err(Error::CallbackFailed { error: "callback was released".to_string() }))
    );

    let envelope = second.call((1i32,), PortId(10)).unwrap();
    let answer = match owner.on_message(envelope.body()) {
        CallbackReaction::Reject { reply_to, error } => turn_away(reply_to, error).1.unwrap(),
        other => panic!("not rejected: {:?}", other),
    };
    let resolved: Option<Result<i32, Error>> = second.receive(PortId(10), Ok(answer.data));
    assert_eq!(
        resolved,
        Some(Err(Error::CallbackFailed { error: "callback was released".to_string() }))
    );
}

#[test]
fn nobody_is_told_where_no_reply_channel_was_named() {
    let error = Error::UnknownProcedure { name: "mul".to_string() };
    let (report, answer) = turn_away(None, error);
    assert_eq!(report, Error::UnknownProcedure { name: "mul".to_string() });
    assert_eq!(answer, None);
}

#[test]
fn a_handler_that_failed_is_reported_and_refused() {
    let failure = Error::DeserializeFailed { type_label: "i32".to_string(), error: "x".to_string() };
    match conclude(Err(failure), PortId(3)) {
        Conclusion::Fail { report, refusal } => {
            assert_eq!(
                report,
                Error::DeserializeFailed { type_label: "i32".to_string(), error: "x".to_string() }
            );
            assert_eq!(refusal.port, PortId(3));
            assert_eq!(refusal.data, wrap_refusal(&report));
            assert!(refusal.transfer.is_empty());
            assert_eq!(decode_reply::<i32>(Ok(refusal.data)), Err(report));
        }
        other => panic!("not failed: {:?}", other),
    }
}

#[test]
fn a_handler_that_answered_is_sent_or_awaited() {
    let answer = respond(5i32, PortId(3)).unwrap();
    assert_eq!(
        conclude(Ok(Answer::Now(answer)), PortId(3)),
        Conclusion::Send(Reply {
            port: PortId(3),
            data: Payload::List(vec![Payload::Int(5)]),
            transfer: vec![],
        })
    );
    assert_eq!(
        conclude(Ok(Answer::Later { task: 4, reply: PortId(3) }), PortId(3)),
        Conclusion::Await { task: 4, reply: PortId(3) }
    );
}

#[test]
fn arguments_that_do_not_decode_fail_the_call() {
    let mut client = ready_client();
    let (mut server, _) = Server::create(vec!["add".to_string()]);
    let mut message = Message::new("add");
    message.post_tuple(("two".to_string(), 3i32)).unwrap();
    let envelope = client.send_message(message, PortId(5)).unwrap();
    let (arguments, reply) = match server.on_message(envelope.body()) {
        Reaction::Invoke { arguments, reply, .. } => (arguments, reply),
        other => panic!("not invoked: {:?}", other),
    };
    let outcome = <(i32, i32)>::take(arguments).and_then(|(a, b)| respond(a + b, reply)).map(Answer::Now);
    server.dispatched();
    let refusal = match conclude(outcome, reply) {
        Conclusion::Fail { refusal, .. } => refusal,
        other => panic!("not failed: {:?}", other),
    };
    let resolved: Option<Result<i32, Error>> = client.receive(refusal.port, Ok(refusal.data));
    assert_eq!(
        resolved,
        Some(Err(Error::DeserializeFailed {
            type_label: "i32".to_string(),
            error: "payload is not a number".to_string(),
        }))
    );
}

#[test]
fn a_refusal_reply_is_what_refusal_makes() {
    let error = Error::UnknownProcedure { name: "mul".to_string() };
    let reply = refusal(&error, PortId(4));
    assert_eq!(reply.port, PortId(4));
    assert_eq!(reply.data, wrap_refusal(&error));
    assert!(reply.transfer.is_empty());
}

#[test]
fn a_callback_hands_replies_to_its_proxy() {
    let mut remote: Callback<fn(i32) -> i32> = Callback::import(Payload::Port(2)).unwrap();
    let sent = remote.call((1i32,), PortId(7)).unwrap();
    assert!(matches!(sent, Invocation::Remote(_)));
    assert_eq!(remote.posted(PortId(7), Ok(())), Ok(()));
    let resolved: Option<Result<i32, Error>> =
        remote.receive(PortId(7), Ok(wrap_result(Payload::Int(2))));
    assert_eq!(resolved, Some(Ok(2)));
    let again: Option<Result<i32, Error>> =
        remote.receive(PortId(7), Ok(wrap_result(Payload::Int(2))));
    assert_eq!(again, None);

    remote.call((1i32,), PortId(8)).unwrap();
    assert_eq!(
        remote.posted(PortId(8), Err("closed".to_string())),
        Err(Error::CallbackFailed { error: "failed to post message: closed".to_string() })
    );
    let late: Option<Result<i32, Error>> =
        remote.receive(PortId(8), Ok(wrap_result(Payload::Int(2))));
    assert_eq!(late, None);
}

#[test]
fn a_cancelled_invocation_is_not_resolved() {
    let mut proxy = CallbackClient::new(PortId(1));
    proxy.call((1i32,), PortId(7)).unwrap();
    proxy.call((2i32,), PortId(8)).unwrap();
    proxy.cancel(PortId(7));
    let dropped: Option<Result<i32, Error>> =
        proxy.receive(PortId(7), Ok(wrap_result(Payload::Int(1))));
    assert_eq!(dropped, None);
    let kept: Option<Result<i32, Error>> =
        proxy.receive(PortId(8), Ok(wrap_result(Payload::Int(2))));
    assert_eq!(kept, Some(Ok(2)));

    let mut remote: Callback<fn(i32) -> i32> = Callback::import(Payload::Port(2)).unwrap();
    remote.call((1i32,), PortId(7)).unwrap();
    remote.cancel(PortId(7));
    let dropped: Option<Result<i32, Error>> =
        remote.receive(PortId(7), Ok(wrap_result(Payload::Int(1))));
    assert_eq!(dropped, None);
}

#[test]
fn a_local_callback_has_no_replies_to_take() {
    let mut local = Callback::from_local(|(a,): (i32,)| a + 1);
    assert_eq!(local.apply((4i32,)), Ok(5));
    let no_handler = Error::CallbackFailed {
        error: "callback has neither a local nor a remote handler".to_string(),
    };
    assert_eq!(local.posted(PortId(1), Ok(())), Err(no_handler));
    let nothing: Option<Result<i32, Error>> =
        local.receive(PortId(1), Ok(wrap_result(Payload::Int(1))));
    assert_eq!(nothing, None);
    local.cancel(PortId(1));
    assert_eq!(local.apply((1i32,)), Ok(2));
}

#[test]
fn a_proxy_has_no_function_to_apply() {
    let remote: Callback<fn((i32,)) -> i32> = Callback::import(Payload::Port(2)).unwrap();
    assert_eq!(
        remote.apply((1i32,)),
        Err(Error::CallbackFailed {
            error: "callback has neither a local nor a remote handler".to_string(),
        })
    );
}

#[test]
fn a_callback_is_called_across_the_boundary_again_and_again() {
    let callback = Callback::from_local(|(a, b): (i32, i32)| a * b);
    let (function, mut owner, wire) = callback.export(PortId(2)).unwrap();
    let mut remote: Callback<fn((i32, i32)) -> i32> = Callback::import(wire).unwrap();
    for (n, reply) in [(3i32, 30u64), (4, 31), (5, 32)] {
        let envelope = match remote.call((n, n + 1), PortId(reply)).unwrap() {
            Invocation::Remote(envelope) => envelope,
            other => panic!("not sent: {:?}", other),
        };
        let (arguments, reply) = match owner.on_message(envelope.body()) {
            CallbackReaction::Invoke { arguments, reply } => (arguments, reply),
            other => panic!("not invoked: {:?}", other),
        };
        let outcome = <(i32, i32)>::take(arguments)
            .and_then(|args| respond(function(args), reply))
            .map(Answer::Now);
        let answer = match conclude(outcome, reply) {
            Conclusion::Send(answer) => answer,
            other => panic!("not answered: {:?}", other),
        };
        let resolved: Option<Result<i32, Error>> = remote.receive(answer.port, Ok(answer.data));
        assert_eq!(resolved, Some(Ok(n * (n + 1))));
    }
}

#[derive(Debug, PartialEq)]
struct Counter(u32);

#[derive(Debug, PartialEq)]
struct CounterClient(PortId);

impl AsHandle<Counter> for Counter {
    type Client = CounterClient;

    fn into_client(port: PortId) -> CounterClient {
        CounterClient(port)
    }

    fn create_server(_local: Counter, _port: PortId) {}
}

#[test]
fn a_handle_makes_its_client_from_its_own_port() {
    for port in [0u64, 6, u64::MAX] {
        let handle: Handle<Counter> = Handle::new_remote(PortId(port));
        assert_eq!(handle.try_into_client(), Ok(CounterClient(PortId(port))));
    }
    assert!(Handle::from(Counter(1)).try_into_client().is_err());
}
