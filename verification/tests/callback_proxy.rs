use combadge::arguments::Arguments;
use combadge::callback::{Callback, CallbackClient, CallbackReaction, CallbackServer, Invocation};
use combadge::error::Error;
use combadge::handle::{AsHandle, Handle};
use combadge::payload::{duplicate_all, Payload};
use combadge::post::{PortId, Transfer, Unsupported};
use combadge::server::respond;

fn text(s: &str) -> Payload {
    Payload::Text(s.to_string())
}

fn invoke(arguments: Vec<Payload>, reply: u64) -> Payload {
    let mut fields = vec![text("invoke")];
    fields.extend(arguments);
    fields.push(Payload::Port(reply));
    Payload::List(fields)
}

fn result(value: Payload) -> Payload {
    Payload::List(vec![value])
}

fn release() -> Payload {
    Payload::List(vec![text("release")])
}

fn released_error() -> Error {
    Error::CallbackFailed { error: "callback was released".to_string() }
}

#[test]
fn a_fresh_owning_half_is_anchored() {
    assert!(CallbackServer::create().is_anchored());
}

#[test]
fn an_invocation_is_carried_out() {
    let mut server = CallbackServer::create();
    match server.on_message(invoke(vec![Payload::Int(2), Payload::Int(3)], 5)) {
        CallbackReaction::Invoke { arguments, reply } => {
            assert_eq!(arguments, vec![Payload::Int(2), Payload::Int(3)]);
            assert_eq!(reply, PortId(5));
        }
        other => panic!("not invoked: {:?}", other),
    }
    assert!(server.is_anchored());
}

#[test]
fn a_callback_can_be_invoked_again_and_again() {
    let mut server = CallbackServer::create();
    for reply in 1..=5u64 {
        assert_eq!(
            server.on_message(invoke(vec![], reply)),
            CallbackReaction::Invoke { arguments: vec![], reply: PortId(reply) }
        );
    }
}

#[test]
fn a_release_clears_the_anchor() {
    let mut server = CallbackServer::create();
    assert_eq!(server.on_message(release()), CallbackReaction::Release);
    assert!(!server.is_anchored());
    assert_eq!(server.on_message(release()), CallbackReaction::Release);
    assert!(!server.is_anchored());
}

#[test]
fn an_invocation_after_the_release_fails() {
    let mut server = CallbackServer::create();
    assert!(matches!(server.on_message(invoke(vec![], 1)), CallbackReaction::Invoke { .. }));
    assert_eq!(server.on_message(release()), CallbackReaction::Release);
    assert_eq!(
        server.on_message(invoke(vec![Payload::Int(1)], 2)),
        CallbackReaction::Reject { reply_to: Some(PortId(2)), error: released_error() }
    );
    assert_eq!(
        server.on_message(Payload::List(vec![text("invoke")])),
        CallbackReaction::Reject { reply_to: None, error: released_error() }
    );
}

#[test]
fn nothing_but_a_release_clears_the_anchor() {
    let mut server = CallbackServer::create();
    let nameless = Error::DeserializeFailed {
        type_label: "String".to_string(),
        error: "message has no operation name".to_string(),
    };
    assert_eq!(server.on_message(Payload::Null), CallbackReaction::Report(nameless));
    assert_eq!(
        server.on_message(Payload::List(vec![text("drop")])),
        CallbackReaction::Report(Error::UnknownProcedure { name: "drop".to_string() })
    );
    assert_eq!(
        server.on_message(Payload::List(vec![text("invoke"), Payload::Int(1)])),
        CallbackReaction::Report(Error::DeserializeFailed {
            type_label: "PortId".to_string(),
            error: "call has no reply channel".to_string(),
        })
    );
    assert!(server.is_anchored());
}

#[test]
fn the_proxy_builds_an_invocation_per_call() {
    let mut proxy = CallbackClient::new(PortId(1));
    assert_eq!(proxy.port(), PortId(1));
    let envelope = proxy.call((2i32, "x".to_string()), PortId(8)).unwrap();
    assert_eq!(
        envelope.fields(),
        &vec![text("invoke"), Payload::Int(2), text("x"), Payload::Port(8)]
    );
    assert_eq!(envelope.transfer_list(), &vec![Payload::Port(8)]);
}

#[test]
fn the_proxy_pairs_each_reply_with_its_invocation() {
    let mut proxy = CallbackClient::new(PortId(1));
    for reply in [10u64, 11, 12] {
        proxy.call((reply as i32,), PortId(reply)).unwrap();
    }
    for reply in [12u64, 10, 11] {
        let resolved: Option<Result<i32, Error>> =
            proxy.receive(PortId(reply), Ok(result(Payload::Int(reply as i64 + 100))));
        assert_eq!(resolved, Some(Ok(reply as i32 + 100)));
    }
    let again: Option<Result<i32, Error>> = proxy.receive(PortId(10), Ok(result(Payload::Int(0))));
    assert_eq!(again, None);
}

#[test]
fn the_proxy_refuses_a_reply_channel_in_use() {
    let mut proxy = CallbackClient::new(PortId(1));
    proxy.call((1i32,), PortId(8)).unwrap();
    assert_eq!(
        proxy.call((2i32,), PortId(8)),
        Err(Error::CallbackFailed { error: "reply channel is already in use".to_string() })
    );
}

#[test]
fn the_proxy_passes_marshalling_errors_on() {
    let mut proxy = CallbackClient::new(PortId(1));
    assert_eq!(
        proxy.call((1i32, Unsupported(0u8)), PortId(8)),
        Err(Error::UnsupportedType { name: "Unsupported".to_string() })
    );
    assert!(proxy.call((1i32,), PortId(8)).is_ok());
}

#[test]
fn a_refused_invocation_fails_at_once() {
    let mut proxy = CallbackClient::new(PortId(1));
    proxy.call((1i32,), PortId(8)).unwrap();
    assert_eq!(proxy.posted(PortId(8), Ok(())), Ok(()));
    assert_eq!(
        proxy.posted(PortId(8), Err("closed".to_string())),
        Err(Error::CallbackFailed { error: "failed to post message: closed".to_string() })
    );
    let late: Option<Result<i32, Error>> = proxy.receive(PortId(8), Ok(result(Payload::Int(1))));
    assert_eq!(late, None);
}

#[test]
fn the_release_is_sent_exactly_once() {
    let mut proxy = CallbackClient::new(PortId(1));
    let message = proxy.release().unwrap();
    assert_eq!(message.fields(), &vec![text("release")]);
    assert!(message.transfer_list().is_empty());
    assert_eq!(proxy.release(), None);
    assert_eq!(proxy.release(), None);
}

#[test]
fn a_released_proxy_fails_every_call() {
    let mut proxy = CallbackClient::new(PortId(1));
    assert!(proxy.call((1i32,), PortId(8)).is_ok());
    proxy.release();
    assert_eq!(
        proxy.call((1i32,), PortId(9)),
        Err(Error::CallbackFailed { error: "callback proxy was released".to_string() })
    );
}

#[test]
fn invoke_release_invoke_across_both_halves() {
    let function = |a: i32, b: i32| a * b;
    let callback = Callback::from_local(function);
    let (function, mut owner, wire) = callback.export(PortId(2)).unwrap();
    assert_eq!(wire, Payload::Port(2));

    let mut remote: Callback<fn(i32, i32) -> i32> = Callback::import(wire).unwrap();
    assert_eq!(remote.conduit(), Some(PortId(2)));

    let envelope = match remote.call((6i32, 7i32), PortId(30)).unwrap() {
        Invocation::Remote(envelope) => envelope,
        other => panic!("not sent: {:?}", other),
    };
    let (arguments, reply) = match owner.on_message(Payload::List(duplicate_all(envelope.fields()))) {
        CallbackReaction::Invoke { arguments, reply } => (arguments, reply),
        other => panic!("not invoked: {:?}", other),
    };
    let (a, b) = <(i32, i32)>::take(arguments).unwrap();
    let answer = respond(function(a, b), reply).unwrap();
    assert_eq!(answer.port, PortId(30));
    assert_eq!(answer.data, result(Payload::Int(42)));
    let resolved: Option<Result<i32, Error>> = remote.receive(answer.port, Ok(answer.data));
    assert_eq!(resolved, Some(Ok(42)));

    let goodbye = remote.release().unwrap();
    assert_eq!(
        owner.on_message(Payload::List(duplicate_all(goodbye.fields()))),
        CallbackReaction::Release
    );
    assert!(!owner.is_anchored());
    assert_eq!(remote.release(), None);

    assert_eq!(
        remote.call((1i32, 1i32), PortId(31)),
        Err(Error::CallbackFailed { error: "callback proxy was released".to_string() })
    );
    assert_eq!(
        owner.on_message(invoke(vec![Payload::Int(1), Payload::Int(1)], 31)),
        CallbackReaction::Reject { reply_to: Some(PortId(31)), error: released_error() }
    );
}

#[test]
fn a_local_callback_is_called_on_the_spot() {
    let mut callback = Callback::from_local(|a: i32| a + 1);
    assert_eq!(callback.conduit(), None);
    match callback.call((4i32,), PortId(1)).unwrap() {
        Invocation::Local((a,)) => assert_eq!(callback.function().unwrap()(a), 5),
        other => panic!("not local: {:?}", other),
    }
    assert_eq!(callback.release(), None);
}

#[test]
fn a_proxy_cannot_be_marshalled() {
    let remote: Callback<fn()> = Callback::import(Payload::Port(3)).unwrap();
    assert!(remote.function().is_none());
    assert_eq!(
        remote.export(PortId(4)).map(|(_, _, payload)| payload),
        Err(Error::SerializeFailed {
            type_label: "Callback".to_string(),
            error: "can't serialize callback without a local callback".to_string(),
        })
    );
}

#[test]
fn a_callback_is_a_channel_end_on_the_wire() {
    let imported: Result<Callback<fn()>, Error> = Callback::import(Payload::Int(3));
    assert_eq!(
        imported.map(|c| c.conduit()),
        Err(Error::DeserializeFailed {
            type_label: "Callback".to_string(),
            error: "payload is not a channel end".to_string(),
        })
    );
    assert!(<Callback<fn()> as Transfer>::transfer_marked());
}

#[derive(Debug, PartialEq)]
struct Counter(u32);

#[derive(Debug, PartialEq)]
struct CounterClient(PortId);

impl AsHandle<Counter> for Counter {
    type Client = CounterClient;

    fn into_client(port: PortId) -> CounterClient {
        CounterClient(port)
    }

    fn create_server(_local: Counter, _port: PortId) {}
}

#[test]
fn a_remote_handle_becomes_a_client() {
    let handle: Handle<Counter> = Handle::new_remote(PortId(6));
    assert_eq!(handle.try_into_client(), Ok(CounterClient(PortId(6))));
    let handle: Handle<Counter> = Handle::new_remote(PortId(6));
    assert_eq!(handle.into_remote_port(), Ok(PortId(6)));
}

#[test]
fn a_local_handle_has_no_client() {
    let no_remote = Error::CreationFailed {
        type_label: "Handle".to_string(),
        error: "tried to create a proxy from a handle without a remote port".to_string(),
    };
    assert_eq!(Handle::from(Counter(1)).try_into_client(), Err(no_remote));
    assert!(Handle::new_local(Counter(1)).into_remote_port().is_err());
    assert_eq!(Handle::from(Counter(1)).into_local(), Ok(Counter(1)));
}

#[test]
fn a_local_handle_is_sent_as_the_far_end_of_its_channel() {
    assert_eq!(Handle::from(Counter(1)).to_payload(PortId(1), PortId(2)), Ok(Payload::Port(2)));
    let remote: Handle<Counter> = Handle::new_remote(PortId(6));
    assert_eq!(
        remote.to_payload(PortId(1), PortId(2)),
        Err(Error::SerializeFailed {
            type_label: "Handle".to_string(),
            error: "local not set when trying to send".to_string(),
        })
    );
    assert!(<Handle<Counter> as Transfer>::transfer_marked());
}

#[test]
fn a_handle_arrives_as_a_remote_handle() {
    let handle = Handle::<Counter>::from_payload(Payload::Port(9)).unwrap();
    assert_eq!(handle.into_remote_port(), Ok(PortId(9)));
    assert_eq!(
        Handle::<Counter>::from_payload(text("port")).map(|h| h.into_remote_port()),
        Err(Error::DeserializeFailed {
            type_label: "Handle".to_string(),
            error: "failed to convert payload to a channel end for Handle".to_string(),
        })
    );
}
