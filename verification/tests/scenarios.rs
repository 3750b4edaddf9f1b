use combadge::arguments::Arguments;
use combadge::client::Client;
use combadge::error::Error;
use combadge::message::{Message, PostTuple};
use combadge::payload::{duplicate_all, Payload};
use combadge::post::PortId;
use combadge::result::Result as Outcome;
use combadge::server::{respond, Reaction, Server};

fn on_the_wire(message: &Message) -> Payload {
    Payload::List(duplicate_all(message.fields()))
}

fn ready_pair(names: &[&str]) -> (Client, Server) {
    let (mut client, hello) = Client::new();
    let (mut server, _announce) = Server::create(names.iter().map(|n| n.to_string()).collect());
    let acknowledgment = match server.on_message(on_the_wire(&hello)) {
        Reaction::Acknowledge(message) => message,
        other => panic!("handshake was not acknowledged: {:?}", other),
    };
    let released = client.on_message(&on_the_wire(&acknowledgment));
    assert!(released.is_empty());
    assert!(client.is_ready());
    (client, server)
}

#[test]
fn add_two_and_three() {
    let (mut client, mut server) = ready_pair(&["add"]);

    let mut message = Message::new("add");
    message.post_tuple((2i32, 3i32)).unwrap();
    assert!(client.wait_for_server(1));
    let envelope = client.send_message(message, PortId(40)).unwrap();
    assert_eq!(
        envelope.fields(),
        &vec![
            Payload::Text("add".to_string()),
            Payload::Int(2),
            Payload::Int(3),
            Payload::Port(40),
        ]
    );
    assert_eq!(envelope.transfer_list(), &vec![Payload::Port(40)]);
    assert_eq!(client.posted(PortId(40), Ok(())), Ok(()));

    let (procedure, arguments, reply) = match server.on_message(on_the_wire(&envelope)) {
        Reaction::Invoke { procedure, arguments, reply } => (procedure, arguments, reply),
        other => panic!("call was not dispatched: {:?}", other),
    };
    assert_eq!(procedure, 0);
    assert_eq!(reply, PortId(40));
    let (a, b) = <(i32, i32)>::take(arguments).unwrap();
    let answer = respond(a + b, reply).unwrap();
    server.dispatched();
    assert_eq!(answer.data, Payload::List(vec![Payload::Int(5)]));
    assert!(answer.transfer.is_empty());

    let resolved: Option<Result<i32, Error>> = client.receive(answer.port, Ok(answer.data));
    assert_eq!(resolved, Some(Ok(5)));
}

#[test]
fn fail_returns_an_application_error() {
    let (mut client, mut server) = ready_pair(&["fail"]);

    let message = Message::new("fail");
    let envelope = client.send_message(message, PortId(41)).unwrap();

    let (arguments, reply) = match server.on_message(on_the_wire(&envelope)) {
        Reaction::Invoke { procedure: 0, arguments, reply } => (arguments, reply),
        other => panic!("call was not dispatched: {:?}", other),
    };
    <()>::take(arguments).unwrap();
    let result: Result<i32, String> = Err("boom".to_string());
    let answer = respond(Outcome::from(result), reply).unwrap();
    server.dispatched();
    assert_eq!(
        answer.data,
        Payload::List(vec![Payload::List(vec![
            Payload::Text("Err".to_string()),
            Payload::Text("boom".to_string()),
        ])])
    );

    let resolved: Option<Result<Outcome<i32, String>, Error>> =
        client.receive(answer.port, Ok(answer.data));
    let resolved: Result<Result<i32, String>, Error> = resolved.unwrap().map(Into::into);
    assert_eq!(resolved, Ok(Err("boom".to_string())));
}
