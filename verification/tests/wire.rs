use combadge::error::Error;
use combadge::message::{Message, PostTuple};
use combadge::payload::Payload;
use combadge::post::{round_trip, PortId, Post, Unsupported};
use combadge::result::Result as Outcome;

fn text(s: &str) -> Payload {
    Payload::Text(s.to_string())
}

#[test]
fn values_come_back_from_their_own_encoding() {
    assert_eq!(round_trip(5i32), Ok(5));
    assert_eq!(round_trip(u32::MAX), Ok(u32::MAX));
    assert_eq!(round_trip(i64::MIN), Ok(i64::MIN));
    assert_eq!(round_trip(true), Ok(true));
    assert_eq!(round_trip(()), Ok(()));
    assert_eq!(round_trip(String::new()), Ok(String::new()));
    assert_eq!(round_trip("boom".to_string()), Ok("boom".to_string()));
    assert_eq!(round_trip(PortId(u64::MAX)), Ok(PortId(u64::MAX)));
    assert_eq!(round_trip(Payload::Native(3)), Ok(Payload::Native(3)));
    let outcome: Outcome<i32, String> = Outcome::Failure("boom".to_string());
    assert_eq!(round_trip(outcome), Ok(Outcome::Failure("boom".to_string())));
}

#[test]
fn a_type_without_encoding_does_not_come_back() {
    let outcome: Outcome<i32, Outcome<bool, Payload>> = Outcome::Success(1);
    assert_eq!(round_trip(outcome), Ok(Outcome::Success(1)));
    assert_eq!(
        Unsupported(1u8).to_payload(),
        Err(Error::UnsupportedType { name: "Unsupported".to_string() })
    );
    assert_eq!(
        Unsupported::<u8>::from_payload(Payload::Int(1)),
        Err(Error::UnsupportedType { name: "Unsupported".to_string() })
    );
}

#[test]
fn native_values_are_carried_along_untouched() {
    let mut message = Message::new("draw");
    message.post_tuple((Payload::Native(7), 1i32)).unwrap();
    assert_eq!(message.fields(), &vec![text("draw"), Payload::Native(7), Payload::Int(1)]);
    assert!(message.transfer_list().is_empty());
    assert_eq!(Payload::Native(7).duplicate(), Payload::Native(7));
    assert!(matches!(i32::from_payload(Payload::Native(7)), Err(Error::DeserializeFailed { .. })));
}

#[test]
fn the_body_of_a_message_is_the_list_of_its_fields() {
    let mut message = Message::new("op");
    message.post_tuple((1i32, PortId(2))).unwrap();
    assert_eq!(message.body(), Payload::List(vec![text("op"), Payload::Int(1), Payload::Port(2)]));
    assert_eq!(Message::new("").body(), Payload::List(vec![text("")]));
}

#[test]
fn a_message_opens_with_its_name_and_transfers_its_own_fields() {
    let mut message = Message::new("op");
    message.post_tuple((PortId(1), "a".to_string(), PortId(2), PortId(1))).unwrap();
    assert_eq!(message.fields()[0], text("op"));
    for moved in message.transfer_list() {
        assert!(message.fields().contains(moved));
    }
    assert_eq!(
        message.transfer_list(),
        &vec![Payload::Port(1), Payload::Port(2), Payload::Port(1)]
    );
}
