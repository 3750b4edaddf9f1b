use combadge::error::Error;
use combadge::message::{Message, PostTuple};
use combadge::payload::{duplicate_all, text_is, Payload};
use combadge::post::{PortId, Post, Transfer, Unsupported};
use combadge::result::Result as Outcome;
use combadge::result::{split_tagged, tag_payload};

type Opaque = Unsupported<u8>;

fn text(s: &str) -> Payload {
    Payload::Text(s.to_string())
}

#[test]
fn round_trip_of_plain_values() {
    assert_eq!(bool::from_payload(true.to_payload().unwrap()), Ok(true));
    assert_eq!(bool::from_payload(false.to_payload().unwrap()), Ok(false));
    assert_eq!(i32::from_payload((-7i32).to_payload().unwrap()), Ok(-7));
    assert_eq!(i32::from_payload(i32::MIN.to_payload().unwrap()), Ok(i32::MIN));
    assert_eq!(i32::from_payload(i32::MAX.to_payload().unwrap()), Ok(i32::MAX));
    assert_eq!(u32::from_payload(u32::MAX.to_payload().unwrap()), Ok(u32::MAX));
    assert_eq!(i64::from_payload(i64::MIN.to_payload().unwrap()), Ok(i64::MIN));
    assert_eq!(String::from_payload("héllo".to_string().to_payload().unwrap()), Ok("héllo".to_string()));
    assert_eq!(<()>::from_payload(().to_payload().unwrap()), Ok(()));
    assert_eq!(PortId::from_payload(PortId(12).to_payload().unwrap()), Ok(PortId(12)));
}

#[test]
fn round_trip_of_a_payload_is_the_payload() {
    let payload = Payload::List(vec![Payload::Null, Payload::Int(1), text("x"), Payload::Port(3)]);
    let copy = payload.duplicate();
    assert_eq!(Payload::from_payload(payload.to_payload().unwrap()), Ok(copy));
}

#[test]
fn round_trip_of_tagged_outcomes() {
    let ok: Outcome<i32, String> = Outcome::Success(5);
    assert_eq!(Outcome::<i32, String>::from_payload(ok.to_payload().unwrap()), Ok(Outcome::Success(5)));
    let err: Outcome<i32, String> = Outcome::Failure("boom".to_string());
    assert_eq!(
        Outcome::<i32, String>::from_payload(err.to_payload().unwrap()),
        Ok(Outcome::Failure("boom".to_string()))
    );
    let nested: Outcome<Outcome<bool, ()>, i64> = Outcome::Success(Outcome::Failure(()));
    assert_eq!(
        Outcome::<Outcome<bool, ()>, i64>::from_payload(nested.to_payload().unwrap()),
        Ok(Outcome::Success(Outcome::Failure(())))
    );
}

#[test]
fn wire_form_of_plain_values() {
    assert_eq!(true.to_payload(), Ok(Payload::Bool(true)));
    assert_eq!(5i32.to_payload(), Ok(Payload::Int(5)));
    assert_eq!(4_000_000_000u32.to_payload(), Ok(Payload::Int(4_000_000_000)));
    assert_eq!("a".to_string().to_payload(), Ok(text("a")));
    assert_eq!(().to_payload(), Ok(Payload::Null));
    assert_eq!(PortId(9).to_payload(), Ok(Payload::Port(9)));
}

#[test]
fn wire_form_of_tagged_outcomes() {
    let ok: Outcome<i32, String> = Outcome::Success(5);
    assert_eq!(ok.to_payload(), Ok(Payload::List(vec![text("Ok"), Payload::Int(5)])));
    let err: Outcome<i32, String> = Outcome::Failure("boom".to_string());
    assert_eq!(err.to_payload(), Ok(Payload::List(vec![text("Err"), text("boom")])));
}

#[test]
fn numbers_out_of_range_are_refused() {
    let too_big = Payload::Int(i32::MAX as i64 + 1);
    assert_eq!(
        i32::from_payload(too_big),
        Err(Error::DeserializeFailed {
            type_label: "i32".to_string(),
            error: "number is out of range".to_string(),
        })
    );
    assert!(matches!(i32::from_payload(Payload::Int(i32::MIN as i64 - 1)), Err(Error::DeserializeFailed { .. })));
    assert!(matches!(u32::from_payload(Payload::Int(-1)), Err(Error::DeserializeFailed { .. })));
    assert!(matches!(u32::from_payload(Payload::Int(u32::MAX as i64 + 1)), Err(Error::DeserializeFailed { .. })));
    assert_eq!(u32::from_payload(Payload::Int(0)), Ok(0));
}

#[test]
fn payloads_of_another_kind_are_refused() {
    assert!(matches!(bool::from_payload(Payload::Int(1)), Err(Error::DeserializeFailed { .. })));
    assert!(matches!(i32::from_payload(text("1")), Err(Error::DeserializeFailed { .. })));
    assert!(matches!(i64::from_payload(Payload::Null), Err(Error::DeserializeFailed { .. })));
    assert!(matches!(String::from_payload(Payload::Bool(true)), Err(Error::DeserializeFailed { .. })));
    assert!(matches!(<()>::from_payload(Payload::Int(0)), Err(Error::DeserializeFailed { .. })));
    assert_eq!(
        PortId::from_payload(Payload::Int(3)),
        Err(Error::DeserializeFailed {
            type_label: "PortId".to_string(),
            error: "payload is not a channel end".to_string(),
        })
    );
}

#[test]
fn tagged_outcomes_with_a_bad_tag_are_refused() {
    let unexpected = Payload::List(vec![text("Maybe"), Payload::Int(1)]);
    assert_eq!(
        Outcome::<i32, String>::from_payload(unexpected),
        Err(Error::DeserializeFailed {
            type_label: "Result<i32, String>".to_string(),
            error: "found unexpected tag Maybe".to_string(),
        })
    );
    let no_tag = Payload::List(vec![Payload::Int(1), Payload::Int(1)]);
    assert_eq!(
        Outcome::<i32, String>::from_payload(no_tag),
        Err(Error::DeserializeFailed {
            type_label: "Result<i32, String>".to_string(),
            error: "failed to convert first field to string".to_string(),
        })
    );
    assert!(matches!(
        Outcome::<i32, String>::from_payload(Payload::List(vec![])),
        Err(Error::DeserializeFailed { .. })
    ));
    assert!(matches!(
        Outcome::<i32, String>::from_payload(text("Ok")),
        Err(Error::DeserializeFailed { .. })
    ));
}

#[test]
fn tagged_outcomes_decode_the_field_after_the_tag() {
    let wrong_body = Payload::List(vec![text("Ok"), text("five")]);
    assert_eq!(
        Outcome::<i32, String>::from_payload(wrong_body),
        Err(Error::DeserializeFailed {
            type_label: "i32".to_string(),
            error: "payload is not a number".to_string(),
        })
    );
    let missing_body = Payload::List(vec![text("Ok")]);
    assert_eq!(Outcome::<(), String>::from_payload(missing_body), Ok(Outcome::Success(())));
    let longer = Payload::List(vec![text("Err"), text("boom"), Payload::Int(1)]);
    assert_eq!(
        Outcome::<i32, String>::from_payload(longer),
        Ok(Outcome::Failure("boom".to_string()))
    );
}

#[test]
fn tagging_and_splitting() {
    let tagged = tag_payload("Ok", Payload::Int(5));
    assert_eq!(tagged, Payload::List(vec![text("Ok"), Payload::Int(5)]));
    assert_eq!(split_tagged(tagged), Some(("Ok".to_string(), Payload::Int(5))));
    assert_eq!(split_tagged(Payload::List(vec![text("Ok")])), Some(("Ok".to_string(), Payload::Null)));
    assert_eq!(split_tagged(Payload::List(vec![])), None);
    assert_eq!(split_tagged(Payload::Int(1)), None);
    assert_eq!(split_tagged(Payload::List(vec![Payload::Int(1), text("Ok")])), None);
    assert!(text_is(&"Ok".to_string(), "Ok"));
    assert!(!text_is(&"Ok".to_string(), "Err"));
}

#[test]
fn outcomes_convert_to_and_from_results() {
    let ok: Result<i32, String> = Ok(1);
    assert_eq!(Outcome::from(ok), Outcome::Success(1));
    let err: Result<i32, String> = Err("e".to_string());
    assert_eq!(Outcome::from(err), Outcome::Failure("e".to_string()));
    let back: Result<i32, String> = Outcome::Success(1).into();
    assert_eq!(back, Ok(1));
    let back: Result<i32, String> = Outcome::Failure("e".to_string()).into();
    assert_eq!(back, Err("e".to_string()));
}

#[test]
fn types_without_an_encoding_are_unsupported() {
    assert!(!Opaque::is_postable());
    assert!(bool::is_postable());
    assert!(Outcome::<i32, String>::is_postable());
    assert!(!Outcome::<i32, Opaque>::is_postable());
    assert!(!Outcome::<Opaque, i32>::is_postable());

    let value: Outcome<i32, Opaque> = Outcome::Success(1);
    assert_eq!(
        value.to_payload(),
        Err(Error::UnsupportedType { name: "Result<i32, Unsupported>".to_string() })
    );
    assert_eq!(
        Outcome::<i32, Opaque>::from_payload(Payload::List(vec![text("Ok"), Payload::Int(1)])),
        Err(Error::UnsupportedType { name: "Result<i32, Unsupported>".to_string() })
    );

    let mut message = Message::new("op");
    assert_eq!(message.post(Unsupported(0u8)), Err(Error::UnsupportedType { name: "Unsupported".to_string() }));
    assert_eq!(message.fields(), &vec![text("op")]);
}

#[test]
fn only_channel_ends_need_transfer() {
    assert!(PortId::transfer_marked());
    assert!(!bool::transfer_marked());
    assert!(!i32::transfer_marked());
    assert!(!u32::transfer_marked());
    assert!(!i64::transfer_marked());
    assert!(!String::transfer_marked());
    assert!(!<()>::transfer_marked());
    assert!(!Payload::transfer_marked());
    assert!(!Outcome::<PortId, i32>::transfer_marked());
}

#[test]
fn labels_of_types() {
    assert_eq!(bool::type_label(), "bool");
    assert_eq!(i32::type_label(), "i32");
    assert_eq!(u32::type_label(), "u32");
    assert_eq!(i64::type_label(), "i64");
    assert_eq!(String::type_label(), "String");
    assert_eq!(<()>::type_label(), "()");
    assert_eq!(PortId::type_label(), "PortId");
    assert_eq!(Payload::type_label(), "Payload");
    assert_eq!(Outcome::<Outcome<bool, ()>, String>::type_label(), "Result<Result<bool, ()>, String>");
}

#[test]
fn a_new_message_holds_its_name() {
    let message = Message::new("add");
    assert_eq!(message.fields(), &vec![text("add")]);
    assert!(message.transfer_list().is_empty());
}

#[test]
fn posting_appends_in_order_and_marks_transfers() {
    let mut message = Message::new("op");
    message.post(1i32).unwrap();
    message.post(PortId(5)).unwrap();
    message.post("x".to_string()).unwrap();
    message.post(PortId(6)).unwrap();
    assert_eq!(
        message.fields(),
        &vec![text("op"), Payload::Int(1), Payload::Port(5), text("x"), Payload::Port(6)]
    );
    assert_eq!(message.transfer_list(), &vec![Payload::Port(5), Payload::Port(6)]);
}

#[test]
fn tuples_are_posted_component_by_component() {
    let mut one = Message::new("f");
    one.post_tuple((1i32,)).unwrap();
    assert_eq!(one.fields(), &vec![text("f"), Payload::Int(1)]);

    let mut seven = Message::new("g");
    seven
        .post_tuple((1i32, true, "s".to_string(), PortId(2), (), 3u32, -4i64))
        .unwrap();
    assert_eq!(
        seven.fields(),
        &vec![
            text("g"),
            Payload::Int(1),
            Payload::Bool(true),
            text("s"),
            Payload::Port(2),
            Payload::Null,
            Payload::Int(3),
            Payload::Int(-4),
        ]
    );
    assert_eq!(seven.transfer_list(), &vec![Payload::Port(2)]);
}

#[test]
fn tuples_of_each_size() {
    let mut m = Message::new("n");
    m.post_tuple((1i32, 2i32)).unwrap();
    m.post_tuple((3i32, 4i32, 5i32)).unwrap();
    m.post_tuple((6i32, 7i32, 8i32, 9i32)).unwrap();
    m.post_tuple((10i32, 11i32, 12i32, 13i32, 14i32)).unwrap();
    m.post_tuple((15i32, 16i32, 17i32, 18i32, 19i32, 20i32)).unwrap();
    let mut expected = vec![text("n")];
    for n in 1..=20 {
        expected.push(Payload::Int(n));
    }
    assert_eq!(m.fields(), &expected);
}

#[test]
fn a_tuple_stops_at_the_first_component_that_fails() {
    let mut message = Message::new("h");
    let r = message.post_tuple((1i32, Unsupported(0u8), 3i32));
    assert_eq!(r, Err(Error::UnsupportedType { name: "Unsupported".to_string() }));
    assert_eq!(message.fields(), &vec![text("h"), Payload::Int(1)]);
}

#[test]
fn send_hands_fields_and_transfers_to_the_sender() {
    let mut message = Message::new("op");
    message.post_tuple((1i32, PortId(8))).unwrap();
    let mut seen: Option<(Vec<Payload>, Vec<Payload>)> = None;
    let r = message.send(|fields, transfer| {
        seen = Some((duplicate_all(fields), duplicate_all(transfer)));
        Ok(())
    });
    assert_eq!(r, Ok(()));
    assert_eq!(
        seen,
        Some((vec![text("op"), Payload::Int(1), Payload::Port(8)], vec![Payload::Port(8)]))
    );
}

#[test]
fn send_returns_what_the_sender_returned() {
    let message = Message::new("op");
    let r = message.send(|_, _| Err(Error::PostFailed { error: "closed".to_string() }));
    assert_eq!(r, Err(Error::PostFailed { error: "closed".to_string() }));
}

#[test]
fn duplicates_are_equal() {
    let payload = Payload::List(vec![
        Payload::Null,
        Payload::Bool(true),
        Payload::Int(-1),
        text("t"),
        Payload::Port(2),
        Payload::List(vec![Payload::List(vec![]), Payload::Int(7)]),
    ]);
    assert_eq!(payload.duplicate(), payload);
    let items = vec![Payload::Int(1), text("b")];
    assert_eq!(duplicate_all(&items), items);
}
