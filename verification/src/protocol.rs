use vstd::prelude::*;
use crate::message::Message;
use crate::payload::{lemma_list_view, tag_of, text_is, values, Payload, Value};

verus! {

/// The operation name of the readiness exchange, in both directions.
pub open spec fn handshake_name() -> Seq<char> {
    "*handshake"@
}

/// The operation name by which a callback proxy asks for one invocation.
pub open spec fn invoke_name() -> Seq<char> {
    "invoke"@
}

/// The operation name by which a callback proxy gives up its callback.
pub open spec fn release_name() -> Seq<char> {
    "release"@
}

/// Whether a message is a handshake: a list that opens with the handshake's name.
pub open spec fn is_handshake(v: Value) -> bool {
    tag_of(v) == Some(handshake_name())
}

/// The fields of a message after its operation name.
pub open spec fn rest_of(v: Value) -> Seq<Value> {
    match v {
        Value::List(items) => if items.len() >= 1 {
            items.skip(1)
        } else {
            items
        },
        _ => Seq::empty(),
    }
}

/// The three operation names are different strings, and no handshake is an
/// invocation or a release.
pub proof fn lemma_names_differ()
    ensures
        handshake_name() != invoke_name(),
        handshake_name() != release_name(),
        invoke_name() != release_name(),
{
    reveal_strlit("*handshake");
    reveal_strlit("invoke");
    reveal_strlit("release");
    assert("*handshake"@.len() == 10);
    assert("invoke"@.len() == 6);
    assert("release"@.len() == 7);
}

/// The message that asks for, or acknowledges, readiness.
pub fn handshake() -> (m: Message)
    ensures
        m@.fields == seq![Value::Text(handshake_name())],
        m@.transfer == Seq::<Value>::empty(),
        is_handshake(Value::List(m@.fields)),
{
    Message::new("*handshake")
}

/// Takes a received message apart: its operation name and the fields after
/// it. A message that is no list, or does not open with a string, has none.
pub fn open_envelope(data: Payload) -> (r: Option<(String, Vec<Payload>)>)
    ensures
        match r {
            Some((name, rest)) => tag_of(data@) == Some(name@) && values(rest@) == rest_of(
                data@,
            ),
            None => tag_of(data@) is None,
        },
{
    match data {
        Payload::List(items) => {
            let mut items = items;
            proof {
                lemma_list_view(items);
            }
            let ghost before = items@;
            if items.len() == 0 {
                return None;
            }
            let first = items.remove(0);
            assert(first == before[0]);
            match first {
                Payload::Text(name) => {
                    assert(values(items@) =~= values(before).skip(1));
                    Some((name, items))
                },
                _ => None,
            }
        },
        _ => None,
    }
}

/// Whether a received message is a handshake.
pub fn check_handshake(data: &Payload) -> (yes: bool)
    ensures
        yes == is_handshake(data@),
{
    match data {
        Payload::List(items) => {
            proof {
                lemma_list_view(*items);
            }
            if items.len() == 0 {
                false
            } else {
                match &items[0] {
                    Payload::Text(name) => text_is(name, "*handshake"),
                    _ => false,
                }
            }
        },
        _ => false,
    }
}

} // verus!
