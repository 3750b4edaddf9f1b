use vstd::prelude::*;
use vstd::std_specs::convert::FromSpecImpl;
use crate::error::{Error, ErrorView};
use crate::payload::{field, lemma_list_view, tag_of, text_is, Payload, Value};
use crate::post::{decode_error, undecodable, unsupported, Lossless, Post, Transfer};

verus! {

/// The outcome of an operation that can itself fail, as it crosses the
/// boundary: the call succeeded either way, and this says what the
/// application returned.
#[derive(Debug, PartialEq, Eq)]
pub enum Result<T, E> {
    Success(T),
    Failure(E),
}

impl<T, E> From<core::result::Result<T, E>> for Result<T, E> {
    fn from(value: core::result::Result<T, E>) -> (r: Self) {
        match value {
            Ok(value) => Result::Success(value),
            Err(error) => Result::Failure(error),
        }
    }
}

impl<T, E> FromSpecImpl<core::result::Result<T, E>> for Result<T, E> {
    open spec fn obeys_from_spec() -> bool {
        true
    }

    open spec fn from_spec(value: core::result::Result<T, E>) -> Self {
        match value {
            Ok(value) => Result::Success(value),
            Err(error) => Result::Failure(error),
        }
    }
}

impl<T, E> From<Result<T, E>> for core::result::Result<T, E> {
    fn from(value: Result<T, E>) -> (r: Self) {
        match value {
            Result::Success(value) => Ok(value),
            Result::Failure(error) => Err(error),
        }
    }
}

impl<T, E> FromSpecImpl<Result<T, E>> for core::result::Result<T, E> {
    open spec fn obeys_from_spec() -> bool {
        true
    }

    open spec fn from_spec(value: Result<T, E>) -> Self {
        match value {
            Result::Success(value) => Ok(value),
            Result::Failure(error) => Err(error),
        }
    }
}

/// The tag of a successful outcome on the wire.
pub open spec fn ok_tag() -> Seq<char> {
    "Ok"@
}

/// The tag of a failed outcome on the wire.
pub open spec fn err_tag() -> Seq<char> {
    "Err"@
}

/// The two-element tagged form of an outcome.
pub open spec fn tagged(tag: Seq<char>, body: Value) -> Value {
    Value::List(seq![Value::Text(tag), body])
}

/// The field that follows the tag.
pub open spec fn body_of(v: Value) -> Value {
    match v {
        Value::List(items) => field(items, 1),
        _ => Value::Null,
    }
}

/// The two tags differ.
pub proof fn lemma_tags_differ()
    ensures
        ok_tag() != err_tag(),
        ok_tag().len() == 2,
        err_tag().len() == 3,
{
    reveal_strlit("Ok");
    reveal_strlit("Err");
    assert("Ok"@.len() == 2);
    assert("Err"@.len() == 3);
}

impl<T: Post, E: Post> Post for Result<T, E> {
    type Model = core::result::Result<T::Model, E::Model>;

    open spec fn model(&self) -> Self::Model {
        match self {
            Result::Success(value) => Ok(value.model()),
            Result::Failure(error) => Err(error.model()),
        }
    }

    open spec fn postable() -> bool {
        T::postable() && E::postable()
    }

    open spec fn label() -> Seq<char> {
        "Result<"@ + T::label() + ", "@ + E::label() + ">"@
    }

    open spec fn sendable(m: Self::Model) -> bool {
        match m {
            Ok(value) => T::sendable(value),
            Err(error) => E::sendable(error),
        }
    }

    open spec fn wire(m: Self::Model) -> Value {
        match m {
            Ok(value) => tagged(ok_tag(), T::wire(value)),
            Err(error) => tagged(err_tag(), E::wire(error)),
        }
    }

    open spec fn parse(v: Value) -> Option<Self::Model> {
        match tag_of(v) {
            Some(tag) => if tag == ok_tag() {
                match T::parse(body_of(v)) {
                    Some(value) => Some(Ok(value)),
                    None => None,
                }
            } else if tag == err_tag() {
                match E::parse(body_of(v)) {
                    Some(error) => Some(Err(error)),
                    None => None,
                }
            } else {
                None
            },
            None => None,
        }
    }

    open spec fn rejection(m: Self::Model) -> ErrorView {
        match m {
            Ok(value) => T::rejection(value),
            Err(error) => E::rejection(error),
        }
    }

    open spec fn refusal(v: Value) -> ErrorView {
        match tag_of(v) {
            Some(tag) => if tag == ok_tag() {
                T::refusal(body_of(v))
            } else if tag == err_tag() {
                E::refusal(body_of(v))
            } else {
                undecodable(Self::label(), "found unexpected tag "@ + tag)
            },
            None => undecodable(Self::label(), "failed to convert first field to string"@),
        }
    }

    fn type_label() -> (name: String) {
        let mut name = "Result<".to_owned();
        let first = T::type_label();
        let second = E::type_label();
        name.append(first.as_str());
        name.append(", ");
        name.append(second.as_str());
        name.append(">");
        name
    }

    fn is_postable() -> (yes: bool) {
        T::is_postable() && E::is_postable()
    }

    fn to_payload(self) -> (r: core::result::Result<Payload, Error>) {
        if !Self::is_postable() {
            return Err(unsupported(Self::type_label()));
        }
        match self {
            Result::Success(value) => match value.to_payload() {
                Ok(body) => Ok(tag_payload("Ok", body)),
                Err(e) => Err(e),
            },
            Result::Failure(error) => match error.to_payload() {
                Ok(body) => Ok(tag_payload("Err", body)),
                Err(e) => Err(e),
            },
        }
    }

    fn from_payload(payload: Payload) -> (r: core::result::Result<Self, Error>) {
        if !Self::is_postable() {
            return Err(unsupported(Self::type_label()));
        }
        let ghost whole = payload@;
        match split_tagged(payload) {
            Some((tag, body)) => {
                if text_is(&tag, "Ok") {
                    match T::from_payload(body) {
                        Ok(value) => Ok(Result::Success(value)),
                        Err(e) => Err(e),
                    }
                } else if text_is(&tag, "Err") {
                    match E::from_payload(body) {
                        Ok(error) => Ok(Result::Failure(error)),
                        Err(e) => Err(e),
                    }
                } else {
                    let mut reason = "found unexpected tag ".to_owned();
                    reason.append(tag.as_str());
                    Err(decode_error(Self::type_label(), reason.as_str()))
                }
            },
            None => Err(
                decode_error(Self::type_label(), "failed to convert first field to string"),
            ),
        }
    }
}

impl<T: Lossless, E: Lossless> Lossless for Result<T, E> {
    proof fn round_trip(m: Self::Model) {
        lemma_tags_differ();
        match m {
            Ok(value) => {
                T::round_trip(value);
            },
            Err(error) => {
                E::round_trip(error);
            },
        }
    }
}

impl<T, E> Transfer for Result<T, E> {
    open spec fn needs_transfer() -> bool {
        false
    }

    fn transfer_marked() -> (yes: bool) {
        false
    }
}

/// The list payload made of a tag and one more field.
pub fn tag_payload(tag: &str, body: Payload) -> (p: Payload)
    ensures
        p@ == tagged(tag@, body@),
{
    let mut items: Vec<Payload> = Vec::new();
    items.push(Payload::Text(tag.to_owned()));
    items.push(body);
    proof {
        lemma_list_view(items);
        assert(crate::payload::values(items@) =~= seq![Value::Text(tag@), body@]);
    }
    Payload::List(items)
}

/// Takes a tagged payload apart: the tag it opens with and the field after
/// it, which is the empty payload where the list ends with the tag.
pub fn split_tagged(payload: Payload) -> (r: Option<(String, Payload)>)
    ensures
        match r {
            Some((tag, body)) => tag_of(payload@) == Some(tag@) && body@ == body_of(payload@),
            None => tag_of(payload@) is None,
        },
{
    match payload {
        Payload::List(items) => {
            let mut items = items;
            proof {
                lemma_list_view(items);
            }
            let ghost before = items@;
            if items.len() == 0 {
                return None;
            }
            let body = if items.len() >= 2 {
                items.remove(1)
            } else {
                Payload::Null
            };
            let first = items.remove(0);
            assert(first == before[0]);
            match first {
                Payload::Text(tag) => Some((tag, body)),
                _ => None,
            }
        },
        _ => None,
    }
}

} // verus!
