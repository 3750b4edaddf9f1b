use vstd::prelude::*;
use crate::error::{Error, ErrorView};
use crate::payload::{lemma_list_view, text_is, values, Payload, Value};

verus! {

/// The word that a refusal opens with on the wire.
pub open spec fn refusal_name() -> Seq<char> {
    "*error"@
}

/// A result on the wire: the list that holds the result's payload and
/// nothing else.
pub open spec fn result_wire(v: Value) -> Value {
    Value::List(seq![v])
}

/// The number that stands for the kind of an error on the wire.
pub open spec fn error_code(e: ErrorView) -> i64 {
    match e {
        ErrorView::CallbackFailed { .. } => 0,
        ErrorView::ClientUnavailable => 1,
        ErrorView::CreationFailed { .. } => 2,
        ErrorView::DeserializeFailed { .. } => 3,
        ErrorView::PostFailed { .. } => 4,
        ErrorView::ReceiveFailed { .. } => 5,
        ErrorView::SerializeFailed { .. } => 6,
        ErrorView::UnknownProcedure { .. } => 7,
        ErrorView::UnsupportedType { .. } => 8,
    }
}

/// The first text of an error: its type's label or the name it is about,
/// and otherwise its words.
pub open spec fn error_head(e: ErrorView) -> Seq<char> {
    match e {
        ErrorView::CallbackFailed { error } => error,
        ErrorView::ClientUnavailable => Seq::empty(),
        ErrorView::CreationFailed { type_label, error } => type_label,
        ErrorView::DeserializeFailed { type_label, error } => type_label,
        ErrorView::PostFailed { error } => error,
        ErrorView::ReceiveFailed { error } => error,
        ErrorView::SerializeFailed { type_label, error } => type_label,
        ErrorView::UnknownProcedure { name } => name,
        ErrorView::UnsupportedType { name } => name,
    }
}

/// The second text of an error: its words, where a label comes first.
pub open spec fn error_tail(e: ErrorView) -> Seq<char> {
    match e {
        ErrorView::CreationFailed { type_label, error } => error,
        ErrorView::DeserializeFailed { type_label, error } => error,
        ErrorView::SerializeFailed { type_label, error } => error,
        _ => Seq::empty(),
    }
}

/// The error of a kind with its two texts, if there is such a kind.
pub open spec fn error_from(code: i64, head: Seq<char>, tail: Seq<char>) -> Option<ErrorView> {
    if code == 0 {
        Some(ErrorView::CallbackFailed { error: head })
    } else if code == 1 {
        Some(ErrorView::ClientUnavailable)
    } else if code == 2 {
        Some(ErrorView::CreationFailed { type_label: head, error: tail })
    } else if code == 3 {
        Some(ErrorView::DeserializeFailed { type_label: head, error: tail })
    } else if code == 4 {
        Some(ErrorView::PostFailed { error: head })
    } else if code == 5 {
        Some(ErrorView::ReceiveFailed { error: head })
    } else if code == 6 {
        Some(ErrorView::SerializeFailed { type_label: head, error: tail })
    } else if code == 7 {
        Some(ErrorView::UnknownProcedure { name: head })
    } else if code == 8 {
        Some(ErrorView::UnsupportedType { name: head })
    } else {
        None
    }
}

/// A refusal on the wire: a list of four fields, which are the refusal's
/// name, the kind of the error and its two texts.
pub open spec fn refusal_wire(e: ErrorView) -> Value {
    Value::List(
        seq![
            Value::Text(refusal_name()),
            Value::Int(error_code(e)),
            Value::Text(error_head(e)),
            Value::Text(error_tail(e)),
        ],
    )
}

/// What arrived on a reply channel, with payloads as values.
pub enum ReplyKind {
    /// The result of the call, still marshalled.
    Outcome(Value),
    /// The error with which the other side refused the call.
    Refusal(ErrorView),
    /// Neither.
    Malformed,
}

/// What a payload on a reply channel is: a list of one field is a result, a
/// list of the four fields of a refusal is a refusal, and anything else is
/// malformed. Nothing is both.
pub open spec fn reply_kind(v: Value) -> ReplyKind {
    match v {
        Value::List(items) => if items.len() == 1 {
            ReplyKind::Outcome(items[0])
        } else if items.len() == 4 && items[0] == Value::Text(refusal_name()) {
            match (items[1], items[2], items[3]) {
                (Value::Int(code), Value::Text(head), Value::Text(tail)) => match error_from(
                    code,
                    head,
                    tail,
                ) {
                    Some(e) => ReplyKind::Refusal(e),
                    None => ReplyKind::Malformed,
                },
                _ => ReplyKind::Malformed,
            }
        } else {
            ReplyKind::Malformed
        },
        _ => ReplyKind::Malformed,
    }
}

/// The error for a payload on a reply channel that is neither a result nor
/// a refusal.
pub open spec fn malformed_reply() -> ErrorView {
    ErrorView::DeserializeFailed {
        type_label: "reply"@,
        error: "reply is neither a result nor a refusal"@,
    }
}

/// A refusal is read back as the error that it was made of, whatever the
/// error, and a result as the payload that it was made of; no payload is
/// both a result and a refusal.
pub proof fn law_replies_are_told_apart(e: ErrorView, v: Value)
    ensures
        reply_kind(refusal_wire(e)) == ReplyKind::Refusal(e),
        reply_kind(result_wire(v)) == ReplyKind::Outcome(v),
        refusal_wire(e) != result_wire(v),
{
    assert(error_from(error_code(e), error_head(e), error_tail(e)) == Some(e));
    let fields = refusal_wire(e)->List_0;
    assert(fields.len() == 4);
    assert(fields[0] == Value::Text(refusal_name()));
    assert(result_wire(v)->List_0.len() == 1);
}

/// What arrived on a reply channel.
#[derive(Debug, PartialEq, Eq)]
pub enum Arrival {
    /// The result of the call, still marshalled.
    Outcome(Payload),
    /// The error with which the other side refused the call.
    Refusal(Error),
    /// Neither.
    Malformed,
}

impl View for Arrival {
    type V = ReplyKind;

    open spec fn view(&self) -> ReplyKind {
        match self {
            Arrival::Outcome(payload) => ReplyKind::Outcome(payload@),
            Arrival::Refusal(error) => ReplyKind::Refusal(error@),
            Arrival::Malformed => ReplyKind::Malformed,
        }
    }
}

/// Wraps the payload of a result for the wire.
pub fn wrap_result(data: Payload) -> (wrapped: Payload)
    ensures
        wrapped@ == result_wire(data@),
{
    let mut items: Vec<Payload> = Vec::new();
    items.push(data);
    proof {
        lemma_list_view(items);
        assert(values(items@) =~= seq![data@]);
    }
    Payload::List(items)
}

/// The kind of an error and its two texts.
fn error_parts(error: &Error) -> (parts: (i64, String, String))
    ensures
        parts.0 == error_code(error@),
        parts.1@ == error_head(error@),
        parts.2@ == error_tail(error@),
{
    match error {
        Error::CallbackFailed { error } => (0, error.clone(), String::new()),
        Error::ClientUnavailable => (1, String::new(), String::new()),
        Error::CreationFailed { type_label, error } => (2, type_label.clone(), error.clone()),
        Error::DeserializeFailed { type_label, error } => (3, type_label.clone(), error.clone()),
        Error::PostFailed { error } => (4, error.clone(), String::new()),
        Error::ReceiveFailed { error } => (5, error.clone(), String::new()),
        Error::SerializeFailed { type_label, error } => (6, type_label.clone(), error.clone()),
        Error::UnknownProcedure { name } => (7, name.clone(), String::new()),
        Error::UnsupportedType { name } => (8, name.clone(), String::new()),
    }
}

/// The error of a kind with its two texts.
fn error_of(code: i64, head: String, tail: String) -> (r: Option<Error>)
    ensures
        match r {
            Some(e) => error_from(code, head@, tail@) == Some(e@),
            None => error_from(code, head@, tail@) is None,
        },
{
    if code == 0 {
        Some(Error::CallbackFailed { error: head })
    } else if code == 1 {
        Some(Error::ClientUnavailable)
    } else if code == 2 {
        Some(Error::CreationFailed { type_label: head, error: tail })
    } else if code == 3 {
        Some(Error::DeserializeFailed { type_label: head, error: tail })
    } else if code == 4 {
        Some(Error::PostFailed { error: head })
    } else if code == 5 {
        Some(Error::ReceiveFailed { error: head })
    } else if code == 6 {
        Some(Error::SerializeFailed { type_label: head, error: tail })
    } else if code == 7 {
        Some(Error::UnknownProcedure { name: head })
    } else if code == 8 {
        Some(Error::UnsupportedType { name: head })
    } else {
        None
    }
}

/// Puts an error on the wire as a refusal.
pub fn wrap_refusal(error: &Error) -> (wrapped: Payload)
    ensures
        wrapped@ == refusal_wire(error@),
{
    let (code, head, tail) = error_parts(error);
    let mut items: Vec<Payload> = Vec::new();
    items.push(Payload::Text("*error".to_owned()));
    items.push(Payload::Int(code));
    items.push(Payload::Text(head));
    items.push(Payload::Text(tail));
    proof {
        lemma_list_view(items);
        assert(values(items@) =~= refusal_wire(error@)->List_0);
    }
    Payload::List(items)
}

/// Reads what arrived on a reply channel.
pub fn open_reply(payload: Payload) -> (arrival: Arrival)
    ensures
        arrival@ == reply_kind(payload@),
{
    match payload {
        Payload::List(items) => {
            let mut items = items;
            proof {
                lemma_list_view(items);
            }
            let ghost before = values(items@);
            if items.len() == 1 {
                let only = items.remove(0);
                Arrival::Outcome(only)
            } else if items.len() == 4 {
                let tail = items.remove(3);
                let head = items.remove(2);
                let code = items.remove(1);
                let name = items.remove(0);
                assert(name@ == before[0] && code@ == before[1] && head@ == before[2] && tail@
                    == before[3]);
                match name {
                    Payload::Text(word) => {
                        if !text_is(&word, "*error") {
                            return Arrival::Malformed;
                        }
                    },
                    _ => {
                        return Arrival::Malformed;
                    },
                }
                match code {
                    Payload::Int(code) => match head {
                        Payload::Text(head) => match tail {
                            Payload::Text(tail) => match error_of(code, head, tail) {
                                Some(error) => Arrival::Refusal(error),
                                None => Arrival::Malformed,
                            },
                            _ => Arrival::Malformed,
                        },
                        _ => Arrival::Malformed,
                    },
                    _ => Arrival::Malformed,
                }
            } else {
                Arrival::Malformed
            }
        },
        _ => Arrival::Malformed,
    }
}

} // verus!
