use vstd::prelude::*;

verus! {

/// What a payload is, mathematically: a finite tree of channel-native values.
pub enum Value {
    Null,
    Bool(bool),
    Int(i64),
    Text(Seq<char>),
    Port(u64),
    Native(u64),
    List(Seq<Value>),
}

/// A channel-native value: what one field of a message holds on the wire.
///
/// `Port` stands for one end of a duplex channel, named by the number that the
/// owner of the channels gave it. It is the only payload that has to be moved
/// to the receiving side instead of copied. `Native` stands for any other
/// value of the channel's own kind, which is carried along by the number its
/// owner gave it and never looked into.
#[derive(Debug, PartialEq, Eq)]
pub enum Payload {
    Null,
    Bool(bool),
    Int(i64),
    Text(String),
    Port(u64),
    Native(u64),
    List(Vec<Payload>),
}

impl Payload {
    /// The value that this payload holds.
    pub open spec fn value(&self) -> Value
        decreases self,
    {
        match self {
            Payload::Null => Value::Null,
            Payload::Bool(b) => Value::Bool(*b),
            Payload::Int(n) => Value::Int(*n),
            Payload::Text(s) => Value::Text(s@),
            Payload::Port(p) => Value::Port(*p),
            Payload::Native(n) => Value::Native(*n),
            Payload::List(items) => Value::List(
                Seq::new(
                    items@.len(),
                    |i: int|
                        if 0 <= i < items@.len() {
                            items[i].value()
                        } else {
                            Value::Null
                        },
                ),
            ),
        }
    }
}

impl View for Payload {
    type V = Value;

    open spec fn view(&self) -> Value {
        self.value()
    }
}

/// The values of a list of payloads, field by field.
pub open spec fn values(items: Seq<Payload>) -> Seq<Value> {
    Seq::new(items.len(), |i: int| items[i]@)
}

/// `values` of the fields of a list payload is what its view holds.
pub proof fn lemma_list_view(items: Vec<Payload>)
    ensures
        Payload::List(items)@ == Value::List(values(items@)),
{
    assert(Payload::List(items)@->List_0 =~= values(items@));
}

impl Payload {
    /// A second payload with the same value.
    pub fn duplicate(&self) -> (copy: Payload)
        ensures
            copy@ == self@,
        decreases self,
    {
        match self {
            Payload::Null => Payload::Null,
            Payload::Bool(b) => Payload::Bool(*b),
            Payload::Int(n) => Payload::Int(*n),
            Payload::Text(s) => Payload::Text(s.clone()),
            Payload::Port(p) => Payload::Port(*p),
            Payload::Native(n) => Payload::Native(*n),
            Payload::List(items) => {
                let copies = duplicate_all(items);
                proof {
                    lemma_list_view(*items);
                    lemma_list_view(copies);
                }
                Payload::List(copies)
            },
        }
    }
}

/// A second list with the same values in the same order.
pub fn duplicate_all(items: &Vec<Payload>) -> (copies: Vec<Payload>)
    ensures
        values(copies@) == values(items@),
    decreases items,
{
    let mut copies: Vec<Payload> = Vec::new();
    let mut i: usize = 0;
    while i < items.len()
        invariant
            i <= items.len(),
            copies.len() == i,
            forall|k: int| 0 <= k < i ==> copies[k]@ == items[k]@,
        decreases items.len() - i,
    {
        let copy = items[i].duplicate();
        copies.push(copy);
        i += 1;
    }
    assert(values(copies@) =~= values(items@));
    copies
}

/// The field of a list at position `i`, or the empty value past its end.
pub open spec fn field(items: Seq<Value>, i: int) -> Value {
    if 0 <= i < items.len() {
        items[i]
    } else {
        Value::Null
    }
}

/// The tag that a payload opens with, if it is a list that opens with a string.
pub open spec fn tag_of(v: Value) -> Option<Seq<char>> {
    match v {
        Value::List(items) => match field(items, 0) {
            Value::Text(tag) => Some(tag),
            _ => None,
        },
        _ => None,
    }
}

/// Whether a string is, character for character, the given text.
pub fn text_is(s: &String, text: &str) -> (same: bool)
    ensures
        same == (s@ == text@),
{
    let other = text.to_owned();
    *s == other
}

} // verus!
