use vstd::prelude::*;
use crate::error::{Error, ErrorView};
use crate::payload::{Payload, Value};

verus! {

/// A type whose values can cross the boundary as payloads.
///
/// A type is postable when it has an encoding at all: a native one, which
/// hands the channel's own value through untouched, or a structural one. A
/// type without either still implements the trait, says so in `postable`,
/// and is refused with `UnsupportedType` in both directions.
pub trait Post: Sized {
    /// The mathematical value that an item of this type stands for.
    type Model;

    spec fn model(&self) -> Self::Model;

    /// Whether the type has an encoding.
    spec fn postable() -> bool;

    /// The name that errors give this type.
    spec fn label() -> Seq<char>;

    /// Whether this very value can be marshalled.
    spec fn sendable(m: Self::Model) -> bool;

    /// The payload that carries `m`.
    spec fn wire(m: Self::Model) -> Value;

    /// The value that a payload carries, if it carries one of this type.
    spec fn parse(v: Value) -> Option<Self::Model>;

    /// The error for a value that cannot be marshalled.
    spec fn rejection(m: Self::Model) -> ErrorView;

    /// The error for a payload that carries no value of this type.
    spec fn refusal(v: Value) -> ErrorView;

    fn type_label() -> (name: String)
        ensures
            name@ == Self::label(),
    ;

    fn is_postable() -> (yes: bool)
        ensures
            yes == Self::postable(),
    ;

    /// Marshals a value.
    fn to_payload(self) -> (r: Result<Payload, Error>)
        ensures
            match r {
                Ok(p) => Self::postable() && Self::sendable(self.model()) && p@ == Self::wire(
                    self.model(),
                ),
                Err(e) => if !Self::postable() {
                    e@ == (ErrorView::UnsupportedType { name: Self::label() })
                } else {
                    !Self::sendable(self.model()) && e@ == Self::rejection(self.model())
                },
            },
    ;

    /// Unmarshals a payload.
    fn from_payload(payload: Payload) -> (r: Result<Self, Error>)
        ensures
            match r {
                Ok(x) => Self::postable() && Self::parse(payload@) == Some(x.model()),
                Err(e) => if !Self::postable() {
                    e@ == (ErrorView::UnsupportedType { name: Self::label() })
                } else {
                    Self::parse(payload@) is None && e@ == Self::refusal(payload@)
                },
            },
    ;
}

/// What `from_payload` owes for a payload `v`: the value `parse(v)` exactly
/// when the type is postable and the payload holds one, `UnsupportedType` with
/// the type's name when the type is not postable, and the type's `refusal`
/// when the payload is at fault.
pub open spec fn unmarshalled<T: Post>(v: Value, r: Result<T, Error>) -> bool {
    match r {
        Ok(x) => T::postable() && T::parse(v) == Some(x.model()),
        Err(e) => if !T::postable() {
            e@ == (ErrorView::UnsupportedType { name: T::label() })
        } else {
            T::parse(v) is None && e@ == T::refusal(v)
        },
    }
}

/// A postable type whose payloads give back the value that went in.
///
/// Values that stand for a resource on the other side (a handle, a callback)
/// come back as a proxy, not as themselves, and so are not lossless.
pub trait Lossless: Post {
    /// Unmarshalling what was marshalled yields the value again.
    proof fn round_trip(m: Self::Model)
        requires
            Self::postable(),
            Self::sendable(m),
        ensures
            Self::parse(Self::wire(m)) == Some(m),
    ;
}

/// Sends a value through its own encoding and back: marshals it, and
/// unmarshals the payload again. For a lossless type the value that comes
/// back stands for the same as the one that went in.
pub fn round_trip<T: Lossless>(value: T) -> (r: Result<T, Error>)
    ensures
        T::postable() && T::sendable(value.model()) ==> (r matches Ok(back) && back.model()
            == value.model()),
        !T::postable() ==> (r matches Err(e) && e@ == (ErrorView::UnsupportedType {
            name: T::label(),
        })),
        T::postable() && !T::sendable(value.model()) ==> (r matches Err(e) && e@
            == T::rejection(value.model())),
{
    proof {
        if T::postable() && T::sendable(value.model()) {
            T::round_trip(value.model());
        }
    }
    match value.to_payload() {
        Ok(payload) => T::from_payload(payload),
        Err(e) => Err(e),
    }
}

/// Says per type, not per value, whether its payload has to be moved to the
/// receiver instead of copied.
pub trait Transfer {
    spec fn needs_transfer() -> bool;

    fn transfer_marked() -> (yes: bool)
        ensures
            yes == Self::needs_transfer(),
    ;
}

/// The error that stands for a value of a type whose values can all be
/// marshalled: no value is ever rejected with it.
pub open spec fn never_rejected(label: Seq<char>) -> ErrorView {
    ErrorView::SerializeFailed { type_label: label, error: Seq::empty() }
}

/// The error for a payload that holds no value of the type `label`, with the
/// reason why.
pub open spec fn undecodable(label: Seq<char>, reason: Seq<char>) -> ErrorView {
    ErrorView::DeserializeFailed { type_label: label, error: reason }
}

/// The error for a payload that does not hold a value of the type `label`.
pub fn decode_error(label: String, reason: &str) -> (e: Error)
    ensures
        e@ == undecodable(label@, reason@),
{
    Error::DeserializeFailed { type_label: label, error: reason.to_owned() }
}

/// The error for a type that has no encoding.
pub fn unsupported(label: String) -> (e: Error)
    ensures
        e@ == (ErrorView::UnsupportedType { name: label@ }),
{
    Error::UnsupportedType { name: label }
}

/// One end of a duplex channel, named by its number.
#[derive(Debug, Clone, Copy, PartialEq, Eq, Structural)]
pub struct PortId(pub u64);

impl Post for PortId {
    type Model = u64;

    open spec fn model(&self) -> u64 {
        self.0
    }

    open spec fn postable() -> bool {
        true
    }

    open spec fn label() -> Seq<char> {
        "PortId"@
    }

    open spec fn sendable(m: u64) -> bool {
        true
    }

    open spec fn wire(m: u64) -> Value {
        Value::Port(m)
    }

    open spec fn parse(v: Value) -> Option<u64> {
        match v {
            Value::Port(id) => Some(id),
            _ => None,
        }
    }

    open spec fn rejection(m: u64) -> ErrorView {
        never_rejected(Self::label())
    }

    open spec fn refusal(v: Value) -> ErrorView {
        undecodable(Self::label(), "payload is not a channel end"@)
    }

    fn type_label() -> (name: String) {
        "PortId".to_owned()
    }

    fn is_postable() -> (yes: bool) {
        true
    }

    fn to_payload(self) -> (r: Result<Payload, Error>) {
        Ok(Payload::Port(self.0))
    }

    fn from_payload(payload: Payload) -> (r: Result<Self, Error>) {
        match payload {
            Payload::Port(id) => Ok(PortId(id)),
            _ => Err(decode_error(Self::type_label(), "payload is not a channel end")),
        }
    }
}

impl Lossless for PortId {
    proof fn round_trip(m: u64) {
    }
}

impl Transfer for PortId {
    open spec fn needs_transfer() -> bool {
        true
    }

    fn transfer_marked() -> (yes: bool) {
        true
    }
}

impl Post for Payload {
    type Model = Value;

    open spec fn model(&self) -> Value {
        self@
    }

    open spec fn postable() -> bool {
        true
    }

    open spec fn label() -> Seq<char> {
        "Payload"@
    }

    open spec fn sendable(m: Value) -> bool {
        true
    }

    open spec fn wire(m: Value) -> Value {
        m
    }

    open spec fn parse(v: Value) -> Option<Value> {
        Some(v)
    }

    open spec fn rejection(m: Value) -> ErrorView {
        never_rejected(Self::label())
    }

    open spec fn refusal(v: Value) -> ErrorView {
        undecodable(Self::label(), Seq::empty())
    }

    fn type_label() -> (name: String) {
        "Payload".to_owned()
    }

    fn is_postable() -> (yes: bool) {
        true
    }

    fn to_payload(self) -> (r: Result<Payload, Error>) {
        Ok(self)
    }

    fn from_payload(payload: Payload) -> (r: Result<Self, Error>) {
        Ok(payload)
    }
}

impl Lossless for Payload {
    proof fn round_trip(m: Value) {
    }
}

impl Transfer for Payload {
    open spec fn needs_transfer() -> bool {
        false
    }

    fn transfer_marked() -> (yes: bool) {
        false
    }
}

impl Post for () {
    type Model = ();

    open spec fn model(&self) -> () {
        ()
    }

    open spec fn postable() -> bool {
        true
    }

    open spec fn label() -> Seq<char> {
        "()"@
    }

    open spec fn sendable(m: ()) -> bool {
        true
    }

    open spec fn wire(m: ()) -> Value {
        Value::Null
    }

    open spec fn parse(v: Value) -> Option<()> {
        match v {
            Value::Null => Some(()),
            _ => None,
        }
    }

    open spec fn rejection(m: ()) -> ErrorView {
        never_rejected(Self::label())
    }

    open spec fn refusal(v: Value) -> ErrorView {
        undecodable(Self::label(), "payload is not empty"@)
    }

    fn type_label() -> (name: String) {
        "()".to_owned()
    }

    fn is_postable() -> (yes: bool) {
        true
    }

    fn to_payload(self) -> (r: Result<Payload, Error>) {
        Ok(Payload::Null)
    }

    fn from_payload(payload: Payload) -> (r: Result<Self, Error>) {
        match payload {
            Payload::Null => Ok(()),
            _ => Err(decode_error(Self::type_label(), "payload is not empty")),
        }
    }
}

impl Lossless for () {
    proof fn round_trip(m: ()) {
    }
}

impl Transfer for () {
    open spec fn needs_transfer() -> bool {
        false
    }

    fn transfer_marked() -> (yes: bool) {
        false
    }
}

impl Post for bool {
    type Model = bool;

    open spec fn model(&self) -> bool {
        *self
    }

    open spec fn postable() -> bool {
        true
    }

    open spec fn label() -> Seq<char> {
        "bool"@
    }

    open spec fn sendable(m: bool) -> bool {
        true
    }

    open spec fn wire(m: bool) -> Value {
        Value::Bool(m)
    }

    open spec fn parse(v: Value) -> Option<bool> {
        match v {
            Value::Bool(b) => Some(b),
            _ => None,
        }
    }

    open spec fn rejection(m: bool) -> ErrorView {
        never_rejected(Self::label())
    }

    open spec fn refusal(v: Value) -> ErrorView {
        undecodable(Self::label(), "payload is not a boolean"@)
    }

    fn type_label() -> (name: String) {
        "bool".to_owned()
    }

    fn is_postable() -> (yes: bool) {
        true
    }

    fn to_payload(self) -> (r: Result<Payload, Error>) {
        Ok(Payload::Bool(self))
    }

    fn from_payload(payload: Payload) -> (r: Result<Self, Error>) {
        match payload {
            Payload::Bool(b) => Ok(b),
            _ => Err(decode_error(Self::type_label(), "payload is not a boolean")),
        }
    }
}

impl Lossless for bool {
    proof fn round_trip(m: bool) {
    }
}

impl Transfer for bool {
    open spec fn needs_transfer() -> bool {
        false
    }

    fn transfer_marked() -> (yes: bool) {
        false
    }
}

impl Post for String {
    type Model = Seq<char>;

    open spec fn model(&self) -> Seq<char> {
        self@
    }

    open spec fn postable() -> bool {
        true
    }

    open spec fn label() -> Seq<char> {
        "String"@
    }

    open spec fn sendable(m: Seq<char>) -> bool {
        true
    }

    open spec fn wire(m: Seq<char>) -> Value {
        Value::Text(m)
    }

    open spec fn parse(v: Value) -> Option<Seq<char>> {
        match v {
            Value::Text(s) => Some(s),
            _ => None,
        }
    }

    open spec fn rejection(m: Seq<char>) -> ErrorView {
        never_rejected(Self::label())
    }

    open spec fn refusal(v: Value) -> ErrorView {
        undecodable(Self::label(), "payload is not a string"@)
    }

    fn type_label() -> (name: String) {
        "String".to_owned()
    }

    fn is_postable() -> (yes: bool) {
        true
    }

    fn to_payload(self) -> (r: Result<Payload, Error>) {
        Ok(Payload::Text(self))
    }

    fn from_payload(payload: Payload) -> (r: Result<Self, Error>) {
        match payload {
            Payload::Text(s) => Ok(s),
            _ => Err(decode_error(Self::type_label(), "payload is not a string")),
        }
    }
}

impl Lossless for String {
    proof fn round_trip(m: Seq<char>) {
    }
}

impl Transfer for String {
    open spec fn needs_transfer() -> bool {
        false
    }

    fn transfer_marked() -> (yes: bool) {
        false
    }
}

impl Post for i32 {
    type Model = i32;

    open spec fn model(&self) -> i32 {
        *self
    }

    open spec fn postable() -> bool {
        true
    }

    open spec fn label() -> Seq<char> {
        "i32"@
    }

    open spec fn sendable(m: i32) -> bool {
        true
    }

    open spec fn wire(m: i32) -> Value {
        Value::Int(m as i64)
    }

    open spec fn parse(v: Value) -> Option<i32> {
        match v {
            Value::Int(n) => if i32::MIN <= n <= i32::MAX {
                Some(n as i32)
            } else {
                None
            },
            _ => None,
        }
    }

    open spec fn rejection(m: i32) -> ErrorView {
        never_rejected(Self::label())
    }

    open spec fn refusal(v: Value) -> ErrorView {
        match v {
            Value::Int(n) => undecodable(Self::label(), "number is out of range"@),
            _ => undecodable(Self::label(), "payload is not a number"@),
        }
    }

    fn type_label() -> (name: String) {
        "i32".to_owned()
    }

    fn is_postable() -> (yes: bool) {
        true
    }

    fn to_payload(self) -> (r: Result<Payload, Error>) {
        Ok(Payload::Int(self as i64))
    }

    fn from_payload(payload: Payload) -> (r: Result<Self, Error>) {
        match payload {
            Payload::Int(n) => {
                if i32::MIN as i64 <= n && n <= i32::MAX as i64 {
                    Ok(n as i32)
                } else {
                    Err(decode_error(Self::type_label(), "number is out of range"))
                }
            },
            _ => Err(decode_error(Self::type_label(), "payload is not a number")),
        }
    }
}

impl Lossless for i32 {
    proof fn round_trip(m: i32) {
    }
}

impl Transfer for i32 {
    open spec fn needs_transfer() -> bool {
        false
    }

    fn transfer_marked() -> (yes: bool) {
        false
    }
}

impl Post for u32 {
    type Model = u32;

    open spec fn model(&self) -> u32 {
        *self
    }

    open spec fn postable() -> bool {
        true
    }

    open spec fn label() -> Seq<char> {
        "u32"@
    }

    open spec fn sendable(m: u32) -> bool {
        true
    }

    open spec fn wire(m: u32) -> Value {
        Value::Int(m as i64)
    }

    open spec fn parse(v: Value) -> Option<u32> {
        match v {
            Value::Int(n) => if u32::MIN <= n <= u32::MAX {
                Some(n as u32)
            } else {
                None
            },
            _ => None,
        }
    }

    open spec fn rejection(m: u32) -> ErrorView {
        never_rejected(Self::label())
    }

    open spec fn refusal(v: Value) -> ErrorView {
        match v {
            Value::Int(n) => undecodable(Self::label(), "number is out of range"@),
            _ => undecodable(Self::label(), "payload is not a number"@),
        }
    }

    fn type_label() -> (name: String) {
        "u32".to_owned()
    }

    fn is_postable() -> (yes: bool) {
        true
    }

    fn to_payload(self) -> (r: Result<Payload, Error>) {
        Ok(Payload::Int(self as i64))
    }

    fn from_payload(payload: Payload) -> (r: Result<Self, Error>) {
        match payload {
            Payload::Int(n) => {
                if u32::MIN as i64 <= n && n <= u32::MAX as i64 {
                    Ok(n as u32)
                } else {
                    Err(decode_error(Self::type_label(), "number is out of range"))
                }
            },
            _ => Err(decode_error(Self::type_label(), "payload is not a number")),
        }
    }
}

impl Lossless for u32 {
    proof fn round_trip(m: u32) {
    }
}

impl Transfer for u32 {
    open spec fn needs_transfer() -> bool {
        false
    }

    fn transfer_marked() -> (yes: bool) {
        false
    }
}

impl Post for i64 {
    type Model = i64;

    open spec fn model(&self) -> i64 {
        *self
    }

    open spec fn postable() -> bool {
        true
    }

    open spec fn label() -> Seq<char> {
        "i64"@
    }

    open spec fn sendable(m: i64) -> bool {
        true
    }

    open spec fn wire(m: i64) -> Value {
        Value::Int(m as i64)
    }

    open spec fn parse(v: Value) -> Option<i64> {
        match v {
            Value::Int(n) => if i64::MIN <= n <= i64::MAX {
                Some(n as i64)
            } else {
                None
            },
            _ => None,
        }
    }

    open spec fn rejection(m: i64) -> ErrorView {
        never_rejected(Self::label())
    }

    open spec fn refusal(v: Value) -> ErrorView {
        match v {
            Value::Int(n) => undecodable(Self::label(), "number is out of range"@),
            _ => undecodable(Self::label(), "payload is not a number"@),
        }
    }

    fn type_label() -> (name: String) {
        "i64".to_owned()
    }

    fn is_postable() -> (yes: bool) {
        true
    }

    fn to_payload(self) -> (r: Result<Payload, Error>) {
        Ok(Payload::Int(self as i64))
    }

    fn from_payload(payload: Payload) -> (r: Result<Self, Error>) {
        match payload {
            Payload::Int(n) => {
                if i64::MIN as i64 <= n && n <= i64::MAX as i64 {
                    Ok(n as i64)
                } else {
                    Err(decode_error(Self::type_label(), "number is out of range"))
                }
            },
            _ => Err(decode_error(Self::type_label(), "payload is not a number")),
        }
    }
}

impl Lossless for i64 {
    proof fn round_trip(m: i64) {
    }
}

impl Transfer for i64 {
    open spec fn needs_transfer() -> bool {
        false
    }

    fn transfer_marked() -> (yes: bool) {
        false
    }
}

/// A value of a type that has neither a native nor a structural encoding.
/// It stands where an interface names such a type, and is refused with
/// `UnsupportedType` whenever it is about to cross the boundary.
#[derive(Debug, PartialEq, Eq)]
pub struct Unsupported<T>(pub T);

impl<T> Post for Unsupported<T> {
    type Model = T;

    open spec fn model(&self) -> T {
        self.0
    }

    open spec fn postable() -> bool {
        false
    }

    open spec fn label() -> Seq<char> {
        "Unsupported"@
    }

    open spec fn sendable(m: T) -> bool {
        false
    }

    open spec fn wire(m: T) -> Value {
        Value::Null
    }

    open spec fn parse(v: Value) -> Option<T> {
        None
    }

    open spec fn rejection(m: T) -> ErrorView {
        never_rejected(Self::label())
    }

    open spec fn refusal(v: Value) -> ErrorView {
        undecodable(Self::label(), Seq::empty())
    }

    fn type_label() -> (name: String) {
        "Unsupported".to_owned()
    }

    fn is_postable() -> (yes: bool) {
        false
    }

    fn to_payload(self) -> (r: Result<Payload, Error>) {
        Err(unsupported(Self::type_label()))
    }

    fn from_payload(payload: Payload) -> (r: Result<Self, Error>) {
        Err(unsupported(Self::type_label()))
    }
}

impl<T> Transfer for Unsupported<T> {
    open spec fn needs_transfer() -> bool {
        false
    }

    fn transfer_marked() -> (yes: bool) {
        false
    }
}

} // verus!
