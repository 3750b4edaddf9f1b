use vstd::prelude::*;
use crate::error::{Error, ErrorView};
use crate::payload::{duplicate_all, lemma_list_view, values, Payload, Value};
use crate::post::{Post, Transfer};

verus! {

/// What a message holds: its fields in order, the first of which is the
/// operation's name, and the fields that have to be moved to the receiver.
pub struct MessageView {
    pub fields: Seq<Value>,
    pub transfer: Seq<Value>,
}

/// What keeps a value from crossing the boundary, if anything does.
pub enum Fault {
    /// Nothing: the value has a payload, or the payload a value.
    Nothing,
    /// This error.
    Failed(ErrorView),
}

/// The fault of marshalling the value `m` of type `T`: none where the type
/// is postable and the value sendable, `UnsupportedType` with the type's name
/// where the type is not postable, and otherwise the type's `rejection`.
pub open spec fn fault_of<T: Post>(m: T::Model) -> Fault {
    if !T::postable() {
        Fault::Failed(ErrorView::UnsupportedType { name: T::label() })
    } else if !T::sendable(m) {
        Fault::Failed(T::rejection(m))
    } else {
        Fault::Nothing
    }
}

/// The fault of unmarshalling the payload `v` as a value of type `T`: none
/// where the type is postable and the payload holds a value of it,
/// `UnsupportedType` with the type's name where the type is not postable, and
/// otherwise the type's `refusal`.
pub open spec fn decode_fault<T: Post>(v: Value) -> Fault {
    if !T::postable() {
        Fault::Failed(ErrorView::UnsupportedType { name: T::label() })
    } else if T::parse(v) is None {
        Fault::Failed(T::refusal(v))
    } else {
        Fault::Nothing
    }
}

/// Whether `r` is the result that a fault calls for: success without one,
/// and with one failure with exactly that error.
pub open spec fn reports<R>(fault: Fault, r: Result<R, Error>) -> bool {
    match fault {
        Fault::Nothing => r is Ok,
        Fault::Failed(error) => r matches Err(e) && e@ == error,
    }
}

/// A message with one more field, which is also put on the transfer list
/// where `moved` says so.
pub open spec fn appended(m: MessageView, field: Value, moved: bool) -> MessageView {
    MessageView {
        fields: m.fields.push(field),
        transfer: if moved {
            m.transfer.push(field)
        } else {
            m.transfer
        },
    }
}

/// What holds of every message: it opens with its operation's name, and
/// whatever is on its transfer list is one of its fields.
pub open spec fn well_formed(m: MessageView) -> bool {
    &&& m.fields.len() >= 1
    &&& m.fields[0] is Text
    &&& forall|j: int| 0 <= j < m.transfer.len() ==> m.fields.contains(#[trigger] m.transfer[j])
}

/// A well-formed message stays well-formed when a field is appended, moved
/// or not: it still opens with its name, and its transfer list still holds
/// fields of its own only.
pub proof fn law_appending_keeps_well_formed(m: MessageView, field: Value, moved: bool)
    requires
        well_formed(m),
    ensures
        well_formed(appended(m, field, moved)),
        appended(m, field, moved).fields[0] == m.fields[0],
{
    let after = appended(m, field, moved);
    assert(after.fields[after.fields.len() - 1] == field);
    assert forall|j: int| 0 <= j < after.transfer.len() implies after.fields.contains(
        #[trigger] after.transfer[j],
    ) by {
        if j < m.transfer.len() {
            let k = choose|k: int| 0 <= k < m.fields.len() && m.fields[k] == m.transfer[j];
            assert(after.fields[k] == m.transfer[j]);
        }
    }
}

/// One step of packing arguments: while no fault has occurred, the next
/// value is appended, or its fault recorded and the message left as it is;
/// after a fault nothing changes any more.
pub open spec fn packed<T: Post + Transfer>(state: (MessageView, Fault), m: T::Model) -> (
    MessageView,
    Fault,
) {
    if state.1 is Nothing {
        if fault_of::<T>(m) is Nothing {
            (appended(state.0, T::wire(m), T::needs_transfer()), Fault::Nothing)
        } else {
            (state.0, fault_of::<T>(m))
        }
    } else {
        state
    }
}

/// Whether the second message is the first with more appended: what the
/// first holds is in front of the second, fields and transfer list alike,
/// and the second is well-formed if the first is.
pub open spec fn extends(a: MessageView, b: MessageView) -> bool {
    &&& a.fields.is_prefix_of(b.fields)
    &&& a.transfer.is_prefix_of(b.transfer)
    &&& well_formed(a) ==> well_formed(b)
}

/// One step of packing only appends.
pub proof fn lemma_packed_extends<T: Post + Transfer>(state: (MessageView, Fault), m: T::Model)
    ensures
        extends(state.0, packed::<T>(state, m).0),
{
    if well_formed(state.0) {
        law_packing_keeps_well_formed::<T>(state, m);
    }
}

/// Appending after appending is appending.
pub proof fn lemma_extends_twice(a: MessageView, b: MessageView, c: MessageView)
    requires
        extends(a, b),
        extends(b, c),
    ensures
        extends(a, c),
{
}

/// Packing keeps a message well-formed and never touches what it held
/// before: whatever the outcome, the fields that were there are still there,
/// in their places.
pub proof fn law_packing_keeps_well_formed<T: Post + Transfer>(
    state: (MessageView, Fault),
    m: T::Model,
)
    requires
        well_formed(state.0),
    ensures
        well_formed(packed::<T>(state, m).0),
        state.0.fields.is_prefix_of(packed::<T>(state, m).0.fields),
        state.0.transfer.is_prefix_of(packed::<T>(state, m).0.transfer),
{
    law_appending_keeps_well_formed(state.0, T::wire(m), T::needs_transfer());
}

/// The assembled body of one call or reply: an ordered, append-only list of
/// marshalled fields that opens with the operation's name, and the list of
/// those fields that have to be moved.
#[derive(Debug, PartialEq, Eq)]
pub struct Message {
    message: Vec<Payload>,
    transfer: Vec<Payload>,
}

impl View for Message {
    type V = MessageView;

    closed spec fn view(&self) -> MessageView {
        MessageView { fields: values(self.message@), transfer: values(self.transfer@) }
    }
}

impl Message {
    /// A message for the operation `name`, with no other field yet.
    pub fn new(name: &str) -> (m: Message)
        ensures
            m@.fields == seq![Value::Text(name@)],
            m@.transfer == Seq::<Value>::empty(),
            well_formed(m@),
    {
        let mut message: Vec<Payload> = Vec::new();
        message.push(Payload::Text(name.to_owned()));
        let transfer: Vec<Payload> = Vec::new();
        assert(values(message@) =~= seq![Value::Text(name@)]);
        assert(values(transfer@) =~= Seq::<Value>::empty());
        Message { message, transfer }
    }

    /// Marshals `value` and appends it as the next field; where its type asks
    /// for transfer, the same payload is put on the transfer list too. A value
    /// that cannot be marshalled leaves the message as it was.
    pub fn post<T: Post + Transfer>(&mut self, value: T) -> (r: Result<(), Error>)
        ensures
            reports(fault_of::<T>(value.model()), r),
            (final(self)@, fault_of::<T>(value.model())) == packed::<T>(
                (old(self)@, Fault::Nothing),
                value.model(),
            ),
    {
        let ghost before = self@;
        let ghost m = value.model();
        match value.to_payload() {
            Ok(payload) => {
                if T::transfer_marked() {
                    let twin = payload.duplicate();
                    self.transfer.push(twin);
                }
                self.message.push(payload);
                proof {
                    assert(self@.fields =~= before.fields.push(T::wire(m)));
                    if T::needs_transfer() {
                        assert(self@.transfer =~= before.transfer.push(T::wire(m)));
                    } else {
                        assert(self@.transfer =~= before.transfer);
                    }
                }
                Ok(())
            },
            Err(e) => Err(e),
        }
    }

    /// Hands the fields and the transfer list to `sender`, once, and returns
    /// what it returned. The message is used up.
    pub fn send<F>(self, sender: F) -> (r: Result<(), Error>) where
        F: FnOnce(&Vec<Payload>, &Vec<Payload>) -> Result<(), Error>,

        requires
            forall|fields: &Vec<Payload>, transfer: &Vec<Payload>|
                values(fields@) == self@.fields && values(transfer@) == self@.transfer
                    ==> #[trigger] sender.requires((fields, transfer)),
        ensures
            exists|fields: &Vec<Payload>, transfer: &Vec<Payload>|
                values(fields@) == self@.fields && values(transfer@) == self@.transfer
                    && #[trigger] sender.ensures((fields, transfer), r),
    {
        sender(&self.message, &self.transfer)
    }

    /// The message as it goes on the wire: the list of its fields.
    pub fn body(&self) -> (body: Payload)
        ensures
            body@ == Value::List(self@.fields),
    {
        let fields = duplicate_all(&self.message);
        proof {
            lemma_list_view(fields);
        }
        Payload::List(fields)
    }

    /// The fields, in order.
    pub fn fields(&self) -> (fields: &Vec<Payload>)
        ensures
            values(fields@) == self@.fields,
    {
        &self.message
    }

    /// The fields that have to be moved, in the order in which they were posted.
    pub fn transfer_list(&self) -> (transfer: &Vec<Payload>)
        ensures
            values(transfer@) == self@.transfer,
    {
        &self.transfer
    }
}

/// Packing of an argument tuple: one `post` per component, in the order of
/// declaration, which stops at the first component that cannot be marshalled.
pub trait PostTuple<T>: View<V = MessageView> {
    /// The message and the fault after the whole tuple was packed.
    spec fn packed_all(m: MessageView, tuple: T) -> (MessageView, Fault);

    /// Packing a tuple only appends to the message.
    proof fn packing_appends(m: MessageView, tuple: T)
        ensures
            extends(m, Self::packed_all(m, tuple).0),
    ;

    fn post_tuple(&mut self, tuple: T) -> (r: Result<(), Error>)
        ensures
            final(self)@ == Self::packed_all(old(self)@, tuple).0,
            reports(Self::packed_all(old(self)@, tuple).1, r),
    ;
}

impl<A: Post + Transfer> PostTuple<(A,)> for Message {
    open spec fn packed_all(m: MessageView, tuple: (A,)) -> (MessageView, Fault) {
        packed::<A>(
            (m, Fault::Nothing),
            tuple.0.model(),
        )
    }

    proof fn packing_appends(m: MessageView, tuple: (A,)) {
        let s0 = (m, Fault::Nothing);
        let s1 = packed::<A>(s0, tuple.0.model());
        lemma_packed_extends::<A>(s0, tuple.0.model());
    }

    fn post_tuple(&mut self, tuple: (A,)) -> (r: Result<(), Error>) {
        let (a,) = tuple;
        self.post(a)
    }
}

impl<A: Post + Transfer, B: Post + Transfer> PostTuple<(A, B,)> for Message {
    open spec fn packed_all(m: MessageView, tuple: (A, B,)) -> (MessageView, Fault) {
        packed::<B>(
            packed::<A>(
            (m, Fault::Nothing),
            tuple.0.model(),
        ),
            tuple.1.model(),
        )
    }

    proof fn packing_appends(m: MessageView, tuple: (A, B,)) {
        let s0 = (m, Fault::Nothing);
        let s1 = packed::<A>(s0, tuple.0.model());
        lemma_packed_extends::<A>(s0, tuple.0.model());
        let s2 = packed::<B>(s1, tuple.1.model());
        lemma_packed_extends::<B>(s1, tuple.1.model());
        lemma_extends_twice(s0.0, s1.0, s2.0);
    }

    fn post_tuple(&mut self, tuple: (A, B,)) -> (r: Result<(), Error>) {
        let (a, b,) = tuple;
        match self.post(a) {
            Ok(()) => {},
            Err(e) => {
                return Err(e);
            },
        }
        self.post(b)
    }
}

impl<A: Post + Transfer, B: Post + Transfer, C: Post + Transfer> PostTuple<(A, B, C,)> for Message {
    open spec fn packed_all(m: MessageView, tuple: (A, B, C,)) -> (MessageView, Fault) {
        packed::<C>(
            packed::<B>(
            packed::<A>(
            (m, Fault::Nothing),
            tuple.0.model(),
        ),
            tuple.1.model(),
        ),
            tuple.2.model(),
        )
    }

    proof fn packing_appends(m: MessageView, tuple: (A, B, C,)) {
        let s0 = (m, Fault::Nothing);
        let s1 = packed::<A>(s0, tuple.0.model());
        lemma_packed_extends::<A>(s0, tuple.0.model());
        let s2 = packed::<B>(s1, tuple.1.model());
        lemma_packed_extends::<B>(s1, tuple.1.model());
        lemma_extends_twice(s0.0, s1.0, s2.0);
        let s3 = packed::<C>(s2, tuple.2.model());
        lemma_packed_extends::<C>(s2, tuple.2.model());
        lemma_extends_twice(s0.0, s2.0, s3.0);
    }

    fn post_tuple(&mut self, tuple: (A, B, C,)) -> (r: Result<(), Error>) {
        let (a, b, c,) = tuple;
        match self.post(a) {
            Ok(()) => {},
            Err(e) => {
                return Err(e);
            },
        }
        match self.post(b) {
            Ok(()) => {},
            Err(e) => {
                return Err(e);
            },
        }
        self.post(c)
    }
}

impl<A: Post + Transfer, B: Post + Transfer, C: Post + Transfer, D: Post + Transfer> PostTuple<(A, B, C, D,)> for Message {
    open spec fn packed_all(m: MessageView, tuple: (A, B, C, D,)) -> (MessageView, Fault) {
        packed::<D>(
            packed::<C>(
            packed::<B>(
            packed::<A>(
            (m, Fault::Nothing),
            tuple.0.model(),
        ),
            tuple.1.model(),
        ),
            tuple.2.model(),
        ),
            tuple.3.model(),
        )
    }

    proof fn packing_appends(m: MessageView, tuple: (A, B, C, D,)) {
        let s0 = (m, Fault::Nothing);
        let s1 = packed::<A>(s0, tuple.0.model());
        lemma_packed_extends::<A>(s0, tuple.0.model());
        let s2 = packed::<B>(s1, tuple.1.model());
        lemma_packed_extends::<B>(s1, tuple.1.model());
        lemma_extends_twice(s0.0, s1.0, s2.0);
        let s3 = packed::<C>(s2, tuple.2.model());
        lemma_packed_extends::<C>(s2, tuple.2.model());
        lemma_extends_twice(s0.0, s2.0, s3.0);
        let s4 = packed::<D>(s3, tuple.3.model());
        lemma_packed_extends::<D>(s3, tuple.3.model());
        lemma_extends_twice(s0.0, s3.0, s4.0);
    }

    fn post_tuple(&mut self, tuple: (A, B, C, D,)) -> (r: Result<(), Error>) {
        let (a, b, c, d,) = tuple;
        match self.post(a) {
            Ok(()) => {},
            Err(e) => {
                return Err(e);
            },
        }
        match self.post(b) {
            Ok(()) => {},
            Err(e) => {
                return Err(e);
            },
        }
        match self.post(c) {
            Ok(()) => {},
            Err(e) => {
                return Err(e);
            },
        }
        self.post(d)
    }
}

impl<A: Post + Transfer, B: Post + Transfer, C: Post + Transfer, D: Post + Transfer, E: Post + Transfer> PostTuple<(A, B, C, D, E,)> for Message {
    open spec fn packed_all(m: MessageView, tuple: (A, B, C, D, E,)) -> (MessageView, Fault) {
        packed::<E>(
            packed::<D>(
            packed::<C>(
            packed::<B>(
            packed::<A>(
            (m, Fault::Nothing),
            tuple.0.model(),
        ),
            tuple.1.model(),
        ),
            tuple.2.model(),
        ),
            tuple.3.model(),
        ),
            tuple.4.model(),
        )
    }

    proof fn packing_appends(m: MessageView, tuple: (A, B, C, D, E,)) {
        let s0 = (m, Fault::Nothing);
        let s1 = packed::<A>(s0, tuple.0.model());
        lemma_packed_extends::<A>(s0, tuple.0.model());
        let s2 = packed::<B>(s1, tuple.1.model());
        lemma_packed_extends::<B>(s1, tuple.1.model());
        lemma_extends_twice(s0.0, s1.0, s2.0);
        let s3 = packed::<C>(s2, tuple.2.model());
        lemma_packed_extends::<C>(s2, tuple.2.model());
        lemma_extends_twice(s0.0, s2.0, s3.0);
        let s4 = packed::<D>(s3, tuple.3.model());
        lemma_packed_extends::<D>(s3, tuple.3.model());
        lemma_extends_twice(s0.0, s3.0, s4.0);
        let s5 = packed::<E>(s4, tuple.4.model());
        lemma_packed_extends::<E>(s4, tuple.4.model());
        lemma_extends_twice(s0.0, s4.0, s5.0);
    }

    fn post_tuple(&mut self, tuple: (A, B, C, D, E,)) -> (r: Result<(), Error>) {
        let (a, b, c, d, e,) = tuple;
        match self.post(a) {
            Ok(()) => {},
            Err(e) => {
                return Err(e);
            },
        }
        match self.post(b) {
            Ok(()) => {},
            Err(e) => {
                return Err(e);
            },
        }
        match self.post(c) {
            Ok(()) => {},
            Err(e) => {
                return Err(e);
            },
        }
        match self.post(d) {
            Ok(()) => {},
            Err(e) => {
                return Err(e);
            },
        }
        self.post(e)
    }
}

impl<A: Post + Transfer, B: Post + Transfer, C: Post + Transfer, D: Post + Transfer, E: Post + Transfer, F: Post + Transfer> PostTuple<(A, B, C, D, E, F,)> for Message {
    open spec fn packed_all(m: MessageView, tuple: (A, B, C, D, E, F,)) -> (MessageView, Fault) {
        packed::<F>(
            packed::<E>(
            packed::<D>(
            packed::<C>(
            packed::<B>(
            packed::<A>(
            (m, Fault::Nothing),
            tuple.0.model(),
        ),
            tuple.1.model(),
        ),
            tuple.2.model(),
        ),
            tuple.3.model(),
        ),
            tuple.4.model(),
        ),
            tuple.5.model(),
        )
    }

    proof fn packing_appends(m: MessageView, tuple: (A, B, C, D, E, F,)) {
        let s0 = (m, Fault::Nothing);
        let s1 = packed::<A>(s0, tuple.0.model());
        lemma_packed_extends::<A>(s0, tuple.0.model());
        let s2 = packed::<B>(s1, tuple.1.model());
        lemma_packed_extends::<B>(s1, tuple.1.model());
        lemma_extends_twice(s0.0, s1.0, s2.0);
        let s3 = packed::<C>(s2, tuple.2.model());
        lemma_packed_extends::<C>(s2, tuple.2.model());
        lemma_extends_twice(s0.0, s2.0, s3.0);
        let s4 = packed::<D>(s3, tuple.3.model());
        lemma_packed_extends::<D>(s3, tuple.3.model());
        lemma_extends_twice(s0.0, s3.0, s4.0);
        let s5 = packed::<E>(s4, tuple.4.model());
        lemma_packed_extends::<E>(s4, tuple.4.model());
        lemma_extends_twice(s0.0, s4.0, s5.0);
        let s6 = packed::<F>(s5, tuple.5.model());
        lemma_packed_extends::<F>(s5, tuple.5.model());
        lemma_extends_twice(s0.0, s5.0, s6.0);
    }

    fn post_tuple(&mut self, tuple: (A, B, C, D, E, F,)) -> (r: Result<(), Error>) {
        let (a, b, c, d, e, f,) = tuple;
        match self.post(a) {
            Ok(()) => {},
            Err(e) => {
                return Err(e);
            },
        }
        match self.post(b) {
            Ok(()) => {},
            Err(e) => {
                return Err(e);
            },
        }
        match self.post(c) {
            Ok(()) => {},
            Err(e) => {
                return Err(e);
            },
        }
        match self.post(d) {
            Ok(()) => {},
            Err(e) => {
                return Err(e);
            },
        }
        match self.post(e) {
            Ok(()) => {},
            Err(e) => {
                return Err(e);
            },
        }
        self.post(f)
    }
}

impl<A: Post + Transfer, B: Post + Transfer, C: Post + Transfer, D: Post + Transfer, E: Post + Transfer, F: Post + Transfer, G: Post + Transfer> PostTuple<(A, B, C, D, E, F, G,)> for Message {
    open spec fn packed_all(m: MessageView, tuple: (A, B, C, D, E, F, G,)) -> (MessageView, Fault) {
        packed::<G>(
            packed::<F>(
            packed::<E>(
            packed::<D>(
            packed::<C>(
            packed::<B>(
            packed::<A>(
            (m, Fault::Nothing),
            tuple.0.model(),
        ),
            tuple.1.model(),
        ),
            tuple.2.model(),
        ),
            tuple.3.model(),
        ),
            tuple.4.model(),
        ),
            tuple.5.model(),
        ),
            tuple.6.model(),
        )
    }

    proof fn packing_appends(m: MessageView, tuple: (A, B, C, D, E, F, G,)) {
        let s0 = (m, Fault::Nothing);
        let s1 = packed::<A>(s0, tuple.0.model());
        lemma_packed_extends::<A>(s0, tuple.0.model());
        let s2 = packed::<B>(s1, tuple.1.model());
        lemma_packed_extends::<B>(s1, tuple.1.model());
        lemma_extends_twice(s0.0, s1.0, s2.0);
        let s3 = packed::<C>(s2, tuple.2.model());
        lemma_packed_extends::<C>(s2, tuple.2.model());
        lemma_extends_twice(s0.0, s2.0, s3.0);
        let s4 = packed::<D>(s3, tuple.3.model());
        lemma_packed_extends::<D>(s3, tuple.3.model());
        lemma_extends_twice(s0.0, s3.0, s4.0);
        let s5 = packed::<E>(s4, tuple.4.model());
        lemma_packed_extends::<E>(s4, tuple.4.model());
        lemma_extends_twice(s0.0, s4.0, s5.0);
        let s6 = packed::<F>(s5, tuple.5.model());
        lemma_packed_extends::<F>(s5, tuple.5.model());
        lemma_extends_twice(s0.0, s5.0, s6.0);
        let s7 = packed::<G>(s6, tuple.6.model());
        lemma_packed_extends::<G>(s6, tuple.6.model());
        lemma_extends_twice(s0.0, s6.0, s7.0);
    }

    fn post_tuple(&mut self, tuple: (A, B, C, D, E, F, G,)) -> (r: Result<(), Error>) {
        let (a, b, c, d, e, f, g,) = tuple;
        match self.post(a) {
            Ok(()) => {},
            Err(e) => {
                return Err(e);
            },
        }
        match self.post(b) {
            Ok(()) => {},
            Err(e) => {
                return Err(e);
            },
        }
        match self.post(c) {
            Ok(()) => {},
            Err(e) => {
                return Err(e);
            },
        }
        match self.post(d) {
            Ok(()) => {},
            Err(e) => {
                return Err(e);
            },
        }
        match self.post(e) {
            Ok(()) => {},
            Err(e) => {
                return Err(e);
            },
        }
        match self.post(f) {
            Ok(()) => {},
            Err(e) => {
                return Err(e);
            },
        }
        self.post(g)
    }
}

} // verus!
