use vstd::prelude::*;
use crate::error::Error;
use crate::message::{decode_fault, fault_of, packed, reports, Fault, MessageView};
use crate::payload::{field, values, Payload, Value};
use crate::post::{Lossless, Post, Transfer};

verus! {

/// The fields from position `k` on, or none where the list is shorter.
pub open spec fn rest(fields: Seq<Value>, k: int) -> Seq<Value> {
    if 0 <= k < fields.len() {
        fields.skip(k)
    } else {
        Seq::empty()
    }
}

/// The first of two faults that is one.
pub open spec fn first_fault(first: Fault, second: Fault) -> Fault {
    if first is Nothing {
        second
    } else {
        first
    }
}

/// Taking one field off the front moves every position up by one.
pub proof fn lemma_rest(fields: Seq<Value>, k: int)
    requires
        0 <= k,
    ensures
        field(rest(fields, k), 0) == field(fields, k),
        rest(rest(fields, k), 1) == rest(fields, k + 1),
        rest(fields, 0) == fields,
{
    assert(rest(rest(fields, k), 1) =~= rest(fields, k + 1));
    assert(rest(fields, 0) =~= fields);
}

/// Both sides count the arguments alike: the value that is packed as the
/// next field of a message is the value that is decoded at that position
/// among the fields after the name, and packing it moves none of the
/// arguments that were packed before it.
pub proof fn law_packed_argument_is_taken<T: Lossless + Transfer>(m: MessageView, x: T::Model)
    requires
        m.fields.len() >= 1,
        fault_of::<T>(x) is Nothing,
    ensures
        ({
            let after = packed::<T>((m, Fault::Nothing), x).0;
            let position = m.fields.len() - 1;
            &&& decode_fault::<T>(field(rest(after.fields, 1), position)) is Nothing
            &&& T::parse(field(rest(after.fields, 1), position)) == Some(x)
            &&& forall|j: int|
                0 <= j < position ==> field(rest(after.fields, 1), j) == field(
                    rest(m.fields, 1),
                    j,
                )
        }),
{
    T::round_trip(x);
    let after = packed::<T>((m, Fault::Nothing), x).0;
    let position = m.fields.len() - 1;
    assert(after.fields == m.fields.push(T::wire(x)));
    assert(rest(after.fields, 1)[position] == T::wire(x));
    assert forall|j: int| 0 <= j < position implies field(rest(after.fields, 1), j) == field(
        rest(m.fields, 1),
        j,
    ) by {
        assert(rest(after.fields, 1)[j] == after.fields[j + 1]);
        assert(rest(m.fields, 1)[j] == m.fields[j + 1]);
    }
}

/// Takes the first field off a list. Past the end of the list the field is
/// the empty payload, and the list stays empty.
pub fn shift(fields: &mut Vec<Payload>) -> (first: Payload)
    ensures
        first@ == field(values(old(fields)@), 0),
        values(final(fields)@) == rest(values(old(fields)@), 1),
{
    if fields.len() == 0 {
        assert(values(fields@) =~= rest(values(fields@), 1));
        Payload::Null
    } else {
        let ghost before = fields@;
        let first = fields.remove(0);
        assert(values(fields@) =~= rest(values(before), 1));
        first
    }
}

/// Decodes the next field of a list as a value of type `T`.
pub fn take_argument<T: Post>(fields: &mut Vec<Payload>) -> (r: Result<T, Error>)
    ensures
        reports(decode_fault::<T>(field(values(old(fields)@), 0)), r),
        r matches Ok(x) ==> T::parse(field(values(old(fields)@), 0)) == Some(x.model()),
        values(final(fields)@) == rest(values(old(fields)@), 1),
{
    let first = shift(fields);
    T::from_payload(first)
}

/// The arguments of an operation, decoded from the fields of a call by
/// position: the first field is the first argument, and so on. A field that
/// is missing reads as the empty payload; fields beyond the last argument
/// are not looked at. Decoding stops at the first field that fails.
pub trait Arguments: Sized {
    /// The first fault that decoding the fields in order meets.
    spec fn fault(fields: Seq<Value>) -> Fault;

    /// Whether each argument is what the field at its position holds.
    spec fn decodes(&self, fields: Seq<Value>) -> bool;

    fn take(fields: Vec<Payload>) -> (r: Result<Self, Error>)
        ensures
            reports(Self::fault(values(fields@)), r),
            r matches Ok(args) ==> args.decodes(values(fields@)),
    ;
}

impl Arguments for () {
    open spec fn fault(fields: Seq<Value>) -> Fault {
        Fault::Nothing
    }

    open spec fn decodes(&self, fields: Seq<Value>) -> bool {
        true
    }

    fn take(fields: Vec<Payload>) -> (r: Result<Self, Error>) {
        Ok(())
    }
}

impl<A: Post> Arguments for (A,) {
    open spec fn fault(fields: Seq<Value>) -> Fault {
        decode_fault::<A>(field(fields, 0))
    }

    open spec fn decodes(&self, fields: Seq<Value>) -> bool {
        &&& A::parse(field(fields, 0)) == Some(self.0.model())
    }

    fn take(fields: Vec<Payload>) -> (r: Result<Self, Error>) {
        let mut fields = fields;
        let ghost all = values(fields@);
        proof {
            lemma_rest(all, 0);
        }
        let a = match take_argument::<A>(&mut fields) {
            Ok(value) => value,
            Err(e) => {
                return Err(e);
            },
        };
        Ok((a,))
    }
}

impl<A: Post, B: Post> Arguments for (A, B,) {
    open spec fn fault(fields: Seq<Value>) -> Fault {
        first_fault(
            decode_fault::<A>(field(fields, 0)),
            decode_fault::<B>(field(fields, 1)),
        )
    }

    open spec fn decodes(&self, fields: Seq<Value>) -> bool {
        &&& A::parse(field(fields, 0)) == Some(self.0.model())
        &&& B::parse(field(fields, 1)) == Some(self.1.model())
    }

    fn take(fields: Vec<Payload>) -> (r: Result<Self, Error>) {
        let mut fields = fields;
        let ghost all = values(fields@);
        proof {
            lemma_rest(all, 0);
            lemma_rest(all, 1);
        }
        let a = match take_argument::<A>(&mut fields) {
            Ok(value) => value,
            Err(e) => {
                return Err(e);
            },
        };
        let b = match take_argument::<B>(&mut fields) {
            Ok(value) => value,
            Err(e) => {
                return Err(e);
            },
        };
        Ok((a, b,))
    }
}

impl<A: Post, B: Post, C: Post> Arguments for (A, B, C,) {
    open spec fn fault(fields: Seq<Value>) -> Fault {
        first_fault(
            decode_fault::<A>(field(fields, 0)),
            first_fault(
            decode_fault::<B>(field(fields, 1)),
            decode_fault::<C>(field(fields, 2)),
        ),
        )
    }

    open spec fn decodes(&self, fields: Seq<Value>) -> bool {
        &&& A::parse(field(fields, 0)) == Some(self.0.model())
        &&& B::parse(field(fields, 1)) == Some(self.1.model())
        &&& C::parse(field(fields, 2)) == Some(self.2.model())
    }

    fn take(fields: Vec<Payload>) -> (r: Result<Self, Error>) {
        let mut fields = fields;
        let ghost all = values(fields@);
        proof {
            lemma_rest(all, 0);
            lemma_rest(all, 1);
            lemma_rest(all, 2);
        }
        let a = match take_argument::<A>(&mut fields) {
            Ok(value) => value,
            Err(e) => {
                return Err(e);
            },
        };
        let b = match take_argument::<B>(&mut fields) {
            Ok(value) => value,
            Err(e) => {
                return Err(e);
            },
        };
        let c = match take_argument::<C>(&mut fields) {
            Ok(value) => value,
            Err(e) => {
                return Err(e);
            },
        };
        Ok((a, b, c,))
    }
}

impl<A: Post, B: Post, C: Post, D: Post> Arguments for (A, B, C, D,) {
    open spec fn fault(fields: Seq<Value>) -> Fault {
        first_fault(
            decode_fault::<A>(field(fields, 0)),
            first_fault(
            decode_fault::<B>(field(fields, 1)),
            first_fault(
            decode_fault::<C>(field(fields, 2)),
            decode_fault::<D>(field(fields, 3)),
        ),
        ),
        )
    }

    open spec fn decodes(&self, fields: Seq<Value>) -> bool {
        &&& A::parse(field(fields, 0)) == Some(self.0.model())
        &&& B::parse(field(fields, 1)) == Some(self.1.model())
        &&& C::parse(field(fields, 2)) == Some(self.2.model())
        &&& D::parse(field(fields, 3)) == Some(self.3.model())
    }

    fn take(fields: Vec<Payload>) -> (r: Result<Self, Error>) {
        let mut fields = fields;
        let ghost all = values(fields@);
        proof {
            lemma_rest(all, 0);
            lemma_rest(all, 1);
            lemma_rest(all, 2);
            lemma_rest(all, 3);
        }
        let a = match take_argument::<A>(&mut fields) {
            Ok(value) => value,
            Err(e) => {
                return Err(e);
            },
        };
        let b = match take_argument::<B>(&mut fields) {
            Ok(value) => value,
            Err(e) => {
                return Err(e);
            },
        };
        let c = match take_argument::<C>(&mut fields) {
            Ok(value) => value,
            Err(e) => {
                return Err(e);
            },
        };
        let d = match take_argument::<D>(&mut fields) {
            Ok(value) => value,
            Err(e) => {
                return Err(e);
            },
        };
        Ok((a, b, c, d,))
    }
}

impl<A: Post, B: Post, C: Post, D: Post, E: Post> Arguments for (A, B, C, D, E,) {
    open spec fn fault(fields: Seq<Value>) -> Fault {
        first_fault(
            decode_fault::<A>(field(fields, 0)),
            first_fault(
            decode_fault::<B>(field(fields, 1)),
            first_fault(
            decode_fault::<C>(field(fields, 2)),
            first_fault(
            decode_fault::<D>(field(fields, 3)),
            decode_fault::<E>(field(fields, 4)),
        ),
        ),
        ),
        )
    }

    open spec fn decodes(&self, fields: Seq<Value>) -> bool {
        &&& A::parse(field(fields, 0)) == Some(self.0.model())
        &&& B::parse(field(fields, 1)) == Some(self.1.model())
        &&& C::parse(field(fields, 2)) == Some(self.2.model())
        &&& D::parse(field(fields, 3)) == Some(self.3.model())
        &&& E::parse(field(fields, 4)) == Some(self.4.model())
    }

    fn take(fields: Vec<Payload>) -> (r: Result<Self, Error>) {
        let mut fields = fields;
        let ghost all = values(fields@);
        proof {
            lemma_rest(all, 0);
            lemma_rest(all, 1);
            lemma_rest(all, 2);
            lemma_rest(all, 3);
            lemma_rest(all, 4);
        }
        let a = match take_argument::<A>(&mut fields) {
            Ok(value) => value,
            Err(e) => {
                return Err(e);
            },
        };
        let b = match take_argument::<B>(&mut fields) {
            Ok(value) => value,
            Err(e) => {
                return Err(e);
            },
        };
        let c = match take_argument::<C>(&mut fields) {
            Ok(value) => value,
            Err(e) => {
                return Err(e);
            },
        };
        let d = match take_argument::<D>(&mut fields) {
            Ok(value) => value,
            Err(e) => {
                return Err(e);
            },
        };
        let e = match take_argument::<E>(&mut fields) {
            Ok(value) => value,
            Err(e) => {
                return Err(e);
            },
        };
        Ok((a, b, c, d, e,))
    }
}

impl<A: Post, B: Post, C: Post, D: Post, E: Post, F: Post> Arguments for (A, B, C, D, E, F,) {
    open spec fn fault(fields: Seq<Value>) -> Fault {
        first_fault(
            decode_fault::<A>(field(fields, 0)),
            first_fault(
            decode_fault::<B>(field(fields, 1)),
            first_fault(
            decode_fault::<C>(field(fields, 2)),
            first_fault(
            decode_fault::<D>(field(fields, 3)),
            first_fault(
            decode_fault::<E>(field(fields, 4)),
            decode_fault::<F>(field(fields, 5)),
        ),
        ),
        ),
        ),
        )
    }

    open spec fn decodes(&self, fields: Seq<Value>) -> bool {
        &&& A::parse(field(fields, 0)) == Some(self.0.model())
        &&& B::parse(field(fields, 1)) == Some(self.1.model())
        &&& C::parse(field(fields, 2)) == Some(self.2.model())
        &&& D::parse(field(fields, 3)) == Some(self.3.model())
        &&& E::parse(field(fields, 4)) == Some(self.4.model())
        &&& F::parse(field(fields, 5)) == Some(self.5.model())
    }

    fn take(fields: Vec<Payload>) -> (r: Result<Self, Error>) {
        let mut fields = fields;
        let ghost all = values(fields@);
        proof {
            lemma_rest(all, 0);
            lemma_rest(all, 1);
            lemma_rest(all, 2);
            lemma_rest(all, 3);
            lemma_rest(all, 4);
            lemma_rest(all, 5);
        }
        let a = match take_argument::<A>(&mut fields) {
            Ok(value) => value,
            Err(e) => {
                return Err(e);
            },
        };
        let b = match take_argument::<B>(&mut fields) {
            Ok(value) => value,
            Err(e) => {
                return Err(e);
            },
        };
        let c = match take_argument::<C>(&mut fields) {
            Ok(value) => value,
            Err(e) => {
                return Err(e);
            },
        };
        let d = match take_argument::<D>(&mut fields) {
            Ok(value) => value,
            Err(e) => {
                return Err(e);
            },
        };
        let e = match take_argument::<E>(&mut fields) {
            Ok(value) => value,
            Err(e) => {
                return Err(e);
            },
        };
        let f = match take_argument::<F>(&mut fields) {
            Ok(value) => value,
            Err(e) => {
                return Err(e);
            },
        };
        Ok((a, b, c, d, e, f,))
    }
}

impl<A: Post, B: Post, C: Post, D: Post, E: Post, F: Post, G: Post> Arguments for (A, B, C, D, E, F, G,) {
    open spec fn fault(fields: Seq<Value>) -> Fault {
        first_fault(
            decode_fault::<A>(field(fields, 0)),
            first_fault(
            decode_fault::<B>(field(fields, 1)),
            first_fault(
            decode_fault::<C>(field(fields, 2)),
            first_fault(
            decode_fault::<D>(field(fields, 3)),
            first_fault(
            decode_fault::<E>(field(fields, 4)),
            first_fault(
            decode_fault::<F>(field(fields, 5)),
            decode_fault::<G>(field(fields, 6)),
        ),
        ),
        ),
        ),
        ),
        )
    }

    open spec fn decodes(&self, fields: Seq<Value>) -> bool {
        &&& A::parse(field(fields, 0)) == Some(self.0.model())
        &&& B::parse(field(fields, 1)) == Some(self.1.model())
        &&& C::parse(field(fields, 2)) == Some(self.2.model())
        &&& D::parse(field(fields, 3)) == Some(self.3.model())
        &&& E::parse(field(fields, 4)) == Some(self.4.model())
        &&& F::parse(field(fields, 5)) == Some(self.5.model())
        &&& G::parse(field(fields, 6)) == Some(self.6.model())
    }

    fn take(fields: Vec<Payload>) -> (r: Result<Self, Error>) {
        let mut fields = fields;
        let ghost all = values(fields@);
        proof {
            lemma_rest(all, 0);
            lemma_rest(all, 1);
            lemma_rest(all, 2);
            lemma_rest(all, 3);
            lemma_rest(all, 4);
            lemma_rest(all, 5);
            lemma_rest(all, 6);
        }
        let a = match take_argument::<A>(&mut fields) {
            Ok(value) => value,
            Err(e) => {
                return Err(e);
            },
        };
        let b = match take_argument::<B>(&mut fields) {
            Ok(value) => value,
            Err(e) => {
                return Err(e);
            },
        };
        let c = match take_argument::<C>(&mut fields) {
            Ok(value) => value,
            Err(e) => {
                return Err(e);
            },
        };
        let d = match take_argument::<D>(&mut fields) {
            Ok(value) => value,
            Err(e) => {
                return Err(e);
            },
        };
        let e = match take_argument::<E>(&mut fields) {
            Ok(value) => value,
            Err(e) => {
                return Err(e);
            },
        };
        let f = match take_argument::<F>(&mut fields) {
            Ok(value) => value,
            Err(e) => {
                return Err(e);
            },
        };
        let g = match take_argument::<G>(&mut fields) {
            Ok(value) => value,
            Err(e) => {
                return Err(e);
            },
        };
        Ok((a, b, c, d, e, f, g,))
    }
}

} // verus!
