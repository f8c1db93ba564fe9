//! SSA values.

use vstd::prelude::*;
use crate::foreign::{ask, replied, serves, Call, Reply};
use crate::private::Sealed;
use crate::raw::MlirValue;

verus! {

/// A value an operation takes or produces. Uniqued: copies refer to the same
/// value, which lives as long as its context.
#[derive(Clone, Copy, Debug)]
pub struct Value {
    pub(crate) inner: MlirValue,
}

impl View for Value {
    type V = MlirValue;

    closed spec fn view(&self) -> MlirValue {
        self.inner
    }
}

impl Sealed for Value {
}

impl Value {
    #[verifier::type_invariant]
    spec fn live(self) -> bool {
        !self.inner.is_null()
    }

    /// Whether `wrapped` is what wrapping `raw` gives: nothing for the null
    /// handle, and otherwise a value that holds `raw`.
    pub open spec fn wraps(wrapped: Option<Value>, raw: MlirValue) -> bool {
        match wrapped {
            Some(w) => w@ == raw && !raw.is_null(),
            None => raw.is_null(),
        }
    }

    /// Wraps a raw handle.
    pub fn from_raw(raw: MlirValue) -> (wrapped: Option<Value>)
        ensures
            Value::wraps(wrapped, raw),
    {
        if raw.is_null() {
            return None;
        }
        Some(Value { inner: raw })
    }

    /// The raw handle, for passing to the foreign interface. It is never
    /// null.
    pub fn as_raw(&self) -> (raw: MlirValue)
        ensures
            raw == self@,
            !raw.is_null(),
    {
        proof {
            use_type_invariant(self);
        }
        self.inner
    }

    /// Whether the foreign library holds the two to be equal.
    pub fn eq<'r, F: Fn(Call<'_>) -> Reply<'r>>(&self, other: &Value, ffi: &F) -> (equal: bool)
        requires
            serves(ffi),
        ensures
            exists|reply: Reply<'r>| #[trigger]
                replied(ffi, Call::ValueEqual { a: self@, b: other@ }, reply) && equal
                    == reply.flag(),
    {
        let reply = ask(ffi, Call::ValueEqual { a: self.as_raw(), b: other.as_raw() });
        reply.flag()
    }
}

/// The raw handles of `values`, in order.
pub open spec fn value_handles(values: Seq<Value>) -> Seq<MlirValue> {
    values.map_values(|v: Value| v@)
}

/// Lays `values` out as the foreign interface takes them.
pub fn raw_values(values: &[Value]) -> (raws: Vec<MlirValue>)
    ensures
        raws@ == value_handles(values@),
{
    let mut raws: Vec<MlirValue> = Vec::new();
    let mut i: usize = 0;
    while i < values.len()
        invariant
            i <= values.len(),
            raws@ == value_handles(values@.take(i as int)),
        decreases values.len() - i,
    {
        raws.push(values[i].as_raw());
        assert(value_handles(values@.take(i + 1)) =~= value_handles(values@.take(i as int)).push(
            values@[i as int]@,
        ));
        i += 1;
    }
    assert(values@.take(i as int) =~= values@);
    raws
}

} // verus!
