//! Interned names.

use vstd::prelude::*;
use crate::foreign::{ask, replied, serves, Call, Reply};
use crate::private::Sealed;
use crate::raw::MlirIdentifier;
use crate::string_ref::StringRef;

verus! {

/// A name interned in the context. Uniqued: copies refer to the same name,
/// which lives as long as its context.
#[derive(Clone, Copy, Debug)]
pub struct Identifier {
    pub(crate) inner: MlirIdentifier,
}

impl View for Identifier {
    type V = MlirIdentifier;

    closed spec fn view(&self) -> MlirIdentifier {
        self.inner
    }
}

impl Sealed for Identifier {
}

impl Identifier {
    #[verifier::type_invariant]
    spec fn live(self) -> bool {
        !self.inner.is_null()
    }

    /// Whether `wrapped` is what wrapping `raw` gives: nothing for the null
    /// handle, and otherwise a value that holds `raw`.
    pub open spec fn wraps(wrapped: Option<Identifier>, raw: MlirIdentifier) -> bool {
        match wrapped {
            Some(w) => w@ == raw && !raw.is_null(),
            None => raw.is_null(),
        }
    }

    /// Wraps a raw handle.
    pub fn from_raw(raw: MlirIdentifier) -> (wrapped: Option<Identifier>)
        ensures
            Identifier::wraps(wrapped, raw),
    {
        if raw.is_null() {
            return None;
        }
        Some(Identifier { inner: raw })
    }

    /// The raw handle, for passing to the foreign interface. It is never
    /// null.
    pub fn as_raw(&self) -> (raw: MlirIdentifier)
        ensures
            raw == self@,
            !raw.is_null(),
    {
        proof {
            use_type_invariant(self);
        }
        self.inner
    }

    /// The identifier for the text `value`, interned on first use.
    pub fn get<'r, F: Fn(Call<'_>) -> Reply<'r>>(value: StringRef<'_>, ffi: &F) -> (ident: Option<Identifier>)
        requires
            serves(ffi),
        ensures
            exists|call: Call<'_>, reply: Reply<'r>| #[trigger]
                replied(ffi, call, reply) && (call matches Call::IdentifierGet { name } && name@
                    == value@) && Identifier::wraps(ident, reply.identifier()),
    {
        let reply = ask(ffi, Call::IdentifierGet { name: value.as_raw() });
        Identifier::from_raw(reply.identifier())
    }

    /// The text of the identifier, as the foreign library holds it.
    pub fn value<'r, F: Fn(Call<'_>) -> Reply<'r>>(&self, ffi: &F) -> (text: Option<StringRef<'r>>)
        requires
            serves(ffi),
        ensures
            exists|reply: Reply<'r>| #[trigger]
                replied(ffi, Call::IdentifierStr { ident: self@ }, reply) && StringRef::shows(
                    text,
                    reply.text(),
                ),
    {
        let reply = ask(ffi, Call::IdentifierStr { ident: self.as_raw() });
        StringRef::from_reply(&reply)
    }
}

} // verus!
