//! Symbol tables.

use vstd::prelude::*;
use crate::foreign::{ask, replied, serves, Call, Reply};
use crate::private::Sealed;
use crate::raw::MlirSymbolTable;
use crate::string_ref::StringRef;

verus! {

/// The set of symbols defined directly under one operation. It is released
/// by its holder, and must not outlive the operation it was made for.
#[derive(Debug)]
pub struct SymbolTable {
    pub(crate) inner: MlirSymbolTable,
}

impl View for SymbolTable {
    type V = MlirSymbolTable;

    closed spec fn view(&self) -> MlirSymbolTable {
        self.inner
    }
}

impl Sealed for SymbolTable {
}

impl SymbolTable {
    #[verifier::type_invariant]
    spec fn live(self) -> bool {
        !self.inner.is_null()
    }

    /// Whether `wrapped` is what wrapping `raw` gives: nothing for the null
    /// handle, and otherwise a value that holds `raw`.
    pub open spec fn wraps(wrapped: Option<SymbolTable>, raw: MlirSymbolTable) -> bool {
        match wrapped {
            Some(w) => w@ == raw && !raw.is_null(),
            None => raw.is_null(),
        }
    }

    /// Wraps a raw handle and takes over the duty to release it.
    ///
    /// The caller vouches that nothing else owns the handle.
    pub fn from_raw(raw: MlirSymbolTable) -> (wrapped: Option<SymbolTable>)
        ensures
            SymbolTable::wraps(wrapped, raw),
    {
        if raw.is_null() {
            return None;
        }
        Some(SymbolTable { inner: raw })
    }

    /// The raw handle, for passing to the foreign interface. It is never
    /// null.
    pub fn as_raw(&self) -> (raw: MlirSymbolTable)
        ensures
            raw == self@,
            !raw.is_null(),
    {
        proof {
            use_type_invariant(self);
        }
        self.inner
    }

    /// Gives up the wrapper without releasing what it holds: the duty to
    /// release passes to whoever takes the handle.
    pub fn into_raw(self) -> (raw: MlirSymbolTable)
        ensures
            raw == self@,
            !raw.is_null(),
    {
        proof {
            use_type_invariant(&self);
        }
        self.inner
    }

    /// Releases the value. The wrapper is consumed, so this happens at most
    /// once.
    pub fn destroy<'r, F: Fn(Call<'_>) -> Reply<'r>>(self, ffi: &F)
        requires
            serves(ffi),
        ensures
            exists|reply: Reply<'r>| #[trigger]
                replied(ffi, Call::SymbolTableDestroy { table: self@ }, reply),
    {
        let raw = self.into_raw();
        let _ = ask(ffi, Call::SymbolTableDestroy { table: raw });
    }

    /// The name of the attribute that holds the name of a symbol.
    pub fn symbol_attribute_name<'r, F: Fn(Call<'_>) -> Reply<'r>>(ffi: &F) -> (name: Option<StringRef<'r>>)
        requires
            serves(ffi),
        ensures
            exists|reply: Reply<'r>| #[trigger]
                replied(ffi, Call::SymbolTableGetSymbolAttributeName, reply) && StringRef::shows(
                    name,
                    reply.text(),
                ),
    {
        let reply = ask(ffi, Call::SymbolTableGetSymbolAttributeName);
        StringRef::from_reply(&reply)
    }

    /// The name of the attribute that holds the visibility of a symbol.
    pub fn visibility_attribute_name<'r, F: Fn(Call<'_>) -> Reply<'r>>(ffi: &F) -> (name: Option<StringRef<'r>>)
        requires
            serves(ffi),
        ensures
            exists|reply: Reply<'r>| #[trigger]
                replied(ffi, Call::SymbolTableGetVisibilityAttributeName, reply)
                    && StringRef::shows(name, reply.text()),
    {
        let reply = ask(ffi, Call::SymbolTableGetVisibilityAttributeName);
        StringRef::from_reply(&reply)
    }
}

} // verus!
