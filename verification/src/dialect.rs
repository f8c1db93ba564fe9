//! Dialects, the hooks that register them, and registries of them.

use vstd::prelude::*;
use crate::foreign::{ask, replied, serves, Call, Reply};
use crate::private::Sealed;
use crate::raw::{MlirDialect, MlirDialectHandle, MlirDialectRegistry};
use crate::string_ref::StringRef;

verus! {

/// A collection of operations, attributes and types under one namespace.
/// It belongs to the context it was loaded into and lives as long as that.
#[derive(Debug)]
pub struct Dialect {
    pub(crate) inner: MlirDialect,
}

impl View for Dialect {
    type V = MlirDialect;

    closed spec fn view(&self) -> MlirDialect {
        self.inner
    }
}

impl Sealed for Dialect {
}

impl Dialect {
    #[verifier::type_invariant]
    spec fn live(self) -> bool {
        !self.inner.is_null()
    }

    /// Whether `wrapped` is what wrapping `raw` gives: nothing for the null
    /// handle, and otherwise a value that holds `raw`.
    pub open spec fn wraps(wrapped: Option<Dialect>, raw: MlirDialect) -> bool {
        match wrapped {
            Some(w) => w@ == raw && !raw.is_null(),
            None => raw.is_null(),
        }
    }

    /// Wraps a raw handle and takes over the duty to release it.
    ///
    /// The caller vouches that nothing else owns the handle.
    pub fn from_raw(raw: MlirDialect) -> (wrapped: Option<Dialect>)
        ensures
            Dialect::wraps(wrapped, raw),
    {
        if raw.is_null() {
            return None;
        }
        Some(Dialect { inner: raw })
    }

    /// The raw handle, for passing to the foreign interface. It is never
    /// null.
    pub fn as_raw(&self) -> (raw: MlirDialect)
        ensures
            raw == self@,
            !raw.is_null(),
    {
        proof {
            use_type_invariant(self);
        }
        self.inner
    }

    /// Whether the foreign library holds the two to be equal.
    pub fn eq<'r, F: Fn(Call<'_>) -> Reply<'r>>(&self, other: &Dialect, ffi: &F) -> (equal: bool)
        requires
            serves(ffi),
        ensures
            exists|reply: Reply<'r>| #[trigger]
                replied(ffi, Call::DialectEqual { a: self@, b: other@ }, reply) && equal
                    == reply.flag(),
    {
        let reply = ask(ffi, Call::DialectEqual { a: self.as_raw(), b: other.as_raw() });
        reply.flag()
    }

    /// The namespace of the dialect, as the foreign library holds it.
    pub fn namespace<'r, F: Fn(Call<'_>) -> Reply<'r>>(&self, ffi: &F) -> (name: Option<StringRef<'r>>)
        requires
            serves(ffi),
        ensures
            exists|reply: Reply<'r>| #[trigger]
                replied(ffi, Call::DialectGetNamespace { dialect: self@ }, reply)
                    && StringRef::shows(name, reply.text()),
    {
        let reply = ask(ffi, Call::DialectGetNamespace { dialect: self.as_raw() });
        StringRef::from_reply(&reply)
    }
}

/// A hook by which a dialect is registered with and loaded into a context.
#[derive(Debug)]
pub struct DialectHandle {
    pub(crate) inner: MlirDialectHandle,
}

impl View for DialectHandle {
    type V = MlirDialectHandle;

    closed spec fn view(&self) -> MlirDialectHandle {
        self.inner
    }
}

impl Sealed for DialectHandle {
}

impl DialectHandle {
    #[verifier::type_invariant]
    spec fn live(self) -> bool {
        !self.inner.is_null()
    }

    /// Whether `wrapped` is what wrapping `raw` gives: nothing for the null
    /// handle, and otherwise a value that holds `raw`.
    pub open spec fn wraps(wrapped: Option<DialectHandle>, raw: MlirDialectHandle) -> bool {
        match wrapped {
            Some(w) => w@ == raw && !raw.is_null(),
            None => raw.is_null(),
        }
    }

    /// Wraps a raw handle and takes over the duty to release it.
    ///
    /// The caller vouches that nothing else owns the handle.
    pub fn from_raw(raw: MlirDialectHandle) -> (wrapped: Option<DialectHandle>)
        ensures
            DialectHandle::wraps(wrapped, raw),
    {
        if raw.is_null() {
            return None;
        }
        Some(DialectHandle { inner: raw })
    }

    /// The raw handle, for passing to the foreign interface. It is never
    /// null.
    pub fn as_raw(&self) -> (raw: MlirDialectHandle)
        ensures
            raw == self@,
            !raw.is_null(),
    {
        proof {
            use_type_invariant(self);
        }
        self.inner
    }

    /// Registers the dialect with the process-wide context.
    pub fn register_dialect<'r, F: Fn(Call<'_>) -> Reply<'r>>(&self, ffi: &F)
        requires
            serves(ffi),
        ensures
            exists|reply: Reply<'r>| #[trigger]
                replied(ffi, Call::DialectHandleRegisterDialect { handle: self@ }, reply),
    {
        let _ = ask(ffi, Call::DialectHandleRegisterDialect { handle: self.as_raw() });
    }

    /// Loads the dialect into the process-wide context; `None` if the
    /// foreign library returns none.
    pub fn load_dialect<'r, F: Fn(Call<'_>) -> Reply<'r>>(&self, ffi: &F) -> (dialect: Option<Dialect>)
        requires
            serves(ffi),
        ensures
            exists|reply: Reply<'r>| #[trigger]
                replied(ffi, Call::DialectHandleLoadDialect { handle: self@ }, reply)
                    && Dialect::wraps(dialect, reply.dialect()),
    {
        let reply = ask(ffi, Call::DialectHandleLoadDialect { handle: self.as_raw() });
        Dialect::from_raw(reply.dialect())
    }

    /// The namespace of the dialect behind the hook.
    pub fn namespace<'r, F: Fn(Call<'_>) -> Reply<'r>>(&self, ffi: &F) -> (name: Option<StringRef<'r>>)
        requires
            serves(ffi),
        ensures
            exists|reply: Reply<'r>| #[trigger]
                replied(ffi, Call::DialectHandleGetNamespace { handle: self@ }, reply)
                    && StringRef::shows(name, reply.text()),
    {
        let reply = ask(ffi, Call::DialectHandleGetNamespace { handle: self.as_raw() });
        StringRef::from_reply(&reply)
    }
}

/// A registry of dialects that can be offered to a context. Owned: whoever
/// holds the value must release it.
#[derive(Debug)]
pub struct DialectRegistry {
    pub(crate) inner: MlirDialectRegistry,
}

impl View for DialectRegistry {
    type V = MlirDialectRegistry;

    closed spec fn view(&self) -> MlirDialectRegistry {
        self.inner
    }
}

impl Sealed for DialectRegistry {
}

impl DialectRegistry {
    #[verifier::type_invariant]
    spec fn live(self) -> bool {
        !self.inner.is_null()
    }

    /// Whether `wrapped` is what wrapping `raw` gives: nothing for the null
    /// handle, and otherwise a value that holds `raw`.
    pub open spec fn wraps(wrapped: Option<DialectRegistry>, raw: MlirDialectRegistry) -> bool {
        match wrapped {
            Some(w) => w@ == raw && !raw.is_null(),
            None => raw.is_null(),
        }
    }

    /// Wraps a raw handle and takes over the duty to release it.
    ///
    /// The caller vouches that nothing else owns the handle.
    pub fn from_raw(raw: MlirDialectRegistry) -> (wrapped: Option<DialectRegistry>)
        ensures
            DialectRegistry::wraps(wrapped, raw),
    {
        if raw.is_null() {
            return None;
        }
        Some(DialectRegistry { inner: raw })
    }

    /// The raw handle, for passing to the foreign interface. It is never
    /// null.
    pub fn as_raw(&self) -> (raw: MlirDialectRegistry)
        ensures
            raw == self@,
            !raw.is_null(),
    {
        proof {
            use_type_invariant(self);
        }
        self.inner
    }

    /// Gives up the wrapper without releasing what it holds: the duty to
    /// release passes to whoever takes the handle.
    pub fn into_raw(self) -> (raw: MlirDialectRegistry)
        ensures
            raw == self@,
            !raw.is_null(),
    {
        proof {
            use_type_invariant(&self);
        }
        self.inner
    }

    /// Releases the value. The wrapper is consumed, so this happens at most
    /// once.
    pub fn destroy<'r, F: Fn(Call<'_>) -> Reply<'r>>(self, ffi: &F)
        requires
            serves(ffi),
        ensures
            exists|reply: Reply<'r>| #[trigger]
                replied(ffi, Call::DialectRegistryDestroy { registry: self@ }, reply),
    {
        let raw = self.into_raw();
        let _ = ask(ffi, Call::DialectRegistryDestroy { registry: raw });
    }

    /// A new, empty registry, or `None` if the foreign library returns
    /// none.
    pub fn create<'r, F: Fn(Call<'_>) -> Reply<'r>>(ffi: &F) -> (registry: Option<DialectRegistry>)
        requires
            serves(ffi),
        ensures
            exists|reply: Reply<'r>| #[trigger]
                replied(ffi, Call::DialectRegistryCreate, reply) && DialectRegistry::wraps(
                    registry,
                    reply.dialect_registry(),
                ),
    {
        let reply = ask(ffi, Call::DialectRegistryCreate);
        DialectRegistry::from_raw(reply.dialect_registry())
    }
}

} // verus!
