//! Modules: the top-level unit of IR.

use vstd::prelude::*;
use crate::foreign::{ask, replied, serves, Call, Reply};
use crate::private::Sealed;
use crate::block::BlockRef;
use crate::location::Location;
use crate::raw::MlirModule;
use crate::string_ref::StringRef;

verus! {

/// A top-level unit of IR. It is released by its holder, and must not
/// outlive the context it was made in.
#[derive(Debug)]
pub struct Module {
    pub(crate) inner: MlirModule,
}

impl View for Module {
    type V = MlirModule;

    closed spec fn view(&self) -> MlirModule {
        self.inner
    }
}

impl Sealed for Module {
}

impl Module {
    #[verifier::type_invariant]
    spec fn live(self) -> bool {
        !self.inner.is_null()
    }

    /// Whether `wrapped` is what wrapping `raw` gives: nothing for the null
    /// handle, and otherwise a value that holds `raw`.
    pub open spec fn wraps(wrapped: Option<Module>, raw: MlirModule) -> bool {
        match wrapped {
            Some(w) => w@ == raw && !raw.is_null(),
            None => raw.is_null(),
        }
    }

    /// Wraps a raw handle and takes over the duty to release it.
    ///
    /// The caller vouches that nothing else owns the handle.
    pub fn from_raw(raw: MlirModule) -> (wrapped: Option<Module>)
        ensures
            Module::wraps(wrapped, raw),
    {
        if raw.is_null() {
            return None;
        }
        Some(Module { inner: raw })
    }

    /// The raw handle, for passing to the foreign interface. It is never
    /// null.
    pub fn as_raw(&self) -> (raw: MlirModule)
        ensures
            raw == self@,
            !raw.is_null(),
    {
        proof {
            use_type_invariant(self);
        }
        self.inner
    }

    /// Gives up the wrapper without releasing what it holds: the duty to
    /// release passes to whoever takes the handle.
    pub fn into_raw(self) -> (raw: MlirModule)
        ensures
            raw == self@,
            !raw.is_null(),
    {
        proof {
            use_type_invariant(&self);
        }
        self.inner
    }

    /// Releases the value. The wrapper is consumed, so this happens at most
    /// once.
    pub fn destroy<'r, F: Fn(Call<'_>) -> Reply<'r>>(self, ffi: &F)
        requires
            serves(ffi),
        ensures
            exists|reply: Reply<'r>| #[trigger]
                replied(ffi, Call::ModuleDestroy { module: self@ }, reply),
    {
        let raw = self.into_raw();
        let _ = ask(ffi, Call::ModuleDestroy { module: raw });
    }

    /// A new module without operations, located at `location`; `None` if
    /// the foreign library returns none.
    pub fn create_empty<'r, F: Fn(Call<'_>) -> Reply<'r>>(location: Location, ffi: &F) -> (module: Option<Module>)
        requires
            serves(ffi),
        ensures
            exists|reply: Reply<'r>| #[trigger]
                replied(ffi, Call::ModuleCreateEmpty { location: location@ }, reply)
                    && Module::wraps(module, reply.module()),
    {
        let reply = ask(ffi, Call::ModuleCreateEmpty { location: location.as_raw() });
        Module::from_raw(reply.module())
    }

    /// The module that the text `module` describes, or `None` if the
    /// foreign library cannot parse it.
    pub fn create_parse<'r, F: Fn(Call<'_>) -> Reply<'r>>(module: StringRef<'_>, ffi: &F) -> (parsed: Option<Module>)
        requires
            serves(ffi),
        ensures
            exists|call: Call<'_>, reply: Reply<'r>| #[trigger]
                replied(ffi, call, reply) && (call matches Call::ModuleCreateParse { module: m }
                    && m@ == module@) && Module::wraps(parsed, reply.module()),
    {
        let reply = ask(ffi, Call::ModuleCreateParse { module: module.as_raw() });
        Module::from_raw(reply.module())
    }

    /// The block that holds the operations of the module. The module keeps
    /// the block: what comes back is a view of it.
    pub fn body<'r, F: Fn(Call<'_>) -> Reply<'r>>(&self, ffi: &F) -> (body: Option<BlockRef<'_>>)
        requires
            serves(ffi),
        ensures
            exists|reply: Reply<'r>| #[trigger]
                replied(ffi, Call::ModuleGetBody { module: self@ }, reply) && BlockRef::wraps(
                    body,
                    reply.block(),
                ),
    {
        let reply = ask(ffi, Call::ModuleGetBody { module: self.as_raw() });
        BlockRef::from_raw(reply.block())
    }
}

} // verus!
