//! The context that interns everything, and the two ways of reaching the
//! process-wide one.
//!
//! The foreign library synchronizes part of what it does on a context and
//! leaves the rest to its caller. A [`SyncContext`] pairs the context with a
//! lock and offers one way in for each part.

use vstd::prelude::*;
use crate::foreign::{ask, replied, serves, Call, Reply};
use crate::private::Sealed;
use std::sync::{Mutex, MutexGuard, PoisonError, TryLockError};
use once_cell::sync::OnceCell;
use crate::dialect::DialectRegistry;
use crate::raw::MlirContext;

verus! {

/// The top-level object that owns and interns the types, attributes and
/// locations of a collection of operations. Owned: whoever holds the value
/// must release it.
#[derive(Debug)]
pub struct Context {
    pub(crate) inner: MlirContext,
}

impl View for Context {
    type V = MlirContext;

    closed spec fn view(&self) -> MlirContext {
        self.inner
    }
}

impl Sealed for Context {
}

impl Context {
    #[verifier::type_invariant]
    spec fn live(self) -> bool {
        !self.inner.is_null()
    }

    /// Whether `wrapped` is what wrapping `raw` gives: nothing for the null
    /// handle, and otherwise a value that holds `raw`.
    pub open spec fn wraps(wrapped: Option<Context>, raw: MlirContext) -> bool {
        match wrapped {
            Some(w) => w@ == raw && !raw.is_null(),
            None => raw.is_null(),
        }
    }

    /// Wraps a raw handle and takes over the duty to release it.
    ///
    /// The caller vouches that nothing else owns the handle.
    pub fn from_raw(raw: MlirContext) -> (wrapped: Option<Context>)
        ensures
            Context::wraps(wrapped, raw),
    {
        if raw.is_null() {
            return None;
        }
        Some(Context { inner: raw })
    }

    /// The raw handle, for passing to the foreign interface. It is never
    /// null.
    pub fn as_raw(&self) -> (raw: MlirContext)
        ensures
            raw == self@,
            !raw.is_null(),
    {
        proof {
            use_type_invariant(self);
        }
        self.inner
    }

    /// Gives up the wrapper without releasing what it holds: the duty to
    /// release passes to whoever takes the handle.
    pub fn into_raw(self) -> (raw: MlirContext)
        ensures
            raw == self@,
            !raw.is_null(),
    {
        proof {
            use_type_invariant(&self);
        }
        self.inner
    }

    /// Releases the value. The wrapper is consumed, so this happens at most
    /// once.
    pub fn destroy<'r, F: Fn(Call<'_>) -> Reply<'r>>(self, ffi: &F)
        requires
            serves(ffi),
        ensures
            exists|reply: Reply<'r>| #[trigger]
                replied(ffi, Call::ContextDestroy { context: self@ }, reply),
    {
        let raw = self.into_raw();
        let _ = ask(ffi, Call::ContextDestroy { context: raw });
    }

    /// Whether the foreign library holds the two to be equal.
    pub fn eq<'r, F: Fn(Call<'_>) -> Reply<'r>>(&self, other: &Context, ffi: &F) -> (equal: bool)
        requires
            serves(ffi),
        ensures
            exists|reply: Reply<'r>| #[trigger]
                replied(ffi, Call::ContextEqual { a: self@, b: other@ }, reply) && equal
                    == reply.flag(),
    {
        let reply = ask(ffi, Call::ContextEqual { a: self.as_raw(), b: other.as_raw() });
        reply.flag()
    }

    /// A new context, or `None` if the foreign library returns none.
    pub fn create<'r, F: Fn(Call<'_>) -> Reply<'r>>(ffi: &F) -> (context: Option<Context>)
        requires
            serves(ffi),
        ensures
            exists|reply: Reply<'r>| #[trigger]
                replied(ffi, Call::ContextCreate, reply) && Context::wraps(
                    context,
                    reply.context(),
                ),
    {
        let reply = ask(ffi, Call::ContextCreate);
        Context::from_raw(reply.context())
    }

    /// Offers every dialect in `registry` to the context.
    pub fn append_dialect_registry<'r, F: Fn(Call<'_>) -> Reply<'r>>(&mut self, registry: &DialectRegistry, ffi: &F)
        requires
            serves(ffi),
        ensures
            final(self)@ == old(self)@,
            exists|reply: Reply<'r>| #[trigger]
                replied(
                    ffi,
                    Call::ContextAppendDialectRegistry {
                        context: old(self)@,
                        registry: registry@,
                    },
                    reply,
                ),
    {
        let _ = ask(
            ffi,
            Call::ContextAppendDialectRegistry {
                context: self.as_raw(),
                registry: registry.as_raw(),
            },
        );
    }
}

#[verifier::external_type_specification]
#[verifier::external_body]
#[verifier::reject_recursive_types(T)]
pub struct ExMutex<T: ?Sized>(Mutex<T>);

#[verifier::external_type_specification]
#[verifier::external_body]
#[verifier::reject_recursive_types(T)]
pub struct ExMutexGuard<'a, T: ?Sized + 'a>(MutexGuard<'a, T>);

#[verifier::external_type_specification]
#[verifier::external_body]
#[verifier::reject_recursive_types(T)]
pub struct ExOnceCell<T>(OnceCell<T>);

/// `Mutex::new`: a lock that nobody holds. Nothing is claimed of it.
#[verifier::external_body]
fn new_lock() -> Mutex<()> {
    Mutex::new(())
}

#[verifier::external_type_specification]
#[verifier::external_body]
#[verifier::reject_recursive_types(T)]
pub struct ExPoisonError<T>(PoisonError<T>);

#[verifier::external_type_specification]
#[verifier::external_body]
#[verifier::reject_recursive_types(T)]
pub struct ExTryLockError<T>(TryLockError<T>);

/// `Mutex::try_lock`: takes the lock if it is free and never waits for it.
/// The guard that comes back holds the lock until it is dropped. An error
/// comes back if the lock is held, be it by this very thread, or if a
/// holder of the lock panicked. Nothing is claimed of either.
#[verifier::external_body]
fn try_lock(mutex: &Mutex<()>) -> Result<MutexGuard<'_, ()>, TryLockError<MutexGuard<'_, ()>>> {
    mutex.try_lock()
}

/// Tells the two errors of `Mutex::try_lock` apart: the error of a
/// poisoned lock if it is that, and nothing if the lock is held. Nothing is
/// claimed of the result.
#[verifier::external_body]
fn poisoned<'a>(error: TryLockError<MutexGuard<'a, ()>>) -> Option<
    PoisonError<MutexGuard<'a, ()>>,
> {
    match error {
        TryLockError::Poisoned(poisoned) => Some(poisoned),
        TryLockError::WouldBlock => None,
    }
}

/// `PoisonError::into_inner`: the guard that the error of a poisoned lock
/// carries. Nothing is claimed of it.
#[verifier::external_body]
fn recover<'a>(poisoned: PoisonError<MutexGuard<'a, ()>>) -> MutexGuard<'a, ()> {
    poisoned.into_inner()
}

/// `OnceCell::get` of `once_cell::sync`: what the cell holds, or nothing if
/// it is empty or being filled. It never waits. Nothing is claimed of the
/// result: it depends on what the cell holds.
#[verifier::external_body]
fn get<'a>(cell: &'a OnceCell<SyncContext>) -> Option<&'a SyncContext> {
    cell.get()
}

/// `OnceCell::try_insert` of `once_cell::sync`: puts `value` into the cell
/// if the cell is empty, and hands out what the cell holds afterwards. If
/// the value went in, that is the value; if the cell was filled already,
/// the value comes back beside what the cell holds.
#[verifier::external_body]
fn try_insert<'a>(cell: &'a OnceCell<SyncContext>, value: SyncContext) -> (kept: Result<
    &'a SyncContext,
    (&'a SyncContext, SyncContext),
>)
    ensures
        kept matches Ok(held) ==> *held == value,
        kept matches Err(both) ==> both.1 == value,
{
    cell.try_insert(value)
}

/// No context could be made.
#[derive(Clone, Copy, Debug, PartialEq, Eq, Structural)]
pub struct ContextUnavailable;

/// A context together with the lock that serializes what the foreign
/// library does not synchronize itself.
pub struct SyncContext {
    context: Context,
    mutex: Mutex<()>,
}

impl View for SyncContext {
    type V = MlirContext;

    closed spec fn view(&self) -> MlirContext {
        self.context@
    }
}

/// `made` is what making a context came to: the context the dispatcher
/// answered with, paired with a lock, or the error if it answered with none.
pub open spec fn context_made<'r, F: Fn(Call<'_>) -> Reply<'r>>(
    ffi: &F,
    made: Result<SyncContext, ContextUnavailable>,
) -> bool {
    exists|reply: Reply<'r>| #[trigger]
        replied(ffi, Call::ContextCreate, reply) && match made {
            Ok(s) => s@ == reply.context() && !reply.context().is_null(),
            Err(_) => reply.context().is_null(),
        }
}

/// The dispatcher was asked for a context and answered with none.
pub open spec fn context_refused<'r, F: Fn(Call<'_>) -> Reply<'r>>(ffi: &F) -> bool {
    exists|reply: Reply<'r>| #[trigger]
        replied(ffi, Call::ContextCreate, reply) && reply.context().is_null()
}

impl SyncContext {
    /// Pairs `context` with a lock of its own.
    pub fn new(context: Context) -> (sync: SyncContext)
        ensures
            sync@ == context@,
    {
        SyncContext { context, mutex: new_lock() }
    }

    /// Makes a context and pairs it with a lock; fails if the foreign
    /// library returns no context.
    pub fn create<'r, F: Fn(Call<'_>) -> Reply<'r>>(ffi: &F) -> (sync: Result<
        SyncContext,
        ContextUnavailable,
    >)
        requires
            serves(ffi),
        ensures
            context_made(ffi, sync),
    {
        match Context::create(ffi) {
            Some(context) => Ok(SyncContext::new(context)),
            None => Err(ContextUnavailable),
        }
    }

    /// The handle of the context. It is never null.
    pub fn as_raw(&self) -> (raw: MlirContext)
        ensures
            raw == self@,
            !raw.is_null(),
    {
        self.context.as_raw()
    }

    /// Runs `f` on the context without taking the lock.
    ///
    /// This is for what the foreign library synchronizes internally, the
    /// making of uniqued values above all: any number of threads may be in
    /// here at once.
    pub fn without_mutex<F, T>(&self, f: F) -> (out: T) where F: FnOnce(MlirContext) -> T
        requires
            f.requires((self@,)),
        ensures
            f.ensures((self@,), out),
    {
        f(self.context.as_raw())
    }

    /// Runs `f` on the context while holding the lock, which is released
    /// when `f` is done. If the lock is held already, `f` is not run and
    /// comes back as it is: whether to wait and try again is up to the
    /// caller.
    ///
    /// This is for what the foreign library does not synchronize. The lock
    /// covers this one call only: two calls in a row are not atomic.
    pub fn with_mutex<F, T>(&self, f: F) -> (out: Result<T, F>) where F: FnOnce(MlirContext) -> T
        requires
            f.requires((self@,)),
        ensures
            out matches Ok(t) ==> f.ensures((self@,), t),
            out matches Err(back) ==> back == f,
    {
        // The lock guards no data, so a poisoned lock is as good as a clean
        // one: what matters is that it is held.
        let guard = match try_lock(&self.mutex) {
            Ok(guard) => Some(guard),
            Err(error) => match poisoned(error) {
                Some(poisoned) => Some(recover(poisoned)),
                None => None,
            },
        };
        self.run_if_locked(guard, f)
    }

    /// What [`SyncContext::with_mutex`] does once it knows whether it got
    /// the lock. With the guard in hand, `f` is run on the context, once,
    /// and what it returns is the result; the guard is let go after that.
    /// Without a guard `f` is not run and comes back as it is.
    pub fn run_if_locked<'a, F, T>(&self, guard: Option<MutexGuard<'a, ()>>, f: F) -> (out: Result<
        T,
        F,
    >) where F: FnOnce(MlirContext) -> T
        requires
            f.requires((self@,)),
        ensures
            guard is Some ==> (out matches Ok(t) && f.ensures((self@,), t)),
            guard is None ==> (out matches Err(back) && back == f),
    {
        match guard {
            Some(_held) => {
                // The guard lives to the end of this arm, and so past the
                // call.
                let out = f(self.context.as_raw());
                Ok(out)
            },
            None => Err(f),
        }
    }

    /// Releases the context. The lock goes with it.
    pub fn destroy<'r, F: Fn(Call<'_>) -> Reply<'r>>(self, ffi: &F)
        requires
            serves(ffi),
        ensures
            exists|reply: Reply<'r>| #[trigger]
                replied(ffi, Call::ContextDestroy { context: self@ }, reply),
    {
        assert(self@ == self.context@);
        let SyncContext { context, mutex: _ } = self;
        context.destroy(ffi)
    }
}

/// The context kept in `cell`, made on first use.
///
/// The cell is meant to live for the whole process: there is no way to tear
/// the context down. A cell that holds a context hands it out. An empty
/// cell asks the dispatcher for a context and keeps it: if there is none,
/// the cell stays empty and the error comes back; the process cannot go on
/// without a context. If the cell was filled in the meantime, by another
/// thread or by the dispatcher itself, the context just made is released
/// again and the one in the cell is handed out.
pub fn context<'a, 'r, F: Fn(Call<'_>) -> Reply<'r>>(
    cell: &'a OnceCell<SyncContext>,
    ffi: &F,
) -> (sync: Result<&'a SyncContext, ContextUnavailable>)
    requires
        serves(ffi),
    ensures
        sync matches Ok(s) ==> !s@.is_null(),
        sync is Err ==> context_refused(ffi),
{
    found_or_made(cell, get(cell), ffi)
}

/// What [`context`] does once it has looked into the cell. A context that
/// was found is handed out as it is, and none is made. If none was found,
/// one is made: if that fails the error comes back, and otherwise a context
/// comes back, the one just made or the one that got into the cell first.
pub fn found_or_made<'a, 'r, F: Fn(Call<'_>) -> Reply<'r>>(
    cell: &'a OnceCell<SyncContext>,
    found: Option<&'a SyncContext>,
    ffi: &F,
) -> (sync: Result<&'a SyncContext, ContextUnavailable>)
    requires
        serves(ffi),
    ensures
        sync matches Ok(s) ==> !s@.is_null(),
        sync is Err ==> context_refused(ffi),
        found matches Some(held) ==> (sync matches Ok(s) && s == held),
        found is None ==> exists|made: Result<SyncContext, ContextUnavailable>| #[trigger]
            context_made(ffi, made) && (made is Err <==> sync is Err),
{
    if let Some(held) = found {
        let _ = held.as_raw();
        return Ok(held);
    }
    let made = match SyncContext::create(ffi) {
        Ok(made) => made,
        Err(e) => {
            assert(context_made(ffi, Err(e)));
            return Err(e);
        },
    };
    assert(context_made(ffi, Ok(made)));
    let held = kept(try_insert(cell, made), ffi);
    let _ = held.as_raw();
    Ok(held)
}

/// What [`found_or_made`] does once it has tried to put the context it made
/// into the cell. If it went in, it is handed out. If the cell was filled
/// already, the context that came too late is released and the one in the
/// cell is handed out.
pub fn kept<'a, 'r, F: Fn(Call<'_>) -> Reply<'r>>(
    outcome: Result<&'a SyncContext, (&'a SyncContext, SyncContext)>,
    ffi: &F,
) -> (held: &'a SyncContext)
    requires
        serves(ffi),
    ensures
        outcome matches Ok(first) ==> held == first,
        outcome matches Err(both) ==> held == both.0 && exists|reply: Reply<'r>| #[trigger]
            replied(ffi, Call::ContextDestroy { context: both.1@ }, reply),
{
    match outcome {
        Ok(first) => first,
        Err((first, late)) => {
            late.destroy(ffi);
            first
        },
    }
}

} // verus!
