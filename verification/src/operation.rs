//! Operations, and the builder that assembles one.

use vstd::prelude::*;
use core::marker::PhantomData;
use crate::attribute::{named_attribute_handles, raw_named_attributes, Attribute, NamedAttribute};
use crate::fmt::{render, rendered, FmtError};
use crate::foreign::{ask, replied, serves, Call, Reply};
use crate::identifier::Identifier;
use crate::location::Location;
use crate::private::Sealed;
use crate::raw::{
    MlirLocation, MlirNamedAttribute, MlirOperation, MlirRegion, MlirType, MlirValue,
};
use crate::region::{raw_regions, region_handles, Region, RegionMut};
use crate::string_ref::StringRef;
use crate::ty::{raw_types, type_handles, Type};
use crate::value::{raw_values, value_handles, Value};

verus! {

/// An operation. Owned: whoever holds the value must release it or hand it
/// on.
#[derive(Debug)]
pub struct Operation {
    pub(crate) inner: MlirOperation,
}

impl View for Operation {
    type V = MlirOperation;

    closed spec fn view(&self) -> MlirOperation {
        self.inner
    }
}

impl Sealed for Operation {
}

impl Operation {
    #[verifier::type_invariant]
    spec fn live(self) -> bool {
        !self.inner.is_null()
    }

    /// Whether `wrapped` is what wrapping `raw` gives: nothing for the null
    /// handle, and otherwise a value that holds `raw`.
    pub open spec fn wraps(wrapped: Option<Operation>, raw: MlirOperation) -> bool {
        match wrapped {
            Some(w) => w@ == raw && !raw.is_null(),
            None => raw.is_null(),
        }
    }

    /// Wraps a raw handle and takes over the duty to release it.
    ///
    /// The caller vouches that nothing else owns the handle.
    pub fn from_raw(raw: MlirOperation) -> (wrapped: Option<Operation>)
        ensures
            Operation::wraps(wrapped, raw),
    {
        if raw.is_null() {
            return None;
        }
        Some(Operation { inner: raw })
    }

    /// The raw handle, for passing to the foreign interface. It is never
    /// null.
    pub fn as_raw(&self) -> (raw: MlirOperation)
        ensures
            raw == self@,
            !raw.is_null(),
    {
        proof {
            use_type_invariant(self);
        }
        self.inner
    }

    /// Gives up the wrapper without releasing what it holds: the duty to
    /// release passes to whoever takes the handle.
    pub fn into_raw(self) -> (raw: MlirOperation)
        ensures
            raw == self@,
            !raw.is_null(),
    {
        proof {
            use_type_invariant(&self);
        }
        self.inner
    }

    /// Releases the value. The wrapper is consumed, so this happens at most
    /// once.
    pub fn destroy<'r, F: Fn(Call<'_>) -> Reply<'r>>(self, ffi: &F)
        requires
            serves(ffi),
        ensures
            exists|reply: Reply<'r>| #[trigger]
                replied(ffi, Call::OperationDestroy { operation: self@ }, reply),
    {
        let raw = self.into_raw();
        let _ = ask(ffi, Call::OperationDestroy { operation: raw });
    }

    /// Whether the foreign library holds the two to be equal.
    pub fn eq<'r, F: Fn(Call<'_>) -> Reply<'r>>(&self, other: &Operation, ffi: &F) -> (equal: bool)
        requires
            serves(ffi),
        ensures
            exists|reply: Reply<'r>| #[trigger]
                replied(ffi, Call::OperationEqual { a: self@, b: other@ }, reply) && equal
                    == reply.flag(),
    {
        let reply = ask(ffi, Call::OperationEqual { a: self.as_raw(), b: other.as_raw() });
        reply.flag()
    }

    /// The text the foreign library prints for the value, or the error if
    /// what it printed is not well-formed UTF-8.
    pub fn print<'r, F: Fn(Call<'_>) -> Reply<'r>>(&self, ffi: &F) -> (text: Result<String, FmtError>)
        requires
            serves(ffi),
        ensures
            exists|reply: Reply<'r>| #[trigger]
                replied(ffi, Call::OperationPrint { operation: self@ }, reply) && rendered(
                    reply.printed(),
                    text,
                ),
    {
        let reply = ask(ffi, Call::OperationPrint { operation: self.as_raw() });
        render(&reply)
    }

    /// Makes the operation that `state` describes. The state is used up
    /// whether or not an operation comes of it; the regions it holds pass to
    /// the foreign library either way. `None` if the foreign library refuses
    /// the description.
    pub fn create<'r, F: Fn(Call<'_>) -> Reply<'r>>(state: OperationState<'_>, ffi: &F) -> (op: Option<Operation>)
        requires
            serves(ffi),
        ensures
            exists|call: Call<'_>, reply: Reply<'r>| #[trigger]
                replied(ffi, call, reply) && describes(call, state@) && Operation::wraps(
                    op,
                    reply.operation(),
                ),
    {
        let results = raw_types(state.results.as_slice());
        let operands = raw_values(state.operands.as_slice());
        let regions = raw_regions(&state.regions);
        let attributes = raw_named_attributes(state.attributes.as_slice());
        let reply = ask(
            ffi,
            Call::OperationCreate {
                name: state.name.as_raw(),
                location: state.location.as_raw(),
                results: results.as_slice(),
                operands: operands.as_slice(),
                regions: regions.as_slice(),
                attributes: attributes.as_slice(),
            },
        );
        Operation::from_raw(reply.operation())
    }
}

/// A read-only view of an operation owned elsewhere.
#[derive(Clone, Copy, Debug)]
pub struct OperationRef<'a> {
    pub(crate) inner: MlirOperation,
    pub(crate) phantom: PhantomData<&'a ()>,
}

impl<'a> View for OperationRef<'a> {
    type V = MlirOperation;

    closed spec fn view(&self) -> MlirOperation {
        self.inner
    }
}

impl<'a> Sealed for OperationRef<'a> {
}

impl<'a> OperationRef<'a> {
    #[verifier::type_invariant]
    spec fn live(self) -> bool {
        !self.inner.is_null()
    }

    /// Whether `wrapped` is what wrapping `raw` gives: nothing for the null
    /// handle, and otherwise a value that holds `raw`.
    pub open spec fn wraps(wrapped: Option<OperationRef<'a>>, raw: MlirOperation) -> bool {
        match wrapped {
            Some(w) => w@ == raw && !raw.is_null(),
            None => raw.is_null(),
        }
    }

    /// Wraps a raw handle as a read-only view.
    ///
    /// The caller vouches that no mutable view of the same object is live.
    pub fn from_raw(raw: MlirOperation) -> (wrapped: Option<OperationRef<'a>>)
        ensures
            OperationRef::wraps(wrapped, raw),
    {
        if raw.is_null() {
            return None;
        }
        Some(OperationRef { inner: raw, phantom: PhantomData })
    }

    /// The raw handle, for passing to the foreign interface. It is never
    /// null.
    pub fn as_raw(&self) -> (raw: MlirOperation)
        ensures
            raw == self@,
            !raw.is_null(),
    {
        proof {
            use_type_invariant(self);
        }
        self.inner
    }

    /// Whether the foreign library holds the two to be equal.
    pub fn eq<'r, F: Fn(Call<'_>) -> Reply<'r>>(&self, other: &OperationRef<'_>, ffi: &F) -> (equal: bool)
        requires
            serves(ffi),
        ensures
            exists|reply: Reply<'r>| #[trigger]
                replied(ffi, Call::OperationEqual { a: self@, b: other@ }, reply) && equal
                    == reply.flag(),
    {
        let reply = ask(ffi, Call::OperationEqual { a: self.as_raw(), b: other.as_raw() });
        reply.flag()
    }

    /// The text the foreign library prints for the value, or the error if
    /// what it printed is not well-formed UTF-8.
    pub fn print<'r, F: Fn(Call<'_>) -> Reply<'r>>(&self, ffi: &F) -> (text: Result<String, FmtError>)
        requires
            serves(ffi),
        ensures
            exists|reply: Reply<'r>| #[trigger]
                replied(ffi, Call::OperationPrint { operation: self@ }, reply) && rendered(
                    reply.printed(),
                    text,
                ),
    {
        let reply = ask(ffi, Call::OperationPrint { operation: self.as_raw() });
        render(&reply)
    }
}

/// A view of an operation owned elsewhere through which the operation may
/// be changed. While it lives, no other view of the operation may be used.
#[derive(Debug)]
pub struct OperationMut<'a> {
    pub(crate) inner: MlirOperation,
    pub(crate) phantom: PhantomData<&'a ()>,
}

impl<'a> View for OperationMut<'a> {
    type V = MlirOperation;

    closed spec fn view(&self) -> MlirOperation {
        self.inner
    }
}

impl<'a> Sealed for OperationMut<'a> {
}

impl<'a> OperationMut<'a> {
    #[verifier::type_invariant]
    spec fn live(self) -> bool {
        !self.inner.is_null()
    }

    /// Whether `wrapped` is what wrapping `raw` gives: nothing for the null
    /// handle, and otherwise a value that holds `raw`.
    pub open spec fn wraps(wrapped: Option<OperationMut<'a>>, raw: MlirOperation) -> bool {
        match wrapped {
            Some(w) => w@ == raw && !raw.is_null(),
            None => raw.is_null(),
        }
    }

    /// Wraps a raw handle as a view that may mutate.
    ///
    /// The caller vouches that no other view of the same object is live.
    pub fn from_raw(raw: MlirOperation) -> (wrapped: Option<OperationMut<'a>>)
        ensures
            OperationMut::wraps(wrapped, raw),
    {
        if raw.is_null() {
            return None;
        }
        Some(OperationMut { inner: raw, phantom: PhantomData })
    }

    /// The raw handle, for passing to the foreign interface. It is never
    /// null.
    pub fn as_raw(&self) -> (raw: MlirOperation)
        ensures
            raw == self@,
            !raw.is_null(),
    {
        proof {
            use_type_invariant(self);
        }
        self.inner
    }

    /// A view of the operation behind `raw`, which is not null.
    pub(crate) fn holding(raw: MlirOperation) -> (view: OperationMut<'a>)
        requires
            !raw.is_null(),
        ensures
            view@ == raw,
    {
        OperationMut { inner: raw, phantom: PhantomData }
    }

    /// A read-only view of the same operation, for as long as this one is
    /// borrowed.
    pub fn as_ref(&self) -> (view: OperationRef<'_>)
        ensures
            view@ == self@,
    {
        OperationRef { inner: self.as_raw(), phantom: PhantomData }
    }

    /// Whether the foreign library holds the two to be equal.
    pub fn eq<'r, F: Fn(Call<'_>) -> Reply<'r>>(&self, other: &OperationMut<'_>, ffi: &F) -> (equal: bool)
        requires
            serves(ffi),
        ensures
            exists|reply: Reply<'r>| #[trigger]
                replied(ffi, Call::OperationEqual { a: self@, b: other@ }, reply) && equal
                    == reply.flag(),
    {
        let reply = ask(ffi, Call::OperationEqual { a: self.as_raw(), b: other.as_raw() });
        reply.flag()
    }

    /// The text the foreign library prints for the value, or the error if
    /// what it printed is not well-formed UTF-8.
    pub fn print<'r, F: Fn(Call<'_>) -> Reply<'r>>(&self, ffi: &F) -> (text: Result<String, FmtError>)
        requires
            serves(ffi),
        ensures
            exists|reply: Reply<'r>| #[trigger]
                replied(ffi, Call::OperationPrint { operation: self@ }, reply) && rendered(
                    reply.printed(),
                    text,
                ),
    {
        let reply = ask(ffi, Call::OperationPrint { operation: self.as_raw() });
        render(&reply)
    }
}

/// The pieces of an operation that is yet to be made: its name and
/// location, and the results, operands, regions and attributes gathered so
/// far. It is no part of any IR; [`Operation::create`] uses it up.
pub struct OperationState<'name> {
    name: StringRef<'name>,
    location: Location,
    results: Vec<Type>,
    operands: Vec<Value>,
    regions: Vec<Region>,
    attributes: Vec<NamedAttribute>,
}

/// What an [`OperationState`] holds, each list in the order it was added.
pub struct OperationStateView {
    pub name: Seq<u8>,
    pub location: MlirLocation,
    pub results: Seq<MlirType>,
    pub operands: Seq<MlirValue>,
    pub regions: Seq<MlirRegion>,
    pub attributes: Seq<MlirNamedAttribute>,
}

impl<'name> View for OperationState<'name> {
    type V = OperationStateView;

    closed spec fn view(&self) -> OperationStateView {
        OperationStateView {
            name: self.name@,
            location: self.location@,
            results: type_handles(self.results@),
            operands: value_handles(self.operands@),
            regions: region_handles(self.regions@),
            attributes: named_attribute_handles(self.attributes@),
        }
    }
}

/// Whether `call` asks for the operation that `state` describes.
pub open spec fn describes(call: Call<'_>, state: OperationStateView) -> bool {
    call matches Call::OperationCreate { name, location, results, operands, regions, attributes }
        && name@ == state.name && location == state.location && results@ == state.results
        && operands@ == state.operands && regions@ == state.regions && attributes@
        == state.attributes
}

impl<'name> OperationState<'name> {
    /// The state of an operation called `name` at `loc`, with nothing added
    /// yet.
    pub fn get(name: StringRef<'name>, loc: Location) -> (state: OperationState<'name>)
        ensures
            state@ == (OperationStateView {
                name: name@,
                location: loc@,
                results: Seq::empty(),
                operands: Seq::empty(),
                regions: Seq::empty(),
                attributes: Seq::empty(),
            }),
    {
        let state = OperationState {
            name,
            location: loc,
            results: Vec::new(),
            operands: Vec::new(),
            regions: Vec::new(),
            attributes: Vec::new(),
        };
        assert(state@.results =~= Seq::empty());
        assert(state@.operands =~= Seq::empty());
        assert(state@.regions =~= Seq::empty());
        assert(state@.attributes =~= Seq::empty());
        state
    }

    /// Adds the attribute `attribute` under the name `ident`. A name that
    /// is there already is not looked for: both entries stay.
    pub fn add_attribute(&mut self, ident: Identifier, attribute: Attribute)
        ensures
            final(self)@ == (OperationStateView {
                attributes: old(self)@.attributes.push(
                    MlirNamedAttribute { name: ident@, attribute: attribute@ },
                ),
                ..old(self)@
            }),
    {
        let named = [NamedAttribute::get(ident, attribute)];
        assert(named@ =~= seq![named@[0]]);
        assert(named_attribute_handles(named@) =~= seq![named@[0]@]);
        self.add_attributes(named.as_slice());
        assert(old(self)@.attributes + seq![named@[0]@] =~= old(self)@.attributes.push(
            named@[0]@,
        ));
    }

    /// Adds `attributes`, in order, after those already there. Names that
    /// occur twice are kept twice.
    pub fn add_attributes(&mut self, attributes: &[NamedAttribute])
        ensures
            final(self)@ == (OperationStateView {
                attributes: old(self)@.attributes + named_attribute_handles(attributes@),
                ..old(self)@
            }),
    {
        let mut i: usize = 0;
        while i < attributes.len()
            invariant
                i <= attributes.len(),
                self.attributes@ == old(self).attributes@ + attributes@.take(i as int),
                self.name == old(self).name,
                self.location == old(self).location,
                self.results == old(self).results,
                self.operands == old(self).operands,
                self.regions == old(self).regions,
            decreases attributes.len() - i,
        {
            self.attributes.push(attributes[i]);
            assert(self.attributes@ =~= old(self).attributes@ + attributes@.take(i + 1));
            i += 1;
        }
        assert(attributes@.take(i as int) =~= attributes@);
        assert(named_attribute_handles(self.attributes@) =~= old(self)@.attributes
            + named_attribute_handles(attributes@));
    }

    /// Adds `results`, in order, after the result types already there.
    pub fn add_results(&mut self, results: &[Type])
        ensures
            final(self)@ == (OperationStateView {
                results: old(self)@.results + type_handles(results@),
                ..old(self)@
            }),
    {
        let mut i: usize = 0;
        while i < results.len()
            invariant
                i <= results.len(),
                self.results@ == old(self).results@ + results@.take(i as int),
                self.name == old(self).name,
                self.location == old(self).location,
                self.operands == old(self).operands,
                self.regions == old(self).regions,
                self.attributes == old(self).attributes,
            decreases results.len() - i,
        {
            self.results.push(results[i]);
            assert(self.results@ =~= old(self).results@ + results@.take(i + 1));
            i += 1;
        }
        assert(results@.take(i as int) =~= results@);
        assert(type_handles(self.results@) =~= old(self)@.results + type_handles(results@));
    }

    /// Adds `operands`, in order, after the operands already there.
    pub fn add_operands(&mut self, operands: &[Value])
        ensures
            final(self)@ == (OperationStateView {
                operands: old(self)@.operands + value_handles(operands@),
                ..old(self)@
            }),
    {
        let mut i: usize = 0;
        while i < operands.len()
            invariant
                i <= operands.len(),
                self.operands@ == old(self).operands@ + operands@.take(i as int),
                self.name == old(self).name,
                self.location == old(self).location,
                self.results == old(self).results,
                self.regions == old(self).regions,
                self.attributes == old(self).attributes,
            decreases operands.len() - i,
        {
            self.operands.push(operands[i]);
            assert(self.operands@ =~= old(self).operands@ + operands@.take(i + 1));
            i += 1;
        }
        assert(operands@.take(i as int) =~= operands@);
        assert(value_handles(self.operands@) =~= old(self)@.operands + value_handles(operands@));
    }

    /// Adds `region` after the regions already there. The state takes the
    /// region over: the caller keeps no wrapper that could release it. What
    /// comes back is a view for filling the region further.
    pub fn add_region(&mut self, region: Region) -> (view: RegionMut<'_>)
        ensures
            view@ == region@,
            final(self)@ == (OperationStateView {
                regions: old(self)@.regions.push(region@),
                ..old(self)@
            }),
    {
        let raw = region.as_raw();
        self.regions.push(region);
        assert(region_handles(self.regions@) =~= old(self)@.regions.push(region@));
        RegionMut::holding(raw)
    }

    /// Adds `regions`, in order, after the regions already there. The state
    /// takes every one of them over.
    pub fn add_regions(&mut self, regions: Vec<Region>)
        ensures
            final(self)@ == (OperationStateView {
                regions: old(self)@.regions + region_handles(regions@),
                ..old(self)@
            }),
    {
        let ghost added = regions@;
        let mut regions = regions;
        self.regions.append(&mut regions);
        assert(region_handles(self.regions@) =~= old(self)@.regions + region_handles(added));
    }

    /// How many regions the state holds.
    pub fn num_regions(&self) -> (n: usize)
        ensures
            n == self@.regions.len(),
    {
        self.regions.len()
    }
}

} // verus!
