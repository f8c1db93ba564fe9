//! Regions: lists of blocks attached to an operation.

use vstd::prelude::*;
use core::marker::PhantomData;
use crate::foreign::{ask, replied, serves, Call, Reply};
use crate::private::Sealed;
use crate::block::{Block, BlockMut};
use crate::raw::MlirRegion;

verus! {

/// A list of basic blocks. Owned: whoever holds the value must release it
/// or hand it on.
#[derive(Debug)]
pub struct Region {
    pub(crate) inner: MlirRegion,
}

impl View for Region {
    type V = MlirRegion;

    closed spec fn view(&self) -> MlirRegion {
        self.inner
    }
}

impl Sealed for Region {
}

impl Region {
    #[verifier::type_invariant]
    spec fn live(self) -> bool {
        !self.inner.is_null()
    }

    /// Whether `wrapped` is what wrapping `raw` gives: nothing for the null
    /// handle, and otherwise a value that holds `raw`.
    pub open spec fn wraps(wrapped: Option<Region>, raw: MlirRegion) -> bool {
        match wrapped {
            Some(w) => w@ == raw && !raw.is_null(),
            None => raw.is_null(),
        }
    }

    /// Wraps a raw handle and takes over the duty to release it.
    ///
    /// The caller vouches that nothing else owns the handle.
    pub fn from_raw(raw: MlirRegion) -> (wrapped: Option<Region>)
        ensures
            Region::wraps(wrapped, raw),
    {
        if raw.is_null() {
            return None;
        }
        Some(Region { inner: raw })
    }

    /// The raw handle, for passing to the foreign interface. It is never
    /// null.
    pub fn as_raw(&self) -> (raw: MlirRegion)
        ensures
            raw == self@,
            !raw.is_null(),
    {
        proof {
            use_type_invariant(self);
        }
        self.inner
    }

    /// Gives up the wrapper without releasing what it holds: the duty to
    /// release passes to whoever takes the handle.
    pub fn into_raw(self) -> (raw: MlirRegion)
        ensures
            raw == self@,
            !raw.is_null(),
    {
        proof {
            use_type_invariant(&self);
        }
        self.inner
    }

    /// Releases the value. The wrapper is consumed, so this happens at most
    /// once.
    pub fn destroy<'r, F: Fn(Call<'_>) -> Reply<'r>>(self, ffi: &F)
        requires
            serves(ffi),
        ensures
            exists|reply: Reply<'r>| #[trigger]
                replied(ffi, Call::RegionDestroy { region: self@ }, reply),
    {
        let raw = self.into_raw();
        let _ = ask(ffi, Call::RegionDestroy { region: raw });
    }

    /// Whether the foreign library holds the two to be equal.
    pub fn eq<'r, F: Fn(Call<'_>) -> Reply<'r>>(&self, other: &Region, ffi: &F) -> (equal: bool)
        requires
            serves(ffi),
        ensures
            exists|reply: Reply<'r>| #[trigger]
                replied(ffi, Call::RegionEqual { a: self@, b: other@ }, reply) && equal
                    == reply.flag(),
    {
        let reply = ask(ffi, Call::RegionEqual { a: self.as_raw(), b: other.as_raw() });
        reply.flag()
    }

    /// A new, empty region, or `None` if the foreign library returns none.
    pub fn create<'r, F: Fn(Call<'_>) -> Reply<'r>>(ffi: &F) -> (region: Option<Region>)
        requires
            serves(ffi),
        ensures
            exists|reply: Reply<'r>| #[trigger]
                replied(ffi, Call::RegionCreate, reply) && Region::wraps(region, reply.region()),
    {
        let reply = ask(ffi, Call::RegionCreate);
        Region::from_raw(reply.region())
    }

    /// Appends `block` to the end of the region. The region takes the block
    /// over; what comes back is a view for working on it further.
    pub fn append_block<'r, F: Fn(Call<'_>) -> Reply<'r>>(&mut self, block: Block, ffi: &F) -> (view: BlockMut<'_>)
        requires
            serves(ffi),
        ensures
            final(self)@ == old(self)@,
            view@ == block@,
            exists|reply: Reply<'r>| #[trigger]
                replied(
                    ffi,
                    Call::RegionAppendOwnedBlock { region: old(self)@, block: block@ },
                    reply,
                ),
    {
        let raw = block.into_raw();
        let _ = ask(ffi, Call::RegionAppendOwnedBlock { region: self.as_raw(), block: raw });
        BlockMut::holding(raw)
    }
}

/// A read-only view of a region owned elsewhere.
#[derive(Clone, Copy, Debug)]
pub struct RegionRef<'a> {
    pub(crate) inner: MlirRegion,
    pub(crate) phantom: PhantomData<&'a ()>,
}

impl<'a> View for RegionRef<'a> {
    type V = MlirRegion;

    closed spec fn view(&self) -> MlirRegion {
        self.inner
    }
}

impl<'a> Sealed for RegionRef<'a> {
}

impl<'a> RegionRef<'a> {
    #[verifier::type_invariant]
    spec fn live(self) -> bool {
        !self.inner.is_null()
    }

    /// Whether `wrapped` is what wrapping `raw` gives: nothing for the null
    /// handle, and otherwise a value that holds `raw`.
    pub open spec fn wraps(wrapped: Option<RegionRef<'a>>, raw: MlirRegion) -> bool {
        match wrapped {
            Some(w) => w@ == raw && !raw.is_null(),
            None => raw.is_null(),
        }
    }

    /// Wraps a raw handle as a read-only view.
    ///
    /// The caller vouches that no mutable view of the same object is live.
    pub fn from_raw(raw: MlirRegion) -> (wrapped: Option<RegionRef<'a>>)
        ensures
            RegionRef::wraps(wrapped, raw),
    {
        if raw.is_null() {
            return None;
        }
        Some(RegionRef { inner: raw, phantom: PhantomData })
    }

    /// The raw handle, for passing to the foreign interface. It is never
    /// null.
    pub fn as_raw(&self) -> (raw: MlirRegion)
        ensures
            raw == self@,
            !raw.is_null(),
    {
        proof {
            use_type_invariant(self);
        }
        self.inner
    }

    /// Whether the foreign library holds the two to be equal.
    pub fn eq<'r, F: Fn(Call<'_>) -> Reply<'r>>(&self, other: &RegionRef<'_>, ffi: &F) -> (equal: bool)
        requires
            serves(ffi),
        ensures
            exists|reply: Reply<'r>| #[trigger]
                replied(ffi, Call::RegionEqual { a: self@, b: other@ }, reply) && equal
                    == reply.flag(),
    {
        let reply = ask(ffi, Call::RegionEqual { a: self.as_raw(), b: other.as_raw() });
        reply.flag()
    }
}

/// A view of a region owned elsewhere through which the region may be
/// changed. While it lives, no other view of the region may be used.
#[derive(Debug)]
pub struct RegionMut<'a> {
    pub(crate) inner: MlirRegion,
    pub(crate) phantom: PhantomData<&'a ()>,
}

impl<'a> View for RegionMut<'a> {
    type V = MlirRegion;

    closed spec fn view(&self) -> MlirRegion {
        self.inner
    }
}

impl<'a> Sealed for RegionMut<'a> {
}

impl<'a> RegionMut<'a> {
    #[verifier::type_invariant]
    spec fn live(self) -> bool {
        !self.inner.is_null()
    }

    /// Whether `wrapped` is what wrapping `raw` gives: nothing for the null
    /// handle, and otherwise a value that holds `raw`.
    pub open spec fn wraps(wrapped: Option<RegionMut<'a>>, raw: MlirRegion) -> bool {
        match wrapped {
            Some(w) => w@ == raw && !raw.is_null(),
            None => raw.is_null(),
        }
    }

    /// Wraps a raw handle as a view that may mutate.
    ///
    /// The caller vouches that no other view of the same object is live.
    pub fn from_raw(raw: MlirRegion) -> (wrapped: Option<RegionMut<'a>>)
        ensures
            RegionMut::wraps(wrapped, raw),
    {
        if raw.is_null() {
            return None;
        }
        Some(RegionMut { inner: raw, phantom: PhantomData })
    }

    /// The raw handle, for passing to the foreign interface. It is never
    /// null.
    pub fn as_raw(&self) -> (raw: MlirRegion)
        ensures
            raw == self@,
            !raw.is_null(),
    {
        proof {
            use_type_invariant(self);
        }
        self.inner
    }

    /// A view of the region behind `raw`, which is not null.
    pub(crate) fn holding(raw: MlirRegion) -> (view: RegionMut<'a>)
        requires
            !raw.is_null(),
        ensures
            view@ == raw,
    {
        RegionMut { inner: raw, phantom: PhantomData }
    }

    /// A read-only view of the same region, for as long as this one is
    /// borrowed.
    pub fn as_ref(&self) -> (view: RegionRef<'_>)
        ensures
            view@ == self@,
    {
        RegionRef { inner: self.as_raw(), phantom: PhantomData }
    }

    /// Whether the foreign library holds the two to be equal.
    pub fn eq<'r, F: Fn(Call<'_>) -> Reply<'r>>(&self, other: &RegionMut<'_>, ffi: &F) -> (equal: bool)
        requires
            serves(ffi),
        ensures
            exists|reply: Reply<'r>| #[trigger]
                replied(ffi, Call::RegionEqual { a: self@, b: other@ }, reply) && equal
                    == reply.flag(),
    {
        let reply = ask(ffi, Call::RegionEqual { a: self.as_raw(), b: other.as_raw() });
        reply.flag()
    }

    /// Appends `block` to the end of the region. The region takes the block
    /// over; what comes back is a view for working on it further.
    pub fn append_block<'r, F: Fn(Call<'_>) -> Reply<'r>>(&mut self, block: Block, ffi: &F) -> (view: BlockMut<'_>)
        requires
            serves(ffi),
        ensures
            final(self)@ == old(self)@,
            view@ == block@,
            exists|reply: Reply<'r>| #[trigger]
                replied(
                    ffi,
                    Call::RegionAppendOwnedBlock { region: old(self)@, block: block@ },
                    reply,
                ),
    {
        let raw = block.into_raw();
        let _ = ask(ffi, Call::RegionAppendOwnedBlock { region: self.as_raw(), block: raw });
        BlockMut::holding(raw)
    }
}

/// The raw handles of `regions`, in order.
pub open spec fn region_handles(regions: Seq<Region>) -> Seq<MlirRegion> {
    regions.map_values(|r: Region| r@)
}

/// Lays `regions` out as the foreign interface takes them.
pub fn raw_regions(regions: &Vec<Region>) -> (raws: Vec<MlirRegion>)
    ensures
        raws@ == region_handles(regions@),
{
    let mut raws: Vec<MlirRegion> = Vec::new();
    let mut i: usize = 0;
    while i < regions.len()
        invariant
            i <= regions.len(),
            raws@ == region_handles(regions@.take(i as int)),
        decreases regions.len() - i,
    {
        raws.push(regions[i].as_raw());
        assert(region_handles(regions@.take(i + 1)) =~= region_handles(
            regions@.take(i as int),
        ).push(regions@[i as int]@));
        i += 1;
    }
    assert(regions@.take(i as int) =~= regions@);
    raws
}

} // verus!
