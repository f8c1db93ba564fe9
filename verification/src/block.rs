//! Blocks: lists of operations.

use vstd::prelude::*;
use core::marker::PhantomData;
use crate::foreign::{ask, replied, serves, Call, Reply};
use crate::private::Sealed;
use crate::location::{raw_locations, location_handles, Location};
use crate::operation::OperationRef;
use crate::raw::{MlirBlock, MlirLocation, MlirType};
use crate::ty::{raw_types, type_handles, Type};

verus! {

/// A list of operations (a basic block). Owned: whoever holds the value
/// must release it or hand it on.
#[derive(Debug)]
pub struct Block {
    pub(crate) inner: MlirBlock,
}

impl View for Block {
    type V = MlirBlock;

    closed spec fn view(&self) -> MlirBlock {
        self.inner
    }
}

impl Sealed for Block {
}

impl Block {
    #[verifier::type_invariant]
    spec fn live(self) -> bool {
        !self.inner.is_null()
    }

    /// Whether `wrapped` is what wrapping `raw` gives: nothing for the null
    /// handle, and otherwise a value that holds `raw`.
    pub open spec fn wraps(wrapped: Option<Block>, raw: MlirBlock) -> bool {
        match wrapped {
            Some(w) => w@ == raw && !raw.is_null(),
            None => raw.is_null(),
        }
    }

    /// Wraps a raw handle and takes over the duty to release it.
    ///
    /// The caller vouches that nothing else owns the handle.
    pub fn from_raw(raw: MlirBlock) -> (wrapped: Option<Block>)
        ensures
            Block::wraps(wrapped, raw),
    {
        if raw.is_null() {
            return None;
        }
        Some(Block { inner: raw })
    }

    /// The raw handle, for passing to the foreign interface. It is never
    /// null.
    pub fn as_raw(&self) -> (raw: MlirBlock)
        ensures
            raw == self@,
            !raw.is_null(),
    {
        proof {
            use_type_invariant(self);
        }
        self.inner
    }

    /// Gives up the wrapper without releasing what it holds: the duty to
    /// release passes to whoever takes the handle.
    pub fn into_raw(self) -> (raw: MlirBlock)
        ensures
            raw == self@,
            !raw.is_null(),
    {
        proof {
            use_type_invariant(&self);
        }
        self.inner
    }

    /// Releases the value. The wrapper is consumed, so this happens at most
    /// once.
    pub fn destroy<'r, F: Fn(Call<'_>) -> Reply<'r>>(self, ffi: &F)
        requires
            serves(ffi),
        ensures
            exists|reply: Reply<'r>| #[trigger]
                replied(ffi, Call::BlockDestroy { block: self@ }, reply),
    {
        let raw = self.into_raw();
        let _ = ask(ffi, Call::BlockDestroy { block: raw });
    }

    /// Whether the foreign library holds the two to be equal.
    pub fn eq<'r, F: Fn(Call<'_>) -> Reply<'r>>(&self, other: &Block, ffi: &F) -> (equal: bool)
        requires
            serves(ffi),
        ensures
            exists|reply: Reply<'r>| #[trigger]
                replied(ffi, Call::BlockEqual { a: self@, b: other@ }, reply) && equal
                    == reply.flag(),
    {
        let reply = ask(ffi, Call::BlockEqual { a: self.as_raw(), b: other.as_raw() });
        reply.flag()
    }

    /// A new block without arguments, or `None` if the foreign library
    /// returns none.
    pub fn create<'r, F: Fn(Call<'_>) -> Reply<'r>>(ffi: &F) -> (block: Option<Block>)
        requires
            serves(ffi),
        ensures
            exists|call: Call<'_>, reply: Reply<'r>| #[trigger]
                replied(ffi, call, reply) && (call matches Call::BlockCreate { args, locs }
                    && args@.len() == 0 && locs@.len() == 0) && Block::wraps(
                    block,
                    reply.block(),
                ),
    {
        let no_types: Vec<MlirType> = Vec::new();
        let no_locations: Vec<MlirLocation> = Vec::new();
        let reply = ask(
            ffi,
            Call::BlockCreate { args: no_types.as_slice(), locs: no_locations.as_slice() },
        );
        Block::from_raw(reply.block())
    }

    /// A new block with one argument for each of `args`, the i-th declared
    /// at the i-th of `locs`; `None` if the foreign library returns none.
    pub fn create_with_args<'r, F: Fn(Call<'_>) -> Reply<'r>>(args: &[Type], locs: &[Location], ffi: &F) -> (block: Option<Block>)
        requires
            serves(ffi),
            args.len() == locs.len(),
        ensures
            exists|call: Call<'_>, reply: Reply<'r>| #[trigger]
                replied(ffi, call, reply) && (call matches Call::BlockCreate { args: a, locs: l }
                    && a@ == type_handles(args@) && l@ == location_handles(locs@)) && Block::wraps(
                    block,
                    reply.block(),
                ),
    {
        let raw_args = raw_types(args);
        let raw_locs = raw_locations(locs);
        let reply = ask(
            ffi,
            Call::BlockCreate { args: raw_args.as_slice(), locs: raw_locs.as_slice() },
        );
        Block::from_raw(reply.block())
    }

    /// Appends an argument of type `ty`, declared at `loc`, to the block.
    pub fn add_argument<'r, F: Fn(Call<'_>) -> Reply<'r>>(&mut self, ty: Type, loc: Location, ffi: &F)
        requires
            serves(ffi),
        ensures
            final(self)@ == old(self)@,
            exists|reply: Reply<'r>| #[trigger]
                replied(
                    ffi,
                    Call::BlockAddArgument { block: old(self)@, ty: ty@, loc: loc@ },
                    reply,
                ),
    {
        let _ = ask(
            ffi,
            Call::BlockAddArgument { block: self.as_raw(), ty: ty.as_raw(), loc: loc.as_raw() },
        );
    }

    /// The operation that ends the block, if it has one.
    pub fn terminator<'r, F: Fn(Call<'_>) -> Reply<'r>>(&self, ffi: &F) -> (op: Option<OperationRef<'_>>)
        requires
            serves(ffi),
        ensures
            exists|reply: Reply<'r>| #[trigger]
                replied(ffi, Call::BlockGetTerminator { block: self@ }, reply)
                    && OperationRef::wraps(op, reply.operation()),
    {
        let reply = ask(ffi, Call::BlockGetTerminator { block: self.as_raw() });
        OperationRef::from_raw(reply.operation())
    }

    /// The closest operation around the block, or `None` if the block is
    /// not linked into one.
    pub fn parent_operation<'r, F: Fn(Call<'_>) -> Reply<'r>>(&self, ffi: &F) -> (op: Option<OperationRef<'_>>)
        requires
            serves(ffi),
        ensures
            exists|reply: Reply<'r>| #[trigger]
                replied(ffi, Call::BlockGetParentOperation { block: self@ }, reply)
                    && OperationRef::wraps(op, reply.operation()),
    {
        let reply = ask(ffi, Call::BlockGetParentOperation { block: self.as_raw() });
        OperationRef::from_raw(reply.operation())
    }
}

/// A read-only view of a block owned elsewhere.
#[derive(Clone, Copy, Debug)]
pub struct BlockRef<'a> {
    pub(crate) inner: MlirBlock,
    pub(crate) phantom: PhantomData<&'a ()>,
}

impl<'a> View for BlockRef<'a> {
    type V = MlirBlock;

    closed spec fn view(&self) -> MlirBlock {
        self.inner
    }
}

impl<'a> Sealed for BlockRef<'a> {
}

impl<'a> BlockRef<'a> {
    #[verifier::type_invariant]
    spec fn live(self) -> bool {
        !self.inner.is_null()
    }

    /// Whether `wrapped` is what wrapping `raw` gives: nothing for the null
    /// handle, and otherwise a value that holds `raw`.
    pub open spec fn wraps(wrapped: Option<BlockRef<'a>>, raw: MlirBlock) -> bool {
        match wrapped {
            Some(w) => w@ == raw && !raw.is_null(),
            None => raw.is_null(),
        }
    }

    /// Wraps a raw handle as a read-only view.
    ///
    /// The caller vouches that no mutable view of the same object is live.
    pub fn from_raw(raw: MlirBlock) -> (wrapped: Option<BlockRef<'a>>)
        ensures
            BlockRef::wraps(wrapped, raw),
    {
        if raw.is_null() {
            return None;
        }
        Some(BlockRef { inner: raw, phantom: PhantomData })
    }

    /// The raw handle, for passing to the foreign interface. It is never
    /// null.
    pub fn as_raw(&self) -> (raw: MlirBlock)
        ensures
            raw == self@,
            !raw.is_null(),
    {
        proof {
            use_type_invariant(self);
        }
        self.inner
    }

    /// Whether the foreign library holds the two to be equal.
    pub fn eq<'r, F: Fn(Call<'_>) -> Reply<'r>>(&self, other: &BlockRef<'_>, ffi: &F) -> (equal: bool)
        requires
            serves(ffi),
        ensures
            exists|reply: Reply<'r>| #[trigger]
                replied(ffi, Call::BlockEqual { a: self@, b: other@ }, reply) && equal
                    == reply.flag(),
    {
        let reply = ask(ffi, Call::BlockEqual { a: self.as_raw(), b: other.as_raw() });
        reply.flag()
    }

    /// The operation that ends the block, if it has one.
    pub fn terminator<'r, F: Fn(Call<'_>) -> Reply<'r>>(&self, ffi: &F) -> (op: Option<OperationRef<'a>>)
        requires
            serves(ffi),
        ensures
            exists|reply: Reply<'r>| #[trigger]
                replied(ffi, Call::BlockGetTerminator { block: self@ }, reply)
                    && OperationRef::wraps(op, reply.operation()),
    {
        let reply = ask(ffi, Call::BlockGetTerminator { block: self.as_raw() });
        OperationRef::from_raw(reply.operation())
    }

    /// The closest operation around the block, or `None` if the block is
    /// not linked into one.
    pub fn parent_operation<'r, F: Fn(Call<'_>) -> Reply<'r>>(&self, ffi: &F) -> (op: Option<OperationRef<'a>>)
        requires
            serves(ffi),
        ensures
            exists|reply: Reply<'r>| #[trigger]
                replied(ffi, Call::BlockGetParentOperation { block: self@ }, reply)
                    && OperationRef::wraps(op, reply.operation()),
    {
        let reply = ask(ffi, Call::BlockGetParentOperation { block: self.as_raw() });
        OperationRef::from_raw(reply.operation())
    }
}

/// A view of a block owned elsewhere through which the block may be
/// changed. While it lives, no other view of the block may be used.
#[derive(Debug)]
pub struct BlockMut<'a> {
    pub(crate) inner: MlirBlock,
    pub(crate) phantom: PhantomData<&'a ()>,
}

impl<'a> View for BlockMut<'a> {
    type V = MlirBlock;

    closed spec fn view(&self) -> MlirBlock {
        self.inner
    }
}

impl<'a> Sealed for BlockMut<'a> {
}

impl<'a> BlockMut<'a> {
    #[verifier::type_invariant]
    spec fn live(self) -> bool {
        !self.inner.is_null()
    }

    /// Whether `wrapped` is what wrapping `raw` gives: nothing for the null
    /// handle, and otherwise a value that holds `raw`.
    pub open spec fn wraps(wrapped: Option<BlockMut<'a>>, raw: MlirBlock) -> bool {
        match wrapped {
            Some(w) => w@ == raw && !raw.is_null(),
            None => raw.is_null(),
        }
    }

    /// Wraps a raw handle as a view that may mutate.
    ///
    /// The caller vouches that no other view of the same object is live.
    pub fn from_raw(raw: MlirBlock) -> (wrapped: Option<BlockMut<'a>>)
        ensures
            BlockMut::wraps(wrapped, raw),
    {
        if raw.is_null() {
            return None;
        }
        Some(BlockMut { inner: raw, phantom: PhantomData })
    }

    /// The raw handle, for passing to the foreign interface. It is never
    /// null.
    pub fn as_raw(&self) -> (raw: MlirBlock)
        ensures
            raw == self@,
            !raw.is_null(),
    {
        proof {
            use_type_invariant(self);
        }
        self.inner
    }

    /// A view of the block behind `raw`, which is not null.
    pub(crate) fn holding(raw: MlirBlock) -> (view: BlockMut<'a>)
        requires
            !raw.is_null(),
        ensures
            view@ == raw,
    {
        BlockMut { inner: raw, phantom: PhantomData }
    }

    /// A read-only view of the same block, for as long as this one is
    /// borrowed.
    pub fn as_ref(&self) -> (view: BlockRef<'_>)
        ensures
            view@ == self@,
    {
        BlockRef { inner: self.as_raw(), phantom: PhantomData }
    }

    /// Whether the foreign library holds the two to be equal.
    pub fn eq<'r, F: Fn(Call<'_>) -> Reply<'r>>(&self, other: &BlockMut<'_>, ffi: &F) -> (equal: bool)
        requires
            serves(ffi),
        ensures
            exists|reply: Reply<'r>| #[trigger]
                replied(ffi, Call::BlockEqual { a: self@, b: other@ }, reply) && equal
                    == reply.flag(),
    {
        let reply = ask(ffi, Call::BlockEqual { a: self.as_raw(), b: other.as_raw() });
        reply.flag()
    }

    /// Appends an argument of type `ty`, declared at `loc`, to the block.
    pub fn add_argument<'r, F: Fn(Call<'_>) -> Reply<'r>>(&mut self, ty: Type, loc: Location, ffi: &F)
        requires
            serves(ffi),
        ensures
            final(self)@ == old(self)@,
            exists|reply: Reply<'r>| #[trigger]
                replied(
                    ffi,
                    Call::BlockAddArgument { block: old(self)@, ty: ty@, loc: loc@ },
                    reply,
                ),
    {
        let _ = ask(
            ffi,
            Call::BlockAddArgument { block: self.as_raw(), ty: ty.as_raw(), loc: loc.as_raw() },
        );
    }

    /// The operation that ends the block, if it has one.
    pub fn terminator<'r, F: Fn(Call<'_>) -> Reply<'r>>(&self, ffi: &F) -> (op: Option<OperationRef<'_>>)
        requires
            serves(ffi),
        ensures
            exists|reply: Reply<'r>| #[trigger]
                replied(ffi, Call::BlockGetTerminator { block: self@ }, reply)
                    && OperationRef::wraps(op, reply.operation()),
    {
        let reply = ask(ffi, Call::BlockGetTerminator { block: self.as_raw() });
        OperationRef::from_raw(reply.operation())
    }

    /// The closest operation around the block, or `None` if the block is
    /// not linked into one.
    pub fn parent_operation<'r, F: Fn(Call<'_>) -> Reply<'r>>(&self, ffi: &F) -> (op: Option<OperationRef<'_>>)
        requires
            serves(ffi),
        ensures
            exists|reply: Reply<'r>| #[trigger]
                replied(ffi, Call::BlockGetParentOperation { block: self@ }, reply)
                    && OperationRef::wraps(op, reply.operation()),
    {
        let reply = ask(ffi, Call::BlockGetParentOperation { block: self.as_raw() });
        OperationRef::from_raw(reply.operation())
    }
}

} // verus!
