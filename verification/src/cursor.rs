//! Walking and editing the blocks of a region.
//!
//! A cursor stands either on one block of its region or on the end position,
//! which is before the first block and after the last. It can only move
//! forward: the foreign interface offers no way back.

use vstd::prelude::*;
use crate::block::{Block, BlockRef};
use crate::foreign::{ask, replied, serves, Call, Reply};
use crate::raw::{MlirBlock, MlirRegion};
use crate::region::RegionMut;

verus! {

/// A position in the block list of a region. It holds the only live view of
/// the region, so nothing else can change the list while the cursor lives.
/// It is not meant to be shared between threads.
pub struct BlockCursor<'region> {
    region: RegionMut<'region>,
    block: MlirBlock,
}

/// What a [`BlockCursor`] holds: its region, and the block it stands on,
/// which is null at the end position.
pub struct CursorView {
    pub region: MlirRegion,
    pub block: MlirBlock,
}

impl<'region> View for BlockCursor<'region> {
    type V = CursorView;

    closed spec fn view(&self) -> CursorView {
        CursorView { region: self.region@, block: self.block }
    }
}

/// The call that finds where a cursor at `at` goes next: the first block of
/// the region from the end position, and otherwise the block after the
/// current one.
pub open spec fn advance(at: CursorView) -> Call<'static> {
    if at.block.is_null() {
        Call::RegionGetFirstBlock { region: at.region }
    } else {
        Call::BlockGetNextInRegion { block: at.block }
    }
}

/// `next` and `done` are the answers to the two calls that take `block` out
/// of its region: the one that finds the block after it, and the one that
/// detaches it.
pub open spec fn detached<'r, F: Fn(Call<'_>) -> Reply<'r>>(
    ffi: &F,
    block: MlirBlock,
    next: Reply<'r>,
    done: Reply<'r>,
) -> bool {
    replied(ffi, Call::BlockGetNextInRegion { block }, next) && replied(
        ffi,
        Call::BlockDetach { block },
        done,
    )
}

impl<'region> BlockCursor<'region> {
    /// A cursor over the blocks of `region`, at the end position.
    pub fn new(region: RegionMut<'region>) -> (cursor: BlockCursor<'region>)
        ensures
            cursor@.region == region@,
            cursor@.block.is_null(),
    {
        BlockCursor { region, block: MlirBlock::null() }
    }

    /// Whether the cursor is at the end position.
    pub fn at_end(&self) -> (end: bool)
        ensures
            end == self@.block.is_null(),
    {
        self.block.is_null()
    }

    /// The block the cursor stands on, or `None` at the end position.
    pub fn get(&self) -> (block: Option<BlockRef<'_>>)
        ensures
            BlockRef::wraps(block, self@.block),
    {
        BlockRef::from_raw(self.block)
    }

    /// Takes the block the cursor stands on out of the region and hands it
    /// to the caller; the cursor goes on to the block that followed it. At
    /// the end position nothing happens and `None` comes back.
    pub fn detach<'r, F: Fn(Call<'_>) -> Reply<'r>>(&mut self, ffi: &F) -> (block: Option<Block>)
        requires
            serves(ffi),
        ensures
            Block::wraps(block, old(self)@.block),
            final(self)@.region == old(self)@.region,
            old(self)@.block.is_null() ==> final(self)@ == old(self)@,
            !old(self)@.block.is_null() ==> exists|next: Reply<'r>, done: Reply<'r>|
                detached(ffi, old(self)@.block, next, done) && final(self)@.block
                    == next.block(),
    {
        let to_detach = self.block;
        if to_detach.is_null() {
            return None;
        }
        let next = ask(ffi, Call::BlockGetNextInRegion { block: to_detach });
        let done = ask(ffi, Call::BlockDetach { block: to_detach });
        assert(detached(ffi, to_detach, next, done));
        self.block = next.block();
        Block::from_raw(to_detach)
    }

    /// Puts `block` into the region before the block the cursor stands on;
    /// at the end position, after the last block. The region takes the
    /// block over. The cursor stays where it is.
    pub fn insert_before<'r, F: Fn(Call<'_>) -> Reply<'r>>(&mut self, block: Block, ffi: &F)
        requires
            serves(ffi),
        ensures
            final(self)@ == old(self)@,
            exists|reply: Reply<'r>| #[trigger]
                replied(
                    ffi,
                    Call::RegionInsertOwnedBlockBefore {
                        region: old(self)@.region,
                        reference: old(self)@.block,
                        block: block@,
                    },
                    reply,
                ),
    {
        let raw = block.into_raw();
        let _ = ask(
            ffi,
            Call::RegionInsertOwnedBlockBefore {
                region: self.region.as_raw(),
                reference: self.block,
                block: raw,
            },
        );
    }

    /// Puts `block` into the region after the block the cursor stands on;
    /// at the end position, before the first block. The region takes the
    /// block over. The cursor stays where it is.
    pub fn insert_after<'r, F: Fn(Call<'_>) -> Reply<'r>>(&mut self, block: Block, ffi: &F)
        requires
            serves(ffi),
        ensures
            final(self)@ == old(self)@,
            exists|reply: Reply<'r>| #[trigger]
                replied(
                    ffi,
                    Call::RegionInsertOwnedBlockAfter {
                        region: old(self)@.region,
                        reference: old(self)@.block,
                        block: block@,
                    },
                    reply,
                ),
    {
        let raw = block.into_raw();
        let _ = ask(
            ffi,
            Call::RegionInsertOwnedBlockAfter {
                region: self.region.as_raw(),
                reference: self.block,
                block: raw,
            },
        );
    }

    /// Moves the cursor one position on: from a block to the block after
    /// it, from the last block to the end position, and from the end
    /// position to the first block.
    pub fn move_next<'r, F: Fn(Call<'_>) -> Reply<'r>>(&mut self, ffi: &F)
        requires
            serves(ffi),
        ensures
            final(self)@.region == old(self)@.region,
            exists|reply: Reply<'r>| #[trigger]
                replied(ffi, advance(old(self)@), reply) && final(self)@.block == reply.block(),
    {
        let reply = if self.block.is_null() {
            ask(ffi, Call::RegionGetFirstBlock { region: self.region.as_raw() })
        } else {
            ask(ffi, Call::BlockGetNextInRegion { block: self.block })
        };
        self.block = reply.block();
    }
}

} // verus!
