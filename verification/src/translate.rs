use vstd::prelude::*;

use crate::allocator::MasterBlock;

verus! {

/// An error reported by the Sector Translator.
#[derive(Debug, Clone, Copy, PartialEq, Eq, Structural)]
pub enum TranslateError {
    /// The logical sector lies at or beyond the vblock's allocated size in
    /// sectors; rejected before any I/O is submitted.
    OutOfRange,
    /// No vblock carries the given id.
    NotFound,
}

/// The allocated size of a vblock in sectors: its committed clusters times
/// the logical blocks per cluster.
pub open spec fn allocated_sectors(mb: MasterBlock, id: u32) -> int {
    mb.entry_for(id).meta.allocated * mb.spec_blocks_per_cluster()
}

/// The backing byte offset of a vblock-relative logical sector: the vblock's
/// extent base offset plus the sector offset, in bytes.
pub open spec fn backing_offset(mb: MasterBlock, id: u32, logical_sector: int) -> int {
    (mb.entry_for(id).extent_start * mb.spec_blocks_per_cluster() + logical_sector)
        * mb.spec_logical_block_size()
}

/// Map a vblock-relative logical sector to a byte offset in the backing
/// target, using the vblock's extent placement produced by the allocator.
/// Rejects any sector at or beyond the vblock's allocated size; performs no
/// I/O itself.
pub fn translate(mb: &MasterBlock, vblock_id: u32, logical_sector: u64) -> (r: Result<
    u64,
    TranslateError,
>)
    requires
        mb.wf(),
    ensures
        r is Ok <==> mb.has_vblock(vblock_id) && logical_sector < allocated_sectors(
            *mb,
            vblock_id,
        ),
        match r {
            Ok(off) => off == backing_offset(*mb, vblock_id, logical_sector as int),
            Err(e) => match e {
                TranslateError::NotFound => !mb.has_vblock(vblock_id),
                TranslateError::OutOfRange => mb.has_vblock(vblock_id) && logical_sector
                    >= allocated_sectors(*mb, vblock_id),
            },
        },
{
    let entry = match mb.find_vblock(vblock_id) {
        None => {
            return Err(TranslateError::NotFound);
        },
        Some(e) => e,
    };
    let bpc = mb.blocks_per_cluster();
    let lbs = mb.logical_block_size();
    let size = mb.size();
    proof {
        lemma_geometry_bounds(
            entry.extent_start as int,
            entry.meta.allocated as int,
            size as int,
            bpc as int,
            lbs as int,
            logical_sector as int,
        );
    }
    let cap: u64 = entry.meta.allocated * bpc;
    if logical_sector >= cap {
        return Err(TranslateError::OutOfRange);
    }
    let base: u64 = entry.extent_start * bpc;
    let off: u64 = (base + logical_sector) * lbs;
    Ok(off)
}

/// The allocated size in sectors of the vblock with this id, if any.
pub fn vblock_sectors(mb: &MasterBlock, id: u32) -> (r: Option<u64>)
    requires
        mb.wf(),
    ensures
        r is Some <==> mb.has_vblock(id),
        match r {
            Some(c) => c == allocated_sectors(*mb, id),
            None => true,
        },
{
    match mb.find_vblock(id) {
        None => None,
        Some(entry) => {
            proof {
                lemma_geometry_bounds(
                    entry.extent_start as int,
                    entry.meta.allocated as int,
                    mb.spec_size() as int,
                    mb.spec_blocks_per_cluster() as int,
                    mb.spec_logical_block_size() as int,
                    0,
                );
            }
            Some(entry.meta.allocated * mb.blocks_per_cluster())
        },
    }
}

/// Every sector inside a well-placed extent translates to a byte offset
/// that fits in the device's byte space, hence in `u64`.
proof fn lemma_geometry_bounds(start: int, clusters: int, size: int, bpc: int, lbs: int, s: int)
    requires
        0 <= start,
        0 <= clusters,
        start + clusters <= size,
        1 <= bpc,
        1 <= lbs,
        size * bpc * lbs <= u64::MAX,
    ensures
        clusters * bpc <= size * bpc * lbs,
        start * bpc <= size * bpc * lbs,
        0 <= s < clusters * bpc ==> (start * bpc + s) * lbs <= size * bpc * lbs,
        0 <= s < clusters * bpc ==> start * bpc + s <= size * bpc * lbs,
{
    assert(clusters * bpc <= size * bpc) by (nonlinear_arith)
        requires
            0 <= clusters,
            clusters <= size,
            1 <= bpc,
    ;
    assert(size * bpc <= size * bpc * lbs) by (nonlinear_arith)
        requires
            0 <= size,
            0 <= bpc,
            1 <= lbs,
    ;
    assert(start * bpc <= size * bpc) by (nonlinear_arith)
        requires
            0 <= start,
            start <= size,
            1 <= bpc,
    ;
    if 0 <= s < clusters * bpc {
        assert((start * bpc + s) * lbs <= size * bpc * lbs) by (nonlinear_arith)
            requires
                0 <= s,
                s < clusters * bpc,
                0 <= start,
                0 <= bpc,
                0 <= lbs,
                start + clusters <= size,
        ;
        assert(start * bpc + s <= (start * bpc + s) * lbs) by (nonlinear_arith)
            requires
                0 <= s,
                0 <= start,
                0 <= bpc,
                1 <= lbs,
        ;
    }
}

} // verus!
