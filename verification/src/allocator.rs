use vstd::prelude::*;

verus! {

/// Directory entry describing one virtual block device (vblock).
#[derive(Debug, Clone, Copy, PartialEq, Eq, Structural)]
pub struct VBlockMeta {
    /// Unique id, assigned at creation and never reused while the vblock exists.
    pub id: u32,
    /// Maximum capacity in clusters.
    pub size: u64,
    /// Clusters currently committed; allocation is eager, so this equals `size`.
    pub allocated: u64,
}

/// A vblock together with the physical placement of its single extent.
#[derive(Debug, Clone, Copy, PartialEq, Eq, Structural)]
pub struct VBlockEntry {
    pub meta: VBlockMeta,
    /// First physical cluster of the vblock's extent.
    pub extent_start: u64,
}

/// An error reported by the Master Allocator.
#[derive(Debug, Clone, Copy, PartialEq, Eq, Structural)]
pub enum AllocationError {
    /// The creation request exceeds the free capacity, no contiguous run of
    /// free clusters can hold it, or the id space is exhausted.
    InsufficientSpace,
    /// Deletion or lookup of an unknown id.
    NotFound,
}

/// Two cluster ranges share no cluster. An empty range overlaps nothing.
pub open spec fn ranges_disjoint(s1: int, n1: int, s2: int, n2: int) -> bool {
    n1 == 0 || n2 == 0 || s1 + n1 <= s2 || s2 + n2 <= s1
}

/// Sum of the committed clusters of a directory of vblocks.
pub open spec fn sum_allocated(s: Seq<VBlockEntry>) -> int
    decreases s.len(),
{
    if s.len() == 0 {
        0
    } else {
        sum_allocated(s.drop_last()) + s.last().meta.allocated
    }
}

proof fn lemma_sum_allocated_push(s: Seq<VBlockEntry>, e: VBlockEntry)
    ensures
        sum_allocated(s.push(e)) == sum_allocated(s) + e.meta.allocated,
{
    assert(s.push(e).drop_last() =~= s);
}

proof fn lemma_sum_allocated_remove(s: Seq<VBlockEntry>, i: int)
    requires
        0 <= i < s.len(),
    ensures
        sum_allocated(s.remove(i)) == sum_allocated(s) - s[i].meta.allocated,
    decreases s.len(),
{
    if i == s.len() - 1 {
        assert(s.remove(i) =~= s.drop_last());
    } else {
        let t = s.drop_last();
        assert(s.remove(i).drop_last() =~= t.remove(i));
        assert(s.remove(i).last() == s.last());
        lemma_sum_allocated_remove(t, i);
    }
}

proof fn lemma_sum_allocated_bounds_element(s: Seq<VBlockEntry>, i: int)
    requires
        0 <= i < s.len(),
    ensures
        sum_allocated(s) >= s[i].meta.allocated,
        sum_allocated(s) >= 0,
    decreases s.len(),
{
    lemma_sum_allocated_nonneg(s);
    if i == s.len() - 1 {
        lemma_sum_allocated_nonneg(s.drop_last());
    } else {
        lemma_sum_allocated_bounds_element(s.drop_last(), i);
    }
}

proof fn lemma_sum_allocated_nonneg(s: Seq<VBlockEntry>)
    ensures
        sum_allocated(s) >= 0,
    decreases s.len(),
{
    if s.len() > 0 {
        lemma_sum_allocated_nonneg(s.drop_last());
    }
}

/// The Master Allocator: owns the cluster-granularity address space of one
/// physical device, maintains the directory of vblocks and their extent
/// placements, and enforces the capacity invariant.
///
/// Granularity is fixed at construction: a cluster is `blocks_per_cluster`
/// logical blocks of `logical_block_size` bytes each. Cluster commitment is
/// eager: a vblock's clusters are reserved in the physical space at creation,
/// so no later write can fail for lack of space.
#[derive(Debug, Clone)]
pub struct MasterBlock {
    /// Total clusters in the physical address space.
    size: u64,
    /// Clusters reserved for allocator metadata at the front of the space.
    reserved: u64,
    /// Clusters consumed across all vblocks plus the reserved clusters.
    allocated: u64,
    /// The id the next created vblock will receive.
    next_id: u32,
    /// Bytes per logical block (sector).
    logical_block_size: u64,
    /// Logical blocks per cluster.
    blocks_per_cluster: u64,
    /// Directory of vblocks, kept sorted by id.
    vblocks: Vec<VBlockEntry>,
}

impl MasterBlock {
    pub closed spec fn spec_size(self) -> u64 {
        self.size
    }

    pub closed spec fn spec_reserved(self) -> u64 {
        self.reserved
    }

    pub closed spec fn spec_allocated(self) -> u64 {
        self.allocated
    }

    pub closed spec fn spec_next_id(self) -> u32 {
        self.next_id
    }

    pub closed spec fn spec_logical_block_size(self) -> u64 {
        self.logical_block_size
    }

    pub closed spec fn spec_blocks_per_cluster(self) -> u64 {
        self.blocks_per_cluster
    }

    pub closed spec fn vblocks_seq(self) -> Seq<VBlockEntry> {
        self.vblocks@
    }

    /// A single directory entry is well placed: eager commitment, and its
    /// extent lies past the reserved clusters and inside the space.
    pub open spec fn entry_wf(self, e: VBlockEntry) -> bool {
        &&& e.meta.allocated == e.meta.size
        &&& self.spec_reserved() <= e.extent_start
        &&& e.extent_start + e.meta.size <= self.spec_size()
    }

    /// Well-formedness of the allocator. This carries the capacity invariant
    /// (`allocated == reserved + sum of vblock allocations`, `allocated <= size`),
    /// the directory order (strictly increasing ids, so ids are unique), the
    /// freshness of `next_id`, the placement of every extent, the pairwise
    /// disjointness of extents, and the geometry bound that keeps every
    /// translated byte offset inside `u64`.
    pub open spec fn wf(self) -> bool {
        &&& self.spec_reserved() <= self.spec_size()
        &&& self.spec_allocated() == self.spec_reserved() + sum_allocated(self.vblocks_seq())
        &&& self.spec_allocated() <= self.spec_size()
        &&& forall|i: int, j: int|
            0 <= i < j < self.vblocks_seq().len() ==> self.vblocks_seq()[i].meta.id < self.vblocks_seq()[j].meta.id
        &&& forall|i: int| 0 <= i < self.vblocks_seq().len() ==> self.vblocks_seq()[i].meta.id < self.spec_next_id()
        &&& forall|i: int| 0 <= i < self.vblocks_seq().len() ==> self.entry_wf(#[trigger] self.vblocks_seq()[i])
        &&& forall|i: int, j: int|
            0 <= i < self.vblocks_seq().len() && 0 <= j < self.vblocks_seq().len() && i != j
                ==> ranges_disjoint(
                    #[trigger] self.vblocks_seq()[i].extent_start as int,
                    self.vblocks_seq()[i].meta.size as int,
                    #[trigger] self.vblocks_seq()[j].extent_start as int,
                    self.vblocks_seq()[j].meta.size as int,
                )
        &&& self.spec_logical_block_size() >= 1
        &&& self.spec_blocks_per_cluster() >= 1
        &&& self.spec_size() * self.spec_blocks_per_cluster() * self.spec_logical_block_size() <= u64::MAX
    }

    /// `start` is a fit for `n` clusters: past the reserved clusters, inside
    /// the space, and off every live extent.
    pub open spec fn gap_ok(self, start: int, n: int) -> bool {
        &&& self.spec_reserved() <= start
        &&& start + n <= self.spec_size()
        &&& forall|i: int|
            0 <= i < self.vblocks_seq().len() ==> ranges_disjoint(
                start,
                n,
                #[trigger] self.vblocks_seq()[i].extent_start as int,
                self.vblocks_seq()[i].meta.size as int,
            )
    }

    /// Some entry of the directory carries this id.
    pub open spec fn has_vblock(self, id: u32) -> bool {
        exists|i: int| 0 <= i < self.vblocks_seq().len() && (#[trigger] self.vblocks_seq()[i]).meta.id == id
    }

    /// The directory index of the entry carrying this id (meaningful only
    /// when `has_vblock(id)` holds; under `wf` it is unique).
    pub open spec fn index_of(self, id: u32) -> int {
        choose|i: int| 0 <= i < self.vblocks_seq().len() && (#[trigger] self.vblocks_seq()[i]).meta.id == id
    }

    /// The directory entry carrying this id.
    pub open spec fn entry_for(self, id: u32) -> VBlockEntry {
        self.vblocks_seq()[self.index_of(id)]
    }

    /// Construct a Master Allocator over `size` clusters, the first
    /// `reserved` of which hold allocator metadata. A cluster is
    /// `blocks_per_cluster` logical blocks of `logical_block_size` bytes.
    pub fn new(size: u64, reserved: u64, logical_block_size: u64, blocks_per_cluster: u64) -> (r:
        MasterBlock)
        requires
            reserved <= size,
            logical_block_size >= 1,
            blocks_per_cluster >= 1,
            size * blocks_per_cluster * logical_block_size <= u64::MAX,
        ensures
            r.wf(),
            r.spec_size() == size,
            r.spec_reserved() == reserved,
            r.spec_allocated() == reserved,
            r.spec_next_id() == 0,
            r.spec_logical_block_size() == logical_block_size,
            r.spec_blocks_per_cluster() == blocks_per_cluster,
            r.vblocks_seq() =~= Seq::<VBlockEntry>::empty(),
    {
        let r = MasterBlock {
            size,
            reserved,
            allocated: reserved,
            next_id: 0,
            logical_block_size,
            blocks_per_cluster,
            vblocks: Vec::new(),
        };
        proof {
            assert(sum_allocated(r.vblocks@) == 0);
        }
        r
    }

    /// Total clusters in the physical address space.
    pub fn size(&self) -> (r: u64)
        ensures
            r == self.spec_size(),
    {
        self.size
    }

    /// Clusters consumed across all vblocks plus the reserved clusters.
    pub fn allocated(&self) -> (r: u64)
        ensures
            r == self.spec_allocated(),
    {
        self.allocated
    }

    /// Clusters reserved for allocator metadata.
    pub fn reserved(&self) -> (r: u64)
        ensures
            r == self.spec_reserved(),
    {
        self.reserved
    }

    /// Bytes per logical block (sector).
    pub fn logical_block_size(&self) -> (r: u64)
        ensures
            r == self.spec_logical_block_size(),
    {
        self.logical_block_size
    }

    /// Logical blocks per cluster.
    pub fn blocks_per_cluster(&self) -> (r: u64)
        ensures
            r == self.spec_blocks_per_cluster(),
    {
        self.blocks_per_cluster
    }

    /// First-fit search over the free cluster space: the lowest admissible
    /// start for a run of `n` clusters, or `None` when no contiguous run of
    /// free clusters can hold the request.
    fn find_first_fit(&self, n: u64) -> (r: Option<u64>)
        requires
            self.wf(),
        ensures
            match r {
                Some(start) => self.gap_ok(start as int, n as int) && (forall|s: int|
                    s < start ==> !self.gap_ok(s, n as int)),
                None => forall|s: int| !self.gap_ok(s, n as int),
            },
    {
        if n == 0 {
            // An empty run fits at the lowest admissible point.
            return Some(self.reserved);
        }
        if n > self.size - self.reserved {
            // Even the lowest admissible start runs past the end of the space.
            assert(forall|s: int| s < self.spec_reserved() ==> !self.gap_ok(s, n as int));
            return None;
        }
        let mut cand: u64 = self.reserved;
        loop
            invariant
                self.wf(),
                1 <= n,
                self.spec_reserved() <= cand,
                cand + n <= self.spec_size(),
                forall|s: int| s < cand ==> !self.gap_ok(s, n as int),
            decreases self.spec_size() - cand,
        {
            // Scan for a live extent overlapping [cand, cand + n).
            let mut i: usize = 0;
            let mut hit: bool = false;
            let mut hit_end: u64 = 0;
            let ghost mut hit_j: int = 0;
            while i < self.vblocks.len() && !hit
                invariant
                    self.wf(),
                    1 <= n,
                    self.spec_reserved() <= cand,
                    cand + n <= self.spec_size(),
                    i <= self.vblocks_seq().len(),
                    !hit ==> forall|j: int|
                        0 <= j < i ==> ranges_disjoint(
                            cand as int,
                            n as int,
                            #[trigger] self.vblocks_seq()[j].extent_start as int,
                            self.vblocks_seq()[j].meta.size as int,
                        ),
                    hit ==> {
                        &&& 0 <= hit_j < self.vblocks_seq().len()
                        &&& !ranges_disjoint(
                            cand as int,
                            n as int,
                            self.vblocks_seq()[hit_j].extent_start as int,
                            self.vblocks_seq()[hit_j].meta.size as int,
                        )
                        &&& hit_end == self.vblocks_seq()[hit_j].extent_start
                            + self.vblocks_seq()[hit_j].meta.size
                    },
                decreases self.vblocks_seq().len() - i, (if hit {
                    0int
                } else {
                    1int
                }),
            {
                let e = self.vblocks[i];
                let disjoint: bool = e.meta.size == 0 || cand + n <= e.extent_start
                    || e.extent_start + e.meta.size <= cand;
                if disjoint {
                    i = i + 1;
                } else {
                    hit = true;
                    hit_end = e.extent_start + e.meta.size;
                    proof {
                        hit_j = i as int;
                    }
                }
            }
            if !hit {
                // No extent overlaps: cand is a fit, and by the loop
                // invariant every lower start is not.
                return Some(cand);
            }
            // Every start below the overlapping extent's end still overlaps it.
            proof {
                let es = self.vblocks_seq()[hit_j].extent_start as int;
                let el = self.vblocks_seq()[hit_j].meta.size as int;
                assert forall|s: int| cand <= s < hit_end implies !self.gap_ok(
                    s,
                    n as int,
                ) by {
                    assert(!ranges_disjoint(s, n as int, es, el));
                }
            }
            if n > self.size - hit_end {
                // Nothing at or past hit_end fits either: the space is out.
                assert forall|s: int| !self.gap_ok(s, n as int) by {
                    if hit_end <= s {
                        assert(s + n > self.spec_size());
                    }
                }
                return None;
            }
            cand = hit_end;
        }
    }

    /// Create a vblock of at most `requested_max_clusters` clusters.
    ///
    /// Assigns the next unused id; commitment is eager, so `allocated` is set
    /// equal to `size` and the clusters are reserved immediately, at the
    /// first-fit position over the free cluster space. Fails with
    /// `InsufficientSpace` when the request exceeds the free capacity, when
    /// no contiguous run of free clusters can hold it, or when the id space
    /// is exhausted.
    pub fn create_vblock(&mut self, requested_max_clusters: u64) -> (r: Result<
        VBlockMeta,
        AllocationError,
    >)
        requires
            old(self).wf(),
        ensures
            final(self).wf(),
            final(self).spec_size() == old(self).spec_size(),
            final(self).spec_reserved() == old(self).spec_reserved(),
            final(self).spec_logical_block_size() == old(self).spec_logical_block_size(),
            final(self).spec_blocks_per_cluster() == old(self).spec_blocks_per_cluster(),
            r is Ok <==> {
                &&& old(self).spec_allocated() + requested_max_clusters <= old(self).spec_size()
                &&& old(self).spec_next_id() < u32::MAX
                &&& exists|s: int| old(self).gap_ok(s, requested_max_clusters as int)
            },
            match r {
                Ok(meta) => ({
                    let entry = final(self).vblocks_seq().last();
                    &&& meta.id == old(self).spec_next_id()
                    &&& meta.size == requested_max_clusters
                    &&& meta.allocated == requested_max_clusters
                    &&& entry.meta == meta
                    &&& final(self).vblocks_seq() == old(self).vblocks_seq().push(entry)
                    &&& old(self).gap_ok(entry.extent_start as int, requested_max_clusters as int)
                    &&& forall|s: int|
                        s < entry.extent_start ==> !old(self).gap_ok(
                            s,
                            requested_max_clusters as int,
                        )
                    &&& final(self).spec_allocated() == old(self).spec_allocated()
                        + requested_max_clusters
                    &&& final(self).spec_next_id() == old(self).spec_next_id() + 1
                }),
                Err(e) => {
                    &&& e == AllocationError::InsufficientSpace
                    &&& final(self).vblocks_seq() == old(self).vblocks_seq()
                    &&& final(self).spec_allocated() == old(self).spec_allocated()
                    &&& final(self).spec_next_id() == old(self).spec_next_id()
                },
            },
    {
        if requested_max_clusters > self.size - self.allocated {
            return Err(AllocationError::InsufficientSpace);
        }
        if self.next_id == u32::MAX {
            return Err(AllocationError::InsufficientSpace);
        }
        let start_opt = self.find_first_fit(requested_max_clusters);
        match start_opt {
            None => Err(AllocationError::InsufficientSpace),
            Some(start) => {
                let meta = VBlockMeta {
                    id: self.next_id,
                    size: requested_max_clusters,
                    allocated: requested_max_clusters,
                };
                let entry = VBlockEntry { meta, extent_start: start };
                proof {
                    lemma_sum_allocated_push(self.vblocks@, entry);
                }
                let ghost old_self = *self;
                self.vblocks.push(entry);
                self.allocated = self.allocated + requested_max_clusters;
                self.next_id = self.next_id + 1;
                proof {
                    let vs = self.vblocks_seq();
                    let len = vs.len() as int;
                    assert(vs[len - 1] == entry);
                    assert forall|i: int| 0 <= i < len implies self.entry_wf(
                        #[trigger] vs[i],
                    ) by {
                        if i < len - 1 {
                            assert(old_self.entry_wf(old_self.vblocks_seq()[i]));
                        }
                    }
                    assert forall|i: int, j: int|
                        0 <= i < len && 0 <= j < len && i != j implies ranges_disjoint(
                        #[trigger] vs[i].extent_start as int,
                        vs[i].meta.size as int,
                        #[trigger] vs[j].extent_start as int,
                        vs[j].meta.size as int,
                    ) by {
                        if i < len - 1 && j < len - 1 {
                            assert(ranges_disjoint(
                                old_self.vblocks_seq()[i].extent_start as int,
                                old_self.vblocks_seq()[i].meta.size as int,
                                old_self.vblocks_seq()[j].extent_start as int,
                                old_self.vblocks_seq()[j].meta.size as int,
                            ));
                        } else if i == len - 1 {
                            assert(ranges_disjoint(
                                start as int,
                                requested_max_clusters as int,
                                old_self.vblocks_seq()[j].extent_start as int,
                                old_self.vblocks_seq()[j].meta.size as int,
                            ));
                        } else {
                            assert(ranges_disjoint(
                                start as int,
                                requested_max_clusters as int,
                                old_self.vblocks_seq()[i].extent_start as int,
                                old_self.vblocks_seq()[i].meta.size as int,
                            ));
                        }
                    }
                }
                Ok(meta)
            },
        }
    }

    /// Delete the vblock with this id, releasing all of its allocated
    /// clusters back to the free pool and removing its directory entry.
    /// A second deletion of the same id signals `NotFound`.
    pub fn delete_vblock(&mut self, id: u32) -> (r: Result<(), AllocationError>)
        requires
            old(self).wf(),
        ensures
            final(self).wf(),
            final(self).spec_size() == old(self).spec_size(),
            final(self).spec_reserved() == old(self).spec_reserved(),
            final(self).spec_next_id() == old(self).spec_next_id(),
            final(self).spec_logical_block_size() == old(self).spec_logical_block_size(),
            final(self).spec_blocks_per_cluster() == old(self).spec_blocks_per_cluster(),
            r is Ok <==> old(self).has_vblock(id),
            match r {
                Ok(_) => {
                    &&& final(self).vblocks_seq() == old(self).vblocks_seq().remove(
                        old(self).index_of(id),
                    )
                    &&& final(self).spec_allocated() == old(self).spec_allocated() - old(
                        self,
                    ).entry_for(id).meta.allocated
                    &&& !final(self).has_vblock(id)
                },
                Err(e) => {
                    &&& e == AllocationError::NotFound
                    &&& final(self).vblocks_seq() == old(self).vblocks_seq()
                    &&& final(self).spec_allocated() == old(self).spec_allocated()
                },
            },
    {
        let n = self.vblocks.len();
        let mut i: usize = 0;
        while i < n && self.vblocks[i].id() != id
            invariant
                self.wf(),
                n == self.vblocks_seq().len(),
                i <= n,
                forall|j: int| 0 <= j < i ==> (#[trigger] self.vblocks_seq()[j]).meta.id != id,
            decreases n - i,
        {
            i = i + 1;
        }
        if i == n {
            assert(!self.has_vblock(id));
            return Err(AllocationError::NotFound);
        }
        proof {
            lemma_index_unique(*self, i as int, self.index_of(id), id);
            lemma_sum_allocated_remove(self.vblocks@, i as int);
            lemma_sum_allocated_bounds_element(self.vblocks@, i as int);
        }
        let ghost old_self = *self;
        let entry = self.vblocks.remove(i);
        self.allocated = self.allocated - entry.meta.allocated;
        proof {
            let vs = self.vblocks_seq();
            let len = vs.len() as int;
            let ovs = old_self.vblocks_seq();
            assert forall|k: int| 0 <= k < len implies (#[trigger] vs[k]) == (if k < i as int {
                ovs[k]
            } else {
                ovs[k + 1]
            }) by {}
            assert forall|k: int| 0 <= k < len implies (#[trigger] vs[k]).meta.id != id by {
                if k < i as int {
                    lemma_index_unique_contra(old_self, k, i as int, id);
                } else {
                    lemma_index_unique_contra(old_self, k + 1, i as int, id);
                }
            }
            assert forall|k: int| 0 <= k < len implies old_self.entry_wf(#[trigger] vs[k]) by {}
            assert forall|k: int, l: int|
                0 <= k < len && 0 <= l < len && k != l implies ranges_disjoint(
                #[trigger] vs[k].extent_start as int,
                vs[k].meta.size as int,
                #[trigger] vs[l].extent_start as int,
                vs[l].meta.size as int,
            ) by {
                let k0: int = if k < i as int {
                    k
                } else {
                    k + 1
                };
                let l0: int = if l < i as int {
                    l
                } else {
                    l + 1
                };
                assert(ranges_disjoint(
                    ovs[k0].extent_start as int,
                    ovs[k0].meta.size as int,
                    ovs[l0].extent_start as int,
                    ovs[l0].meta.size as int,
                ));
            }
        }
        Ok(())
    }

    /// Look up the directory entry of the vblock with this id.
    pub fn find_vblock(&self, id: u32) -> (r: Option<VBlockEntry>)
        requires
            self.wf(),
        ensures
            r is Some <==> self.has_vblock(id),
            match r {
                Some(e) => e == self.entry_for(id) && self.entry_wf(e) && e.meta.id == id,
                None => true,
            },
    {
        let n = self.vblocks.len();
        let mut i: usize = 0;
        while i < n && self.vblocks[i].id() != id
            invariant
                self.wf(),
                n == self.vblocks_seq().len(),
                i <= n,
                forall|j: int| 0 <= j < i ==> (#[trigger] self.vblocks_seq()[j]).meta.id != id,
            decreases n - i,
        {
            i = i + 1;
        }
        if i == n {
            assert(!self.has_vblock(id));
            None
        } else {
            proof {
                lemma_index_unique(*self, i as int, self.index_of(id), id);
            }
            Some(self.vblocks[i])
        }
    }

    /// Read-only snapshot of the vblock directory, ordered by id.
    pub fn list(&self) -> (r: Vec<VBlockMeta>)
        requires
            self.wf(),
        ensures
            r@.len() == self.vblocks_seq().len(),
            forall|i: int| 0 <= i < r@.len() ==> r@[i] == (#[trigger] self.vblocks_seq()[i]).meta,
            forall|i: int, j: int| 0 <= i < j < r@.len() ==> r@[i].id < r@[j].id,
    {
        let n = self.vblocks.len();
        let mut out: Vec<VBlockMeta> = Vec::new();
        let mut i: usize = 0;
        while i < n
            invariant
                self.wf(),
                n == self.vblocks_seq().len(),
                i <= n,
                out@.len() == i,
                forall|j: int|
                    0 <= j < i ==> out@[j] == (#[trigger] self.vblocks_seq()[j]).meta,
            decreases n - i,
        {
            let e = self.vblocks[i];
            out.push(e.meta);
            i = i + 1;
        }
        proof {
            assert forall|k: int, l: int| 0 <= k < l < out@.len() implies out@[k].id
                < out@[l].id by {
                assert(self.vblocks_seq()[k].meta.id < self.vblocks_seq()[l].meta.id);
            }
        }
        out
    }
}

impl VBlockEntry {
    /// The vblock's id.
    pub fn id(&self) -> (r: u32)
        ensures
            r == self.meta.id,
    {
        self.meta.id
    }
}

/// Under well-formedness, two directory indices carrying the same id are the
/// same index: ids in the directory are strictly increasing.
proof fn lemma_index_unique(mb: MasterBlock, i: int, j: int, id: u32)
    requires
        mb.wf(),
        0 <= i < mb.vblocks_seq().len(),
        0 <= j < mb.vblocks_seq().len(),
        mb.vblocks_seq()[i].meta.id == id,
        mb.vblocks_seq()[j].meta.id == id,
    ensures
        i == j,
{
    if i < j {
        assert(mb.vblocks_seq()[i].meta.id < mb.vblocks_seq()[j].meta.id);
    } else if j < i {
        assert(mb.vblocks_seq()[j].meta.id < mb.vblocks_seq()[i].meta.id);
    }
}

/// Under well-formedness, an index other than the one carrying `id` does not
/// carry `id`.
proof fn lemma_index_unique_contra(mb: MasterBlock, k: int, i: int, id: u32)
    requires
        mb.wf(),
        0 <= k < mb.vblocks_seq().len(),
        0 <= i < mb.vblocks_seq().len(),
        mb.vblocks_seq()[i].meta.id == id,
        k != i,
    ensures
        mb.vblocks_seq()[k].meta.id != id,
{
    if mb.vblocks_seq()[k].meta.id == id {
        lemma_index_unique(mb, k, i, id);
    }
}

/// In a well-formed allocator, the entry found for a live id is itself well
/// placed and carries that id.
pub proof fn lemma_entry_for_wf(mb: MasterBlock, id: u32)
    requires
        mb.wf(),
        mb.has_vblock(id),
    ensures
        0 <= mb.index_of(id) < mb.vblocks_seq().len(),
        mb.entry_wf(mb.entry_for(id)),
        mb.entry_for(id).meta.id == id,
{
    let i = choose|i: int|
        0 <= i < mb.vblocks_seq().len() && (#[trigger] mb.vblocks_seq()[i]).meta.id == id;
    assert(mb.entry_wf(mb.vblocks_seq()[i]));
}

/// Law: the capacity invariant. At every point in a well-formed allocator's
/// lifetime, the clusters consumed equal the reserved metadata clusters plus
/// the sum of every vblock's committed clusters, and never exceed the size
/// of the physical address space. Every operation of [`MasterBlock`]
/// preserves `wf`, so this holds after any sequence of creations and
/// deletions.
pub proof fn lemma_capacity_invariant(mb: MasterBlock)
    requires
        mb.wf(),
    ensures
        mb.spec_allocated() <= mb.spec_size(),
        mb.spec_allocated() == mb.spec_reserved() + sum_allocated(mb.vblocks_seq()),
{
}

/// Law: id uniqueness. No two live vblocks of a well-formed allocator share
/// an id; since every operation preserves `wf` and `create_vblock` hands out
/// strictly increasing ids, no id is ever reused while its vblock exists.
pub proof fn lemma_id_uniqueness(mb: MasterBlock, i: int, j: int)
    requires
        mb.wf(),
        0 <= i < mb.vblocks_seq().len(),
        0 <= j < mb.vblocks_seq().len(),
        i != j,
    ensures
        mb.vblocks_seq()[i].meta.id != mb.vblocks_seq()[j].meta.id,
{
    lemma_index_unique_contra(mb, i, j, mb.vblocks_seq()[j].meta.id);
}

} // verus!
