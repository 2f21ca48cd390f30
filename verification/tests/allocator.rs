use vblock::AllocationError;
use vblock::MasterBlock;

fn master_1000() -> MasterBlock {
    // 1000 clusters, 1 reserved metadata cluster, 512-byte sectors,
    // 8 sectors per cluster.
    MasterBlock::new(1000, 1, 512, 8)
}

#[test]
fn allocate_delete_round_trip() {
    let mut mb = master_1000();
    assert_eq!(mb.allocated(), 1);

    let a = mb.create_vblock(100).unwrap();
    assert_eq!(a.allocated, 100);
    assert_eq!(a.size, 100);
    assert_eq!(mb.allocated(), 101);

    let b = mb.create_vblock(200).unwrap();
    assert_eq!(b.allocated, 200);
    assert_eq!(mb.allocated(), 301);

    mb.delete_vblock(a.id).unwrap();
    assert_eq!(mb.allocated(), 201);
    assert!(mb.list().iter().all(|m| m.id != a.id));

    // 201 + 900 = 1101 > 1000: rejected.
    assert_eq!(
        mb.create_vblock(900),
        Err(AllocationError::InsufficientSpace)
    );
    assert_eq!(mb.allocated(), 201);
}

#[test]
fn ids_are_fresh_and_listed_in_order() {
    let mut mb = master_1000();
    let a = mb.create_vblock(10).unwrap();
    let b = mb.create_vblock(20).unwrap();
    let c = mb.create_vblock(30).unwrap();
    assert_eq!(a.id, 0);
    assert_eq!(b.id, 1);
    assert_eq!(c.id, 2);

    mb.delete_vblock(b.id).unwrap();
    // The freed id is not reused.
    let d = mb.create_vblock(20).unwrap();
    assert_eq!(d.id, 3);

    let listed = mb.list();
    let ids: Vec<u32> = listed.iter().map(|m| m.id).collect();
    assert_eq!(ids, vec![0, 2, 3]);
}

#[test]
fn delete_twice_signals_not_found() {
    let mut mb = master_1000();
    let a = mb.create_vblock(5).unwrap();
    assert_eq!(mb.delete_vblock(a.id), Ok(()));
    assert_eq!(mb.delete_vblock(a.id), Err(AllocationError::NotFound));
    assert_eq!(mb.delete_vblock(42), Err(AllocationError::NotFound));
}

#[test]
fn eager_allocation_reserves_extents_first_fit() {
    let mut mb = master_1000();
    let a = mb.create_vblock(100).unwrap();
    let b = mb.create_vblock(200).unwrap();
    // Extents are placed first-fit after the reserved metadata cluster.
    assert_eq!(mb.find_vblock(a.id).unwrap().extent_start, 1);
    assert_eq!(mb.find_vblock(b.id).unwrap().extent_start, 101);

    // Deleting the first vblock opens a gap that the next small request
    // reuses; no compaction moves the survivor.
    mb.delete_vblock(a.id).unwrap();
    let c = mb.create_vblock(50).unwrap();
    assert_eq!(mb.find_vblock(c.id).unwrap().extent_start, 1);
    assert_eq!(mb.find_vblock(b.id).unwrap().extent_start, 101);

    // A request too large for the gap goes past the last extent.
    let d = mb.create_vblock(60).unwrap();
    assert_eq!(mb.find_vblock(d.id).unwrap().extent_start, 301);
}

#[test]
fn fragmentation_can_reject_a_fitting_total() {
    // 12 clusters, 1 reserved: free capacity is 11.
    let mut mb = MasterBlock::new(12, 1, 512, 1);
    let a = mb.create_vblock(4).unwrap();
    let b = mb.create_vblock(3).unwrap();
    let c = mb.create_vblock(4).unwrap();
    mb.delete_vblock(a.id).unwrap();
    mb.delete_vblock(c.id).unwrap();
    // 8 clusters are free, but split 4 + 4 around the survivor: a 9-cluster
    // request exceeds capacity and an 8-cluster one has no contiguous run.
    assert_eq!(mb.create_vblock(9), Err(AllocationError::InsufficientSpace));
    assert_eq!(mb.create_vblock(8), Err(AllocationError::InsufficientSpace));
    assert_eq!(mb.find_vblock(b.id).unwrap().extent_start, 5);
    // The two gaps still serve fitting requests.
    let d = mb.create_vblock(4).unwrap();
    assert_eq!(mb.find_vblock(d.id).unwrap().extent_start, 1);
    let e = mb.create_vblock(4).unwrap();
    assert_eq!(mb.find_vblock(e.id).unwrap().extent_start, 8);
}

#[test]
fn capacity_invariant_holds_through_history() {
    let mut mb = MasterBlock::new(64, 2, 512, 1);
    let mut live: Vec<u32> = Vec::new();
    for round in 0..6u64 {
        match mb.create_vblock(round * 3 + 1) {
            Ok(meta) => live.push(meta.id),
            Err(e) => assert_eq!(e, AllocationError::InsufficientSpace),
        }
        if round % 2 == 1 {
            if let Some(id) = live.pop() {
                mb.delete_vblock(id).unwrap();
            }
        }
        // allocated == reserved + sum of vblock allocations, and <= size.
        let listed = mb.list();
        let sum: u64 = listed.iter().map(|m| m.allocated).sum();
        assert_eq!(mb.allocated(), mb.reserved() + sum);
        assert!(mb.allocated() <= mb.size());
        // No two live vblocks share an id.
        for i in 0..listed.len() {
            for j in 0..listed.len() {
                if i != j {
                    assert_ne!(listed[i].id, listed[j].id);
                }
            }
        }
    }
}

#[test]
fn zero_sized_vblock_is_allowed() {
    let mut mb = master_1000();
    let z = mb.create_vblock(0).unwrap();
    assert_eq!(z.size, 0);
    assert_eq!(z.allocated, 0);
    assert_eq!(mb.allocated(), 1);
    assert_eq!(mb.delete_vblock(z.id), Ok(()));
}

#[test]
fn full_capacity_request_fills_the_space() {
    let mut mb = MasterBlock::new(100, 1, 512, 1);
    let a = mb.create_vblock(99).unwrap();
    assert_eq!(mb.allocated(), 100);
    assert_eq!(
        mb.create_vblock(1),
        Err(AllocationError::InsufficientSpace)
    );
    mb.delete_vblock(a.id).unwrap();
    assert_eq!(mb.allocated(), 1);
}
