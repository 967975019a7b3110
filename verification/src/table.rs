//! The captured memory of a dump as a whole: a table of regions that is
//! searched by address, and what a read against it yields.

use crate::error::ReaderError;
use crate::region::MemoryRegionView;
use vstd::prelude::*;

verus! {

/// No address lies in two regions of the table.
pub open spec fn regions_disjoint(regions: Seq<MemoryRegionView>) -> bool {
    forall|i: int, j: int, address: u64|
        #![trigger regions[i].covers(address), regions[j].covers(address)]
        0 <= i < regions.len() && 0 <= j < regions.len() && i != j ==> !(regions[i].covers(address)
            && regions[j].covers(address))
}

/// Whether some region of the table covers `address`.
pub open spec fn is_mapped(regions: Seq<MemoryRegionView>, address: u64) -> bool {
    exists|i: int| 0 <= i < regions.len() && #[trigger] regions[i].covers(address)
}

/// The region of the table that covers `address`. In a table of disjoint
/// regions there is at most one.
pub open spec fn region_at(regions: Seq<MemoryRegionView>, address: u64) -> Option<
    MemoryRegionView,
> {
    if is_mapped(regions, address) {
        Some(
            regions[choose|i: int| 0 <= i < regions.len() && #[trigger] regions[i].covers(address)],
        )
    } else {
        None
    }
}

/// What reading `size` bytes at `address` yields, given the captured memory
/// of a dump, which is `None` where the dump offers none.
///
/// The bytes come from the one region that covers `address`, and only from
/// it: a request that starts in one region and ends in the next is out of
/// bounds, also where the two are adjacent.
pub open spec fn read_virtual(
    memory: Option<Seq<MemoryRegionView>>,
    address: u64,
    size: nat,
) -> Result<Seq<u8>, ReaderError> {
    match memory {
        None => Err(ReaderError::MemoryStreamUnavailable),
        Some(regions) => match region_at(regions, address) {
            None => Err(ReaderError::AddressNotMapped),
            Some(region) => region.read(address, size),
        },
    }
}

/// In a table of disjoint regions, a region that covers an address is the
/// one that a search for the address finds.
pub proof fn lemma_region_at_is_unique(
    regions: Seq<MemoryRegionView>,
    region: MemoryRegionView,
    address: u64,
)
    requires
        regions_disjoint(regions),
        regions.contains(region),
        region.covers(address),
    ensures
        region_at(regions, address) == Some(region),
{
    let k = choose|k: int| 0 <= k < regions.len() && regions[k] == region;
    assert(regions[k].covers(address));
    let found = choose|i: int| 0 <= i < regions.len() && #[trigger] regions[i].covers(address);
    if found != k {
        assert(!(regions[found].covers(address) && regions[k].covers(address)));
    }
}

/// A request that lies wholly in a captured region yields exactly the bytes
/// stored for it: as many as were asked for, starting at the region's byte
/// for `address`.
pub proof fn lemma_read_inside_region(
    regions: Seq<MemoryRegionView>,
    region: MemoryRegionView,
    address: u64,
    size: nat,
)
    requires
        regions_disjoint(regions),
        regions.contains(region),
        region.covers(address),
        address - region.base_address + size <= region.extent(),
    ensures
        read_virtual(Some(regions), address, size) == Ok::<Seq<u8>, ReaderError>(
            region.bytes.subrange(
                address - region.base_address,
                address - region.base_address + size,
            ),
        ),
        read_virtual(Some(regions), address, size).unwrap().len() == size,
{
    lemma_region_at_is_unique(regions, region, address);
    if size == 0 {
        assert(region.bytes.subrange(
            address - region.base_address,
            address - region.base_address + size,
        ) =~= Seq::<u8>::empty());
    }
}

/// A request that starts in a captured region and runs past its end is out
/// of bounds, whatever the table holds beyond that end.
pub proof fn lemma_read_past_region_end(
    regions: Seq<MemoryRegionView>,
    region: MemoryRegionView,
    address: u64,
    size: nat,
)
    requires
        regions_disjoint(regions),
        regions.contains(region),
        region.covers(address),
        address + size > region.base_address + region.length,
    ensures
        read_virtual(Some(regions), address, size) == Err::<Seq<u8>, ReaderError>(
            ReaderError::OutOfBounds,
        ),
{
    lemma_region_at_is_unique(regions, region, address);
}

/// A request at an address that no captured region covers is not mapped,
/// whatever its size.
pub proof fn lemma_read_unmapped_address(
    regions: Seq<MemoryRegionView>,
    address: u64,
    size: nat,
)
    requires
        !is_mapped(regions, address),
    ensures
        read_virtual(Some(regions), address, size) == Err::<Seq<u8>, ReaderError>(
            ReaderError::AddressNotMapped,
        ),
{
}

/// A request for no bytes at all succeeds at every captured address, and
/// yields no bytes.
pub proof fn lemma_read_nothing(regions: Seq<MemoryRegionView>, address: u64)
    requires
        is_mapped(regions, address),
    ensures
        read_virtual(Some(regions), address, 0) == Ok::<Seq<u8>, ReaderError>(Seq::empty()),
{
}

} // verus!
