//! Captured memory regions and the resolution of a virtual address in them.

use crate::error::ReaderError;
use vstd::prelude::*;
use vstd::slice::{slice_subrange, slice_to_vec};

verus! {

/// The mathematical value of a captured region: where it starts in the
/// inspected process's address space, how many addresses it spans, and the
/// bytes that were stored for it.
pub struct MemoryRegionView {
    /// The address of the first captured byte.
    pub base_address: u64,
    /// How many addresses the region spans.
    pub length: u64,
    /// The captured bytes, the first of them the byte at `base_address`.
    pub bytes: Seq<u8>,
}

impl MemoryRegionView {
    /// Whether `address` lies in the range the region spans.
    pub open spec fn covers(self, address: u64) -> bool {
        self.base_address <= address < self.base_address + self.length
    }

    /// How many bytes can be read from the start of the region: those that it
    /// both spans and stores. A region stores one byte for each address it
    /// spans, so this is its length; of a value that does not, it is the
    /// smaller of the two counts.
    pub open spec fn extent(self) -> int {
        if self.bytes.len() < self.length {
            self.bytes.len() as int
        } else {
            self.length as int
        }
    }

    /// The `size` bytes stored for `address` and the addresses after it.
    ///
    /// An address outside the region is not mapped by it. At an address
    /// inside, a request for no bytes yields none. Any other request must lie
    /// wholly in this region: one that runs past its end is out of bounds,
    /// whatever lies beyond.
    pub open spec fn read(self, address: u64, size: nat) -> Result<Seq<u8>, ReaderError> {
        if !self.covers(address) {
            Err(ReaderError::AddressNotMapped)
        } else if size == 0 {
            Ok(Seq::empty())
        } else if address - self.base_address + size > self.extent() {
            Err(ReaderError::OutOfBounds)
        } else {
            Ok(
                self.bytes.subrange(
                    address - self.base_address,
                    address - self.base_address + size,
                ),
            )
        }
    }
}

/// One contiguous captured range of the inspected process's address space.
#[derive(Clone, Copy, Debug)]
pub struct MemoryRegion<'a> {
    /// The address of the first captured byte.
    pub base_address: u64,
    /// How many addresses the region spans.
    pub length: u64,
    /// The captured bytes, borrowed from the dump.
    pub bytes: &'a [u8],
}

impl<'a> View for MemoryRegion<'a> {
    type V = MemoryRegionView;

    open spec fn view(&self) -> MemoryRegionView {
        MemoryRegionView {
            base_address: self.base_address,
            length: self.length,
            bytes: self.bytes@,
        }
    }
}

impl<'a> MemoryRegion<'a> {
    /// Copies out the `size` bytes stored for `address` and the addresses
    /// after it. Fails with `AddressNotMapped` where the region does not cover
    /// `address`, and with `OutOfBounds` where the bytes asked for do not all
    /// lie in the region.
    pub fn read(&self, address: u64, size: usize) -> (result: Result<Vec<u8>, ReaderError>)
        ensures
            match result {
                Ok(bytes) => self@.read(address, size as nat) == Ok::<Seq<u8>, ReaderError>(bytes@),
                Err(error) => self@.read(address, size as nat) == Err::<Seq<u8>, ReaderError>(error),
            },
            result matches Ok(bytes) ==> bytes@.len() == size,
    {
        let offset: u64 = match address.checked_sub(self.base_address) {
            Some(offset) if offset < self.length => offset,
            _ => return Err(ReaderError::AddressNotMapped),
        };
        if size == 0 {
            return Ok(Vec::new());
        }
        let stored: usize = self.bytes.len();
        let extent: usize = if self.length < stored as u64 {
            self.length as usize
        } else {
            stored
        };
        if offset > extent as u64 {
            return Err(ReaderError::OutOfBounds);
        }
        let start: usize = offset as usize;
        match start.checked_add(size) {
            Some(end) if end <= extent => Ok(slice_to_vec(slice_subrange(self.bytes, start, end))),
            _ => Err(ReaderError::OutOfBounds),
        }
    }
}

} // verus!
