//! The boundary to the `minidump` and `memmap2` crates.
//!
//! Everything in this file is taken on trust: the types are declared so that
//! verified code can hold them, and each function states of one call into
//! `minidump` what that crate's source shows. Nothing here is proved.
//!
//! All of it rests on the bytes of a mapping staying as they are while the
//! mapping lives. Whoever maps the file answers for that.

use crate::region::{MemoryRegion, MemoryRegionView};
use crate::table::{is_mapped, regions_disjoint};
use memmap2::Mmap;
use minidump::{Error, Minidump, MinidumpSystemInfo, MinidumpThreadList, UnifiedMemoryList};
use std::ops::Deref;
use vstd::prelude::*;

verus! {

/// `memmap2::Mmap`, a read-only mapping of a file. It is only handed on to
/// the decoder, which owns it from then on.
#[verifier::external_type_specification]
#[verifier::external_body]
pub struct ExMmap(Mmap);

/// `minidump::Minidump`, the decoder's index into a dump together with the
/// buffer that holds the dump's bytes. The bound that `T` outlives `'a` is
/// implied by the field.
#[verifier::external_type_specification]
#[verifier::external_body]
#[verifier::reject_recursive_types(T)]
pub struct ExMinidump<'a, T: Deref<Target = [u8]>>(Minidump<'a, T>);

/// `minidump::UnifiedMemoryList`, the captured memory regions of a dump with
/// an index that finds a region by address.
#[verifier::external_type_specification]
#[verifier::external_body]
pub struct ExUnifiedMemoryList<'a>(UnifiedMemoryList<'a>);

/// `minidump::MinidumpThreadList`, the decoded thread list stream.
#[verifier::external_type_specification]
#[verifier::external_body]
pub struct ExMinidumpThreadList<'a>(MinidumpThreadList<'a>);

/// `minidump::MinidumpSystemInfo`, the decoded system information stream.
#[verifier::external_type_specification]
#[verifier::external_body]
pub struct ExMinidumpSystemInfo(MinidumpSystemInfo);

/// `minidump::Error`, declared with its variants, so that verified code can
/// tell one failure of the decoder from another.
#[verifier::external_type_specification]
pub struct ExError(Error);

/// What `Minidump::read` makes of a buffer: the decoded dump, or the reason
/// why the container was rejected. The decoder looks at nothing but the
/// buffer's bytes, so one buffer always gives one outcome.
pub uninterp spec fn decoded(buffer: Mmap) -> Result<Minidump<'static, Mmap>, Error>;

/// The regions that `Minidump::get_memory` offers for a dump, or `None` where
/// it offers no memory list. A region is listed here if it can be found by
/// address, see `indexed_regions`.
pub uninterp spec fn captured_memory(dump: Minidump<'static, Mmap>) -> Option<
    Seq<MemoryRegionView>,
>;

/// The regions of a memory list that its index by address holds, by rising
/// address. The decoder takes the regions by rising start and end, and enters
/// one in the index if it spans at least one address, its base address plus
/// its size is a 64-bit number, and it starts behind the end of the region
/// entered last. A region that is left out is never found by address.
pub uninterp spec fn indexed_regions(list: UnifiedMemoryList<'static>) -> Seq<MemoryRegionView>;

/// Why `Minidump::get_stream` cannot hand out the thread list of a dump, or
/// `None` where it can. The decoded list itself gets no name: it holds a hash
/// map, and no two of those are alike inside.
pub uninterp spec fn thread_list_failure(dump: Minidump<'static, Mmap>) -> Option<Error>;

/// What `Minidump::get_stream` yields for the system information of a dump.
pub uninterp spec fn decoded_system_info(dump: Minidump<'static, Mmap>) -> Result<
    MinidumpSystemInfo,
    Error,
>;

/// Calls `Minidump::read`, which reads the header and the stream directory
/// from the buffer and keeps the buffer in the dump it returns. The contract
/// claims only that the outcome depends on the buffer alone.
#[verifier::external_body]
pub(crate) fn decode(buffer: Mmap) -> (outcome: Result<Minidump<'static, Mmap>, Error>)
    ensures
        outcome == decoded(buffer),
{
    Minidump::read(buffer)
}

/// Calls `Minidump::get_memory`, which decodes the 64-bit memory list of the
/// dump or, failing that, the 32-bit one, and yields `None` if neither can be
/// decoded. The contract claims that the list depends on the dump alone, and
/// that no address lies in two of the regions in its index: the index is a
/// range map, which holds no overlapping ranges.
#[verifier::external_body]
pub(crate) fn memory_list<'a>(dump: &'a Minidump<'static, Mmap>) -> (list: Option<
    UnifiedMemoryList<'a>,
>)
    ensures
        match list {
            Some(list) => captured_memory(*dump) == Some(indexed_regions(list))
                && regions_disjoint(indexed_regions(list)),
            None => captured_memory(*dump) is None,
        },
{
    dump.get_memory()
}

/// Calls `UnifiedMemoryList::memory_at_address`, which searches the list's
/// index for the range that holds `address`, and hands out the region found
/// by its base address, its size and its bytes. The contract claims that a
/// region is found exactly if one in the index covers `address`, and that the
/// region found is that one.
#[verifier::external_body]
pub(crate) fn lookup<'a>(list: &'a UnifiedMemoryList<'_>, address: u64) -> (found: Option<
    MemoryRegion<'a>,
>)
    ensures
        match found {
            Some(region) => indexed_regions(*list).contains(region@) && region@.covers(address),
            None => !is_mapped(indexed_regions(*list), address),
        },
{
    list.memory_at_address(address).map(
        |memory|
            MemoryRegion {
                base_address: memory.base_address(),
                length: memory.size(),
                bytes: memory.bytes(),
            },
    )
}

/// Calls `Minidump::get_stream` for the thread list. The contract claims that
/// whether the call fails, and with which error, depends on the dump alone.
#[verifier::external_body]
pub(crate) fn thread_list<'a>(dump: &'a Minidump<'static, Mmap>) -> (outcome: Result<
    MinidumpThreadList<'a>,
    Error,
>)
    ensures
        match outcome {
            Ok(_) => thread_list_failure(*dump) is None,
            Err(cause) => thread_list_failure(*dump) == Some(cause),
        },
{
    dump.get_stream::<MinidumpThreadList>()
}

/// Calls `Minidump::get_stream` for the system information. The contract
/// claims that the outcome depends on the dump alone.
#[verifier::external_body]
pub(crate) fn system_info(dump: &Minidump<'static, Mmap>) -> (outcome: Result<
    MinidumpSystemInfo,
    Error,
>)
    ensures
        outcome == decoded_system_info(*dump),
{
    dump.get_stream::<MinidumpSystemInfo>()
}

} // verus!
