//! The reader: a decoded dump together with the mapped file it was decoded
//! from, and the queries it answers.

use crate::decoder::{
    captured_memory, decode, decoded, decoded_system_info, lookup, memory_list, system_info,
    thread_list, thread_list_failure,
};
use crate::error::ReaderError;
use crate::region::MemoryRegionView;
use crate::table::{lemma_region_at_is_unique, read_virtual, regions_disjoint};
use memmap2::Mmap;
use minidump::{Error, Minidump, MinidumpSystemInfo, MinidumpThreadList};
use vstd::prelude::*;

verus! {

/// What a reader answers its queries from.
pub struct ReaderView {
    /// The captured regions that can be found by address, or `None` where the
    /// dump offers no captured memory.
    pub memory: Option<Seq<MemoryRegionView>>,
    /// Why the decoder cannot hand out the thread list, or `None` where it can.
    pub thread_list_failure: Option<Error>,
    /// The system information as the decoder hands it out, or why it cannot.
    pub system_info: Result<MinidumpSystemInfo, Error>,
}

impl ReaderView {
    /// What a reader makes of a decoded dump.
    pub open spec fn of_dump(dump: Minidump<'static, Mmap>) -> ReaderView {
        ReaderView {
            memory: captured_memory(dump),
            thread_list_failure: thread_list_failure(dump),
            system_info: decoded_system_info(dump),
        }
    }

    /// The error of a query for the thread list, or `None` where the query
    /// succeeds.
    pub open spec fn threads_error(self) -> Option<ReaderError> {
        match self.thread_list_failure {
            None => None,
            Some(cause) => Some(ReaderError::stream_failure(cause)),
        }
    }

    /// What a query for the system information yields.
    pub open spec fn system_info_result(self) -> Result<MinidumpSystemInfo, ReaderError> {
        match self.system_info {
            Ok(info) => Ok(info),
            Err(cause) => Err(ReaderError::stream_failure(cause)),
        }
    }
}

/// A decoded minidump and the mapped file behind it.
///
/// The decoded dump owns the mapping, so the bytes stay mapped for as long as
/// anything decoded from them can be reached, and they are unmapped when the
/// reader is dropped. No query changes the reader.
#[derive(Debug)]
pub struct MinidumpReader {
    dump: Minidump<'static, Mmap>,
}

impl View for MinidumpReader {
    type V = ReaderView;

    closed spec fn view(&self) -> ReaderView {
        ReaderView::of_dump(self.dump)
    }
}

impl MinidumpReader {
    /// Decodes the dump in `buffer` and takes the buffer over. A buffer that
    /// the decoder rejects gives the decoder's own error as `Format`, and no
    /// reader.
    pub fn new(buffer: Mmap) -> (result: Result<MinidumpReader, ReaderError>)
        ensures
            match decoded(buffer) {
                Ok(dump) => result matches Ok(reader) && reader@ == ReaderView::of_dump(dump),
                Err(cause) => result matches Err(error) && error == ReaderError::Format(cause),
            },
    {
        match decode(buffer) {
            Ok(dump) => Ok(MinidumpReader { dump }),
            Err(cause) => Err(ReaderError::Format(cause)),
        }
    }

    /// Copies out the `size` bytes captured at `address` and the addresses
    /// after it. All of them come from the one region that covers `address`.
    ///
    /// Fails with `MemoryStreamUnavailable` where the dump offers no captured
    /// memory, with `AddressNotMapped` where no region covers `address`, and
    /// with `OutOfBounds` where the region that covers it does not store all
    /// the bytes asked for. A request for no bytes succeeds at every captured
    /// address.
    pub fn read_virtual_memory(&self, address: u64, size: usize) -> (result: Result<
        Vec<u8>,
        ReaderError,
    >)
        ensures
            match result {
                Ok(bytes) => read_virtual(self@.memory, address, size as nat) == Ok::<
                    Seq<u8>,
                    ReaderError,
                >(bytes@),
                Err(error) => read_virtual(self@.memory, address, size as nat) == Err::<
                    Seq<u8>,
                    ReaderError,
                >(error),
            },
            result matches Ok(bytes) ==> bytes@.len() == size,
            self@.memory matches Some(regions) ==> regions_disjoint(regions),
    {
        let list = match memory_list(&self.dump) {
            Some(list) => list,
            None => return Err(ReaderError::MemoryStreamUnavailable),
        };
        match lookup(&list, address) {
            Some(region) => {
                proof {
                    lemma_region_at_is_unique(self@.memory.unwrap(), region@, address);
                }
                region.read(address, size)
            },
            None => Err(ReaderError::AddressNotMapped),
        }
    }

    /// Decodes the thread list stream of the dump. Fails with `StreamMissing`
    /// where the dump holds no such stream, and with `StreamCorrupt` where it
    /// holds one that cannot be decoded. The answer is the same at every call.
    pub fn get_threads(&self) -> (result: Result<MinidumpThreadList<'_>, ReaderError>)
        ensures
            match self@.threads_error() {
                None => result is Ok,
                Some(error) => result matches Err(e) && e == error,
            },
    {
        match thread_list(&self.dump) {
            Ok(threads) => Ok(threads),
            Err(cause) => Err(ReaderError::from_stream_failure(&cause)),
        }
    }

    /// Decodes the system information stream of the dump. Fails with
    /// `StreamMissing` where the dump holds no such stream, and with
    /// `StreamCorrupt` where it holds one that cannot be decoded. The answer
    /// is the same at every call.
    pub fn get_system_info(&self) -> (result: Result<MinidumpSystemInfo, ReaderError>)
        ensures
            result == self@.system_info_result(),
    {
        match system_info(&self.dump) {
            Ok(info) => Ok(info),
            Err(cause) => Err(ReaderError::from_stream_failure(&cause)),
        }
    }
}

/// A reader whose dump lacks the thread list reports that stream as missing,
/// and still answers a query for the system information with whatever the
/// decoder finds for that stream: neither query depends on the other.
pub proof fn lemma_system_info_despite_missing_thread_list(view: ReaderView)
    requires
        view.thread_list_failure == Some(Error::StreamNotFound),
    ensures
        view.threads_error() == Some(ReaderError::StreamMissing),
        view.system_info is Ok ==> view.system_info_result() == Ok::<
            MinidumpSystemInfo,
            ReaderError,
        >(view.system_info.unwrap()),
        view.system_info is Err ==> view.system_info_result() is Err,
{
}

} // verus!
