//! Reads against a single captured region, and the mapping of stream failures.

use minidump::Error;
use minidump_reader::{MemoryRegion, ReaderError};

fn counting_bytes(count: usize) -> Vec<u8> {
    (0..count).map(|i| i as u8).collect()
}

#[test]
fn region_read_returns_first_bytes() {
    let data = counting_bytes(0x100);
    let region = MemoryRegion { base_address: 0x1000, length: 0x100, bytes: &data };
    assert_eq!(region.read(0x1000, 4), Ok(vec![0x00, 0x01, 0x02, 0x03]));
}

#[test]
fn region_read_returns_window_in_the_middle() {
    let data = counting_bytes(0x100);
    let region = MemoryRegion { base_address: 0x1000, length: 0x100, bytes: &data };
    let expected: Vec<u8> = (0x90..0xb0).collect();
    assert_eq!(region.read(0x1090, 0x20), Ok(expected));
}

#[test]
fn region_read_up_to_the_last_byte() {
    let data = counting_bytes(0x100);
    let region = MemoryRegion { base_address: 0x1000, length: 0x100, bytes: &data };
    let expected: Vec<u8> = (0xf0..=0xff).collect();
    assert_eq!(region.read(0x10f0, 0x10), Ok(expected));
    assert_eq!(region.read(0x10ff, 1), Ok(vec![0xff]));
    assert_eq!(region.read(0x1000, 0x100), Ok(data.clone()));
}

#[test]
fn region_read_past_the_end_is_out_of_bounds() {
    let data = counting_bytes(0x100);
    let region = MemoryRegion { base_address: 0x1000, length: 0x100, bytes: &data };
    assert_eq!(region.read(0x10f0, 0x20), Err(ReaderError::OutOfBounds));
    assert_eq!(region.read(0x10ff, 2), Err(ReaderError::OutOfBounds));
    assert_eq!(region.read(0x1000, 0x101), Err(ReaderError::OutOfBounds));
}

#[test]
fn region_read_below_the_base_is_not_mapped() {
    let data = counting_bytes(0x100);
    let region = MemoryRegion { base_address: 0x1000, length: 0x100, bytes: &data };
    assert_eq!(region.read(0x0fff, 4), Err(ReaderError::AddressNotMapped));
    assert_eq!(region.read(0, 0), Err(ReaderError::AddressNotMapped));
}

#[test]
fn region_read_of_no_bytes_is_empty() {
    let data = counting_bytes(0x100);
    let region = MemoryRegion { base_address: 0x1000, length: 0x100, bytes: &data };
    assert_eq!(region.read(0x1000, 0), Ok(vec![]));
    assert_eq!(region.read(0x1080, 0), Ok(vec![]));
    assert_eq!(region.read(0x10ff, 0), Ok(vec![]));
}

#[test]
fn region_read_with_overflowing_size_is_out_of_bounds() {
    let data = counting_bytes(0x100);
    let region = MemoryRegion { base_address: 0x1000, length: 0x100, bytes: &data };
    assert_eq!(region.read(0x1001, usize::MAX), Err(ReaderError::OutOfBounds));
    assert_eq!(region.read(0x1080, usize::MAX - 0x7f), Err(ReaderError::OutOfBounds));
}

#[test]
fn region_read_above_the_region_is_not_mapped() {
    let data = counting_bytes(0x10);
    let region = MemoryRegion { base_address: 0x1000, length: 0x10, bytes: &data };
    assert_eq!(region.read(0x1010, 0), Err(ReaderError::AddressNotMapped));
    assert_eq!(region.read(0x1010, 1), Err(ReaderError::AddressNotMapped));
    assert_eq!(region.read(0x2000, 1), Err(ReaderError::AddressNotMapped));
    assert_eq!(region.read(u64::MAX, 0), Err(ReaderError::AddressNotMapped));
}

#[test]
fn region_read_is_bounded_by_the_stored_bytes() {
    let data = counting_bytes(0x10);
    let region = MemoryRegion { base_address: 0x1000, length: 0x20, bytes: &data };
    assert_eq!(region.read(0x100e, 2), Ok(vec![0x0e, 0x0f]));
    assert_eq!(region.read(0x100f, 2), Err(ReaderError::OutOfBounds));
    assert_eq!(region.read(0x1018, 0), Ok(vec![]));
    assert_eq!(region.read(0x1018, 1), Err(ReaderError::OutOfBounds));
    assert_eq!(region.read(0x1020, 0), Err(ReaderError::AddressNotMapped));
}

#[test]
fn region_read_is_bounded_by_the_length() {
    let data = counting_bytes(0x20);
    let region = MemoryRegion { base_address: 0x1000, length: 0x10, bytes: &data };
    assert_eq!(region.read(0x1008, 8), Ok(vec![8, 9, 10, 11, 12, 13, 14, 15]));
    assert_eq!(region.read(0x1008, 9), Err(ReaderError::OutOfBounds));
    assert_eq!(region.read(0x1000, 0x20), Err(ReaderError::OutOfBounds));
    assert_eq!(region.read(0x1010, 1), Err(ReaderError::AddressNotMapped));
}

#[test]
fn region_of_no_addresses_maps_nothing() {
    let data = counting_bytes(0x10);
    let region = MemoryRegion { base_address: 0x1000, length: 0, bytes: &data };
    assert_eq!(region.read(0x1000, 0), Err(ReaderError::AddressNotMapped));
    assert_eq!(region.read(0x1000, 1), Err(ReaderError::AddressNotMapped));
}

#[test]
fn region_read_at_the_top_of_the_address_space() {
    let data = counting_bytes(0x10);
    let region = MemoryRegion { base_address: u64::MAX - 0xf, length: 0x10, bytes: &data };
    assert_eq!(region.read(u64::MAX, 1), Ok(vec![0x0f]));
    assert_eq!(region.read(u64::MAX - 0xf, 0x10), Ok(data.clone()));
    assert_eq!(region.read(u64::MAX, 2), Err(ReaderError::OutOfBounds));
}

#[test]
fn region_read_copies_the_bytes() {
    let data = counting_bytes(8);
    let region = MemoryRegion { base_address: 0x40, length: 8, bytes: &data };
    let mut copy = region.read(0x42, 3).unwrap();
    copy[0] = 0xee;
    assert_eq!(data[2], 2);
    assert_eq!(region.read(0x42, 3), Ok(vec![2, 3, 4]));
}

#[test]
fn stream_not_found_is_a_missing_stream() {
    assert_eq!(ReaderError::from_stream_failure(&Error::StreamNotFound), ReaderError::StreamMissing);
}

#[test]
fn other_stream_failures_are_a_corrupt_stream() {
    let corrupt = [
        Error::StreamReadFailure,
        Error::StreamSizeMismatch { expected: 52, actual: 4 },
        Error::DataError,
        Error::MemoryReadFailure,
        Error::ModuleReadFailure,
        Error::CodeViewReadFailure,
        Error::UknownElementType,
        Error::MissingHeader,
        Error::HeaderMismatch,
        Error::VersionMismatch,
        Error::MissingDirectory,
        Error::FileNotFound,
        Error::IoError,
    ];
    for cause in corrupt.iter() {
        assert_eq!(ReaderError::from_stream_failure(cause), ReaderError::StreamCorrupt);
    }
}
