//! Read-only access to the contents of a minidump: captured memory by virtual
//! address, and the thread list and system information streams.
//!
//! A [`MinidumpReader`] is built from a dump file that the caller has mapped
//! into memory. It owns the mapping, decodes the dump with the `minidump`
//! crate, and answers queries without ever copying or changing the file's
//! bytes; only the bytes that a memory read asks for are copied out.
//!
//! - `region` and `table` say what a read of captured memory yields, and
//!   prove what follows from that.
//! - `reader` holds the reader and its queries.
//! - `error` holds the errors they report.
//! - `decoder` declares what is used of the `minidump` and `memmap2` crates,
//!   and what is taken on trust about it.

pub mod decoder;
pub mod error;
pub mod reader;
pub mod region;
pub mod table;

pub use crate::error::ReaderError;
pub use crate::reader::MinidumpReader;
pub use crate::region::MemoryRegion;
