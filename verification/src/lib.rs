//! Discovery and acquisition of the raw SMBIOS structure table.
//!
//! The crate locates a valid SMBIOS entry-point anchor in a byte source,
//! parses its header into an [`entry_point::EntryPoint`], and extracts the
//! structure-table window it describes.  Three acquisition backends (a
//! pre-located firmware export, a physical-memory scan, and a platform
//! service query) are modelled over plain byte values and orchestrated by
//! [`acquire::stream`].  Decoding the individual structure records inside the
//! table is left to a downstream decoder.

pub mod acquire;
pub mod bytes;
pub mod entry_point;
pub mod error;
pub mod mem;
pub mod scan;
