use vstd::prelude::*;

verus! {

/// Why an acquisition attempt failed.
#[derive(Clone, Copy, Debug, PartialEq, Eq, Structural)]
pub enum Error {
    /// No backend was available, or the scan range was exhausted without a
    /// checksum-valid anchor.
    EntryPointNotFound,
    /// An anchor was found but its header failed structural validation.
    InvalidEntryPoint,
    /// The byte source could not supply a requested range (missing or
    /// truncated data).
    Io,
    /// The platform service query failed: a property was absent or its
    /// buffer was empty.
    ServiceFailed,
}

} // verus!
