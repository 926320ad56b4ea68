use vstd::prelude::*;

use crate::bytes::copy_tail;
use crate::entry_point::{parse_entry_point, spec_parse, spec_table, EntryPoint};
use crate::error::Error;
use crate::mem::MemRegion;
use crate::scan::{first_anchor_from, lemma_first_anchor_from, scan_window};

verus! {

/// First address of the legacy scan window for physical-memory sources.
pub const SCAN_START: u64 = 0xF_0000;

/// First address past the legacy scan window.
pub const SCAN_END: u64 = 0x10_0000;

/// Length of the legacy scan window in bytes.
pub const SCAN_WINDOW_LEN: usize = 0x1_0000;

/// What one successful acquisition yields: the parsed entry point and the
/// raw bytes of the structure table it describes.
pub struct AcquisitionResult {
    pub entry_point: EntryPoint,
    pub table: Vec<u8>,
}

/// The blobs of a pre-located firmware export: the entry-point blob and
/// the table blob, each `None` when the host failed to supply it.
pub struct ExportData {
    pub entry_point: Option<Vec<u8>>,
    pub table: Option<Vec<u8>>,
}

/// The two properties fetched from the platform service, each `None` when
/// the service did not supply it.
pub struct ServiceProps {
    pub entry_point: Option<Vec<u8>>,
    pub table: Option<Vec<u8>>,
}

/// What the running host exposes to the three acquisition backends, in
/// priority order: a pre-located export, a raw physical-memory source, a
/// platform service.  A `None` field means the backend is unavailable.
pub struct Host {
    pub export: Option<ExportData>,
    pub memory: Option<MemRegion>,
    pub service: Option<ServiceProps>,
}

impl Host {
    /// Well-formedness: a physical-memory source, when present, is a
    /// well-formed region.
    pub open spec fn wf(self) -> bool {
        match self.memory {
            Some(m) => m.wf(),
            None => true,
        }
    }
}

/// An acquisition outcome as a mathematical value: the entry point paired
/// with the table bytes, or the error.
pub open spec fn acq_view(r: Result<AcquisitionResult, Error>) -> Result<
    (EntryPoint, Seq<u8>),
    Error,
> {
    match r {
        Ok(a) => Ok((a.entry_point, a.table@)),
        Err(e) => Err(e),
    }
}

/// What `find_anchor` returns: the address of the first checksum-valid
/// anchor of the range, `Io` when the source cannot supply the range, and
/// `EntryPointNotFound` when the range holds no valid anchor.
pub open spec fn spec_find_anchor(m: MemRegion, search_start: int, search_end: int) -> Result<
    int,
    Error,
> {
    if !m.covers(search_start, search_end - search_start) {
        Err(Error::Io)
    } else {
        match first_anchor_from(m.read_spec(search_start, search_end - search_start), 0) {
            Some(off) => Ok(search_start + off),
            None => Err(Error::EntryPointNotFound),
        }
    }
}

/// Scans `[search_start, search_end)` of the source at the 16-byte stride
/// and returns the address of the first checksum-valid anchor.
pub fn find_anchor(mem: &MemRegion, search_start: u64, search_end: u64) -> (r: Result<u64, Error>)
    requires
        mem.wf(),
        search_start <= search_end,
        search_end - search_start <= usize::MAX - 16,
    ensures
        match r {
            Ok(a) => spec_find_anchor(*mem, search_start as int, search_end as int) == Ok::<
                int,
                Error,
            >(a as int),
            Err(e) => spec_find_anchor(*mem, search_start as int, search_end as int) == Err::<
                int,
                Error,
            >(e),
        },
{
    let wlen: usize = (search_end - search_start) as usize;
    let window = match mem.read(search_start, wlen) {
        Ok(w) => w,
        Err(e) => {
            return Err(e);
        },
    };
    match scan_window(&window) {
        Some(off) => {
            proof {
                lemma_first_anchor_from(window@, 0);
            }
            Ok(search_start + off as u64)
        },
        None => Err(Error::EntryPointNotFound),
    }
}

/// What the physical-memory backend returns for a given source: the window
/// is read, the first valid anchor is parsed, and exactly the declared
/// number of table bytes is read at the declared table address.
pub open spec fn spec_dev_mem_stream(m: MemRegion) -> Result<(EntryPoint, Seq<u8>), Error> {
    if !m.covers(SCAN_START as int, SCAN_WINDOW_LEN as int) {
        Err(Error::Io)
    } else {
        let w = m.read_spec(SCAN_START as int, SCAN_WINDOW_LEN as int);
        match first_anchor_from(w, 0) {
            None => Err(Error::EntryPointNotFound),
            Some(off) => match spec_parse(w.subrange(off, w.len() as int)) {
                Err(e) => Err(e),
                Ok(ep) => if !m.covers(spec_table(ep).0 as int, spec_table(ep).1 as int) {
                    Err(Error::Io)
                } else {
                    Ok((ep, m.read_spec(spec_table(ep).0 as int, spec_table(ep).1 as int)))
                },
            },
        }
    }
}

/// The physical-memory scan backend: seeks to the legacy scan window,
/// finds the first checksum-valid anchor, parses the entry point at it,
/// then reads exactly `table length` bytes at the table address.
pub fn dev_mem_stream(mem: &MemRegion) -> (r: Result<AcquisitionResult, Error>)
    requires
        mem.wf(),
    ensures
        acq_view(r) == spec_dev_mem_stream(*mem),
{
    let window = match mem.read(SCAN_START, SCAN_WINDOW_LEN) {
        Ok(w) => w,
        Err(e) => {
            return Err(e);
        },
    };
    let off = match scan_window(&window) {
        Some(o) => o,
        None => {
            return Err(Error::EntryPointNotFound);
        },
    };
    proof {
        lemma_first_anchor_from(window@, 0);
    }
    let header = copy_tail(&window, off);
    let ep = match parse_entry_point(&header) {
        Ok(ep) => ep,
        Err(e) => {
            return Err(e);
        },
    };
    let (table_address, table_length) = ep.table();
    proof {
        assert(table_length <= u32::MAX as u64);
    }
    let table = match mem.read(table_address, table_length as usize) {
        Ok(t) => t,
        Err(e) => {
            return Err(e);
        },
    };
    Ok(AcquisitionResult { entry_point: ep, table })
}

/// What the pre-located export backend returns: the entry-point blob is
/// parsed from its first byte, the table blob is handed back verbatim, and
/// a blob the host failed to supply is an I/O failure.
pub open spec fn spec_export_acquire(d: ExportData) -> Result<(EntryPoint, Seq<u8>), Error> {
    match (d.entry_point, d.table) {
        (Some(e), Some(t)) => match spec_parse(e@) {
            Ok(ep) => Ok((ep, t@)),
            Err(err) => Err(err),
        },
        _ => Err(Error::Io),
    }
}

/// The pre-located export backend: both blobs were separated by the host
/// already, so the entry-point blob starts at its anchor and the table
/// blob is returned verbatim.
pub fn export_acquire(d: ExportData) -> (r: Result<AcquisitionResult, Error>)
    ensures
        acq_view(r) == spec_export_acquire(d),
{
    match (d.entry_point, d.table) {
        (Some(e), Some(t)) => match parse_entry_point(&e) {
            Ok(ep) => Ok(AcquisitionResult { entry_point: ep, table: t }),
            Err(err) => Err(err),
        },
        _ => Err(Error::Io),
    }
}

/// What the platform-service backend returns: an absent or empty property
/// buffer is a service failure; otherwise the entry-point property is
/// parsed from its first byte and the table property is handed back
/// verbatim.
pub open spec fn spec_service_acquire(p: ServiceProps) -> Result<(EntryPoint, Seq<u8>), Error> {
    match (p.entry_point, p.table) {
        (Some(e), Some(t)) => if e@.len() == 0 || t@.len() == 0 {
            Err(Error::ServiceFailed)
        } else {
            match spec_parse(e@) {
                Ok(ep) => Ok((ep, t@)),
                Err(err) => Err(err),
            }
        },
        _ => Err(Error::ServiceFailed),
    }
}

/// The platform-service backend: consumes the two property buffers the
/// host fetched, treating an absent or empty buffer as a failure of the
/// service query.
pub fn service_acquire(p: ServiceProps) -> (r: Result<AcquisitionResult, Error>)
    ensures
        acq_view(r) == spec_service_acquire(p),
{
    match (p.entry_point, p.table) {
        (Some(e), Some(t)) => if e.len() == 0 || t.len() == 0 {
            Err(Error::ServiceFailed)
        } else {
            match parse_entry_point(&e) {
                Ok(ep) => Ok(AcquisitionResult { entry_point: ep, table: t }),
                Err(err) => Err(err),
            }
        },
        _ => Err(Error::ServiceFailed),
    }
}

/// What `stream` returns: the outcome of the highest-priority available
/// backend, or `EntryPointNotFound` when no backend is available.
pub open spec fn spec_stream(h: Host) -> Result<(EntryPoint, Seq<u8>), Error> {
    match h.export {
        Some(d) => spec_export_acquire(d),
        None => match h.memory {
            Some(m) => spec_dev_mem_stream(m),
            None => match h.service {
                Some(p) => spec_service_acquire(p),
                None => Err(Error::EntryPointNotFound),
            },
        },
    }
}

/// The stream selector: delegates to the first available backend in the
/// fixed priority order (pre-located export, then physical-memory scan,
/// then platform service) and returns its result unmodified; when no
/// backend is available it fails with `EntryPointNotFound`.
pub fn stream(host: Host) -> (r: Result<AcquisitionResult, Error>)
    requires
        host.wf(),
    ensures
        acq_view(r) == spec_stream(host),
{
    match host.export {
        Some(d) => export_acquire(d),
        None => match host.memory {
            Some(m) => dev_mem_stream(&m),
            None => match host.service {
                Some(p) => service_acquire(p),
                None => Err(Error::EntryPointNotFound),
            },
        },
    }
}

/// Backend priority: an available pre-located export is always chosen over
/// the other backends, an available memory scan over the service, and with
/// no backend available the selection terminates with `EntryPointNotFound`.
pub proof fn lemma_backend_priority(h: Host)
    ensures
        h.export matches Some(d) ==> spec_stream(h) == spec_export_acquire(d),
        h.export is None ==> (h.memory matches Some(m) ==> spec_stream(h)
            == spec_dev_mem_stream(m)),
        h.export is None && h.memory is None ==> (h.service matches Some(p) ==> spec_stream(h)
            == spec_service_acquire(p)),
        h.export is None && h.memory is None && h.service is None ==> spec_stream(h) == Err::<
            (EntryPoint, Seq<u8>),
            Error,
        >(Error::EntryPointNotFound),
{
}

/// Table-window extraction is exact: whenever the physical-memory backend
/// succeeds, the table bytes it hands back are exactly as many as the
/// entry point declares.
pub proof fn lemma_table_window_exact(m: MemRegion)
    requires
        m.wf(),
    ensures
        spec_dev_mem_stream(m) matches Ok(p) ==> p.1.len() == spec_table(p.0).1,
{
    let r = spec_dev_mem_stream(m);
    if r is Ok {
        let p = r->Ok_0;
        let ta = spec_table(p.0).0 as int;
        let tl = spec_table(p.0).1 as int;
        let k = choose|k: int|
            0 <= k < m.segments@.len() && crate::mem::seg_covers(m.segments@[k], ta, tl);
        assert(crate::mem::seg_covers(m.segments@[k], ta, tl));
    }
}

} // verus!
