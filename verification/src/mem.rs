use vstd::prelude::*;

use crate::error::Error;

verus! {

/// A contiguous run of bytes at a fixed address of a byte source.
pub struct Segment {
    /// Address of the first byte of `bytes`.
    pub base: u64,
    pub bytes: Vec<u8>,
}

/// A snapshot of an addressable, seekable byte source: the runs of bytes
/// that the source can supply, each at its own address.  A read succeeds
/// only when one run contains the whole requested range.
pub struct MemRegion {
    pub segments: Vec<Segment>,
}

/// The segment contains every address of `[addr, addr + len)`.
pub open spec fn seg_covers(s: Segment, addr: int, len: int) -> bool {
    s.base <= addr && addr + len <= s.base + s.bytes@.len()
}

/// The bytes of the segment at `[addr, addr + len)`.
pub open spec fn seg_read(s: Segment, addr: int, len: int) -> Seq<u8> {
    s.bytes@.subrange(addr - s.base, addr - s.base + len)
}

impl MemRegion {
    /// Some segment contains the whole range `[addr, addr + len)`.
    pub open spec fn covers(self, addr: int, len: int) -> bool {
        exists|k: int|
            0 <= k < self.segments@.len() && seg_covers(self.segments@[k], addr, len)
    }

    /// The bytes of the region at `[addr, addr + len)`.  Well defined
    /// whenever the region is well formed and covers the range.
    pub open spec fn read_spec(self, addr: int, len: int) -> Seq<u8>
        recommends
            self.wf(),
            self.covers(addr, len),
    {
        let k = choose|k: int|
            0 <= k < self.segments@.len() && seg_covers(self.segments@[k], addr, len);
        seg_read(self.segments@[k], addr, len)
    }

    /// Well-formedness: the segments occupy pairwise disjoint address
    /// ranges, so that what stands at an address is unambiguous.
    pub open spec fn wf(self) -> bool {
        forall|k1: int, k2: int|
            0 <= k1 < self.segments@.len() && 0 <= k2 < self.segments@.len() && k1 != k2
                ==> #[trigger] seg_disjoint(self.segments@[k1], self.segments@[k2])
    }

    /// Reads exactly `len` bytes starting at address `addr`, failing with
    /// `Error::Io` when the source cannot supply the whole range.
    pub fn read(&self, addr: u64, len: usize) -> (r: Result<Vec<u8>, Error>)
        requires
            self.wf(),
        ensures
            match r {
                Ok(v) => {
                    &&& self.covers(addr as int, len as int)
                    &&& v@ == self.read_spec(addr as int, len as int)
                    &&& v@.len() == len
                },
                Err(e) => {
                    &&& e == Error::Io
                    &&& !self.covers(addr as int, len as int)
                },
            },
    {
        let n: usize = self.segments.len();
        let mut k: usize = 0;
        while k < n
            invariant
                n == self.segments@.len(),
                self.wf(),
                forall|j: int|
                    0 <= j < k ==> !seg_covers(#[trigger] self.segments@[j], addr as int,
                        len as int),
            decreases n - k,
        {
            let seg = &self.segments[k];
            let blen: usize = seg.bytes.len();
            if seg.base <= addr {
                let off = addr - seg.base;
                if off <= blen as u64 && len as u64 <= blen as u64 - off {
                    let start: usize = off as usize;
                    let mut out: Vec<u8> = Vec::new();
                    let mut j: usize = 0;
                    proof {
                        assert(out@ =~= seg_read(self.segments@[k as int], addr as int, 0));
                    }
                    while j < len
                        invariant
                            n == self.segments@.len(),
                            k < n,
                            j <= len,
                            start == addr - self.segments@[k as int].base,
                            blen == self.segments@[k as int].bytes@.len(),
                            start + len <= blen,
                            out@ == seg_read(self.segments@[k as int], addr as int, j as int),
                        decreases len - j,
                    {
                        out.push(self.segments[k].bytes[start + j]);
                        proof {
                            assert(out@ =~= seg_read(self.segments@[k as int], addr as int,
                                j + 1 as int));
                        }
                        j = j + 1;
                    }
                    proof {
                        lemma_read_spec_from_witness(*self, addr as int, len as int, k as int);
                    }
                    return Ok(out);
                }
            }
            k = k + 1;
        }
        Err(Error::Io)
    }
}

/// The two segments share no address.
pub open spec fn seg_disjoint(a: Segment, b: Segment) -> bool {
    a.base + a.bytes@.len() <= b.base || b.base + b.bytes@.len() <= a.base
}

/// In a well-formed region, any segment that covers a range determines the
/// bytes the region holds there.
proof fn lemma_read_spec_from_witness(m: MemRegion, addr: int, len: int, k: int)
    requires
        m.wf(),
        len >= 0,
        0 <= k < m.segments@.len(),
        seg_covers(m.segments@[k], addr, len),
    ensures
        m.covers(addr, len),
        m.read_spec(addr, len) == seg_read(m.segments@[k], addr, len),
{
    assert(m.covers(addr, len));
    let i = choose|i: int|
        0 <= i < m.segments@.len() && seg_covers(m.segments@[i], addr, len);
    if len > 0 {
        if i != k {
            assert(seg_disjoint(m.segments@[i], m.segments@[k]));
            assert(false);
        }
    } else {
        assert(seg_read(m.segments@[i], addr, 0) =~= seg_read(m.segments@[k], addr, 0));
    }
}

} // verus!
