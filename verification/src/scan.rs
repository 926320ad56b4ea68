use vstd::prelude::*;

use crate::bytes::{checksum_ok, checksum_over, sum_bytes};
use crate::entry_point::{is_sig32_at, is_sig64_at};

verus! {

/// A checksum-valid legacy anchor starts at offset `i`: the "_SM_"
/// signature matches, the header span it declares at offset 5 lies inside
/// the window, and that span sums to zero modulo 256.
pub open spec fn anchor32_at(w: Seq<u8>, i: int) -> bool {
    &&& is_sig32_at(w, i)
    &&& i + 6 <= w.len()
    &&& i + w[i + 5] <= w.len()
    &&& checksum_ok(w.subrange(i, i + w[i + 5]))
}

/// A checksum-valid extended anchor starts at offset `i`: the "_SM3_"
/// signature matches, the header span it declares at offset 6 lies inside
/// the window, and that span sums to zero modulo 256.
pub open spec fn anchor64_at(w: Seq<u8>, i: int) -> bool {
    &&& is_sig64_at(w, i)
    &&& i + 7 <= w.len()
    &&& i + w[i + 6] <= w.len()
    &&& checksum_ok(w.subrange(i, i + w[i + 6]))
}

/// A checksum-valid anchor of either variant starts at offset `i`.
pub open spec fn valid_anchor_at(w: Seq<u8>, i: int) -> bool {
    anchor32_at(w, i) || anchor64_at(w, i)
}

/// The first probe offset at or after `i` (stepping by the 16-byte stride)
/// where a checksum-valid anchor starts, if any.
pub open spec fn first_anchor_from(w: Seq<u8>, i: int) -> Option<int>
    decreases w.len() - i + 16,
{
    if i < 0 || i >= w.len() {
        None
    } else if valid_anchor_at(w, i) {
        Some(i)
    } else {
        first_anchor_from(w, i + 16)
    }
}

/// The scan is exhaustive and returns the first hit: starting from an
/// aligned offset `i`, `first_anchor_from` yields an aligned, checksum-valid
/// anchor offset before which every aligned probe fails, and yields nothing
/// only when every aligned probe in the window fails.
pub proof fn lemma_first_anchor_from(w: Seq<u8>, i: int)
    requires
        0 <= i,
        i % 16 == 0,
    ensures
        match first_anchor_from(w, i) {
            Some(off) => {
                &&& i <= off < w.len()
                &&& off % 16 == 0
                &&& valid_anchor_at(w, off)
                &&& forall|j: int|
                    i <= j < off && j % 16 == 0 ==> !#[trigger] valid_anchor_at(w, j)
            },
            None => forall|j: int|
                i <= j < w.len() && j % 16 == 0 ==> !#[trigger] valid_anchor_at(w, j),
        },
    decreases w.len() - i + 16,
{
    if i >= w.len() {
    } else if valid_anchor_at(w, i) {
    } else {
        lemma_first_anchor_from(w, i + 16);
        assert(first_anchor_from(w, i) == first_anchor_from(w, i + 16));
        match first_anchor_from(w, i + 16) {
            Some(off) => {
                assert forall|j: int| i <= j < off && j % 16 == 0
                    implies !#[trigger] valid_anchor_at(w, j) by {
                    if j < i + 16 {
                        lemma_aligned_probe_is_unique(i, j);
                    }
                }
            },
            None => {
                assert forall|j: int| i <= j < w.len() && j % 16 == 0
                    implies !#[trigger] valid_anchor_at(w, j) by {
                    if j < i + 16 {
                        lemma_aligned_probe_is_unique(i, j);
                    }
                }
            },
        }
    }
}

/// Two probe offsets on the 16-byte stride that are less than a stride
/// apart are the same offset.
proof fn lemma_aligned_probe_is_unique(i: int, j: int)
    requires
        i % 16 == 0,
        j % 16 == 0,
        i <= j < i + 16,
    ensures
        j == i,
{
    assert(j == 16 * (j / 16) + j % 16);
    assert(i == 16 * (i / 16) + i % 16);
}

/// A signature match alone is not enough: a legacy candidate whose declared
/// header span does not sum to zero modulo 256 is never what the scan
/// returns; the scan steps past it to the next probe offset.
pub proof fn lemma_corrupt_anchor_skipped(w: Seq<u8>, j: int)
    requires
        0 <= j,
        j % 16 == 0,
        is_sig32_at(w, j),
        j + 6 <= w.len(),
        j + w[j + 5] <= w.len(),
        sum_bytes(w.subrange(j, j + w[j + 5])) % 256 != 0,
    ensures
        !valid_anchor_at(w, j),
        first_anchor_from(w, 0) != Some(j),
        first_anchor_from(w, j) == first_anchor_from(w, j + 16),
{
    assert(!anchor32_at(w, j));
    assert(!anchor64_at(w, j));
    lemma_first_anchor_from(w, 0);
}

/// Checks whether a checksum-valid anchor of either variant starts at
/// offset `i` of the window.
fn check_anchor_at(w: &Vec<u8>, i: usize) -> (r: bool)
    requires
        i < w@.len(),
        w@.len() <= usize::MAX - 16,
    ensures
        r == valid_anchor_at(w@, i as int),
{
    let n: usize = w.len();
    if i + 6 <= n
        && w[i] == 0x5f && w[i + 1] == 0x53 && w[i + 2] == 0x4d && w[i + 3] == 0x5f
    {
        let l: usize = w[i + 5] as usize;
        if l <= n - i && checksum_over(w, i, i + l) {
            return true;
        }
    }
    if i + 7 <= n
        && w[i] == 0x5f && w[i + 1] == 0x53 && w[i + 2] == 0x4d && w[i + 3] == 0x33
        && w[i + 4] == 0x5f
    {
        let l: usize = w[i + 6] as usize;
        if l <= n - i && checksum_over(w, i, i + l) {
            return true;
        }
    }
    false
}

/// Scans the window at the fixed 16-byte stride and returns the offset of
/// the first checksum-valid anchor, if one exists.
pub fn scan_window(w: &Vec<u8>) -> (r: Option<usize>)
    requires
        w@.len() <= usize::MAX - 16,
    ensures
        match r {
            Some(off) => first_anchor_from(w@, 0) == Some(off as int),
            None => first_anchor_from(w@, 0) is None,
        },
{
    let n: usize = w.len();
    let mut i: usize = 0;
    while i < n
        invariant
            n == w@.len(),
            n <= usize::MAX - 16,
            i % 16 == 0,
            first_anchor_from(w@, 0) == first_anchor_from(w@, i as int),
        decreases n + 16 - i,
    {
        if check_anchor_at(w, i) {
            return Some(i);
        }
        i = i + 16;
    }
    None
}

} // verus!
