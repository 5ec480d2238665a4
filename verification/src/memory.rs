//! Per-worker memory statistics and the derived pressure signal.
//!
//! The hypervisor reports a worker's memory counters as a list of
//! `(tag, value)` pairs whose tag numbering is part of its stable
//! interface.  [`MemorySnapshot::from_stats`] folds such a list into a
//! snapshot; the derived quantities `swap_delta` and `used_estimate`
//! feed the regulation decision.
//!
//! Policy for the swap delta: `swap_out - swap_in` is clamped at zero
//! when swap-in exceeds swap-out, and the used estimate saturates at
//! `u64::MAX`, so the signal is always a well-defined machine word.

use vstd::prelude::*;

verus! {

/// Tag for the swap-in counter in the hypervisor's statistics list.
pub const TAG_SWAP_IN: u32 = 0;
/// Tag for the swap-out counter.
pub const TAG_SWAP_OUT: u32 = 1;
/// Tag for the major-fault counter.
pub const TAG_MAJOR_FAULT: u32 = 2;
/// Tag for the minor-fault counter.
pub const TAG_MINOR_FAULT: u32 = 3;
/// Tag for memory left completely unused by the guest.
pub const TAG_UNUSED: u32 = 4;
/// Tag for memory usable by the guest as seen from the hypervisor.
pub const TAG_AVAILABLE: u32 = 5;
/// Tag for the current balloon value.
pub const TAG_ACTUAL_BALLOON: u32 = 6;
/// Tag for the resident set size of the worker's process.
pub const TAG_RSS: u32 = 7;
/// Tag for memory the guest can allocate without swapping.
pub const TAG_USABLE: u32 = 8;
/// Tag for the timestamp of the guest's last statistics refresh.
pub const TAG_LAST_UPDATE: u32 = 9;
/// Tag for memory held in the guest's disk caches.
pub const TAG_DISK_CACHES: u32 = 10;
/// Tag for successful huge-page allocations.
pub const TAG_HUGETLB_PGALLOC: u32 = 11;
/// Tag for failed huge-page allocations.
pub const TAG_HUGETLB_PGFAIL: u32 = 12;

/// One worker's memory counters at one tick, every amount in bytes
/// except the fault and huge-page counts and the update timestamp.
#[derive(Clone, Copy, PartialEq, Eq, Structural, Debug)]
pub struct MemorySnapshot {
    pub swap_in: u64,
    pub swap_out: u64,
    pub major_fault: u64,
    pub minor_fault: u64,
    pub unused: u64,
    pub available: u64,
    pub actual_balloon: u64,
    pub rss: u64,
    pub usable: u64,
    pub last_update: u64,
    pub disk_caches: u64,
    pub huge_tlb_pgalloc: u64,
    pub huge_tlb_pgfail: u64,
}

/// The value carried by the last pair with the given tag, or zero when
/// no pair carries it: later pairs in the hypervisor's list win.
pub open spec fn tag_value(stats: Seq<(u32, u64)>, tag: u32) -> u64
    decreases stats.len(),
{
    if stats.len() == 0 {
        0
    } else if stats.last().0 == tag {
        stats.last().1
    } else {
        tag_value(stats.drop_last(), tag)
    }
}

proof fn lemma_tag_value_step(stats: Seq<(u32, u64)>, i: int, tag: u32)
    requires
        0 <= i < stats.len(),
    ensures
        tag_value(stats.take(i + 1), tag) == if stats[i].0 == tag {
            stats[i].1
        } else {
            tag_value(stats.take(i), tag)
        },
{
    assert(stats.take(i + 1).last() == stats[i]);
    assert(stats.take(i + 1).drop_last() =~= stats.take(i));
}

impl MemorySnapshot {
    /// A snapshot with every counter zero, the value each field keeps
    /// when the hypervisor's list does not mention its tag.
    pub fn zeroed() -> (r: MemorySnapshot)
        ensures
            r == (MemorySnapshot {
                swap_in: 0,
                swap_out: 0,
                major_fault: 0,
                minor_fault: 0,
                unused: 0,
                available: 0,
                actual_balloon: 0,
                rss: 0,
                usable: 0,
                last_update: 0,
                disk_caches: 0,
                huge_tlb_pgalloc: 0,
                huge_tlb_pgfail: 0,
            }),
    {
        MemorySnapshot {
            swap_in: 0,
            swap_out: 0,
            major_fault: 0,
            minor_fault: 0,
            unused: 0,
            available: 0,
            actual_balloon: 0,
            rss: 0,
            usable: 0,
            last_update: 0,
            disk_caches: 0,
            huge_tlb_pgalloc: 0,
            huge_tlb_pgfail: 0,
        }
    }

    /// Folds the hypervisor's `(tag, value)` list into a snapshot: each
    /// field holds the value of the last pair with its tag, or zero.
    /// Pairs with an unknown tag are ignored.
    pub fn from_stats(stats: &Vec<(u32, u64)>) -> (r: MemorySnapshot)
        ensures
            r.swap_in == tag_value(stats@, TAG_SWAP_IN),
            r.swap_out == tag_value(stats@, TAG_SWAP_OUT),
            r.major_fault == tag_value(stats@, TAG_MAJOR_FAULT),
            r.minor_fault == tag_value(stats@, TAG_MINOR_FAULT),
            r.unused == tag_value(stats@, TAG_UNUSED),
            r.available == tag_value(stats@, TAG_AVAILABLE),
            r.actual_balloon == tag_value(stats@, TAG_ACTUAL_BALLOON),
            r.rss == tag_value(stats@, TAG_RSS),
            r.usable == tag_value(stats@, TAG_USABLE),
            r.last_update == tag_value(stats@, TAG_LAST_UPDATE),
            r.disk_caches == tag_value(stats@, TAG_DISK_CACHES),
            r.huge_tlb_pgalloc == tag_value(stats@, TAG_HUGETLB_PGALLOC),
            r.huge_tlb_pgfail == tag_value(stats@, TAG_HUGETLB_PGFAIL),
    {
        let mut r = MemorySnapshot::zeroed();
        let mut i: usize = 0;
        while i < stats.len()
            invariant
                0 <= i <= stats@.len(),
                r.swap_in == tag_value(stats@.take(i as int), TAG_SWAP_IN),
                r.swap_out == tag_value(stats@.take(i as int), TAG_SWAP_OUT),
                r.major_fault == tag_value(stats@.take(i as int), TAG_MAJOR_FAULT),
                r.minor_fault == tag_value(stats@.take(i as int), TAG_MINOR_FAULT),
                r.unused == tag_value(stats@.take(i as int), TAG_UNUSED),
                r.available == tag_value(stats@.take(i as int), TAG_AVAILABLE),
                r.actual_balloon == tag_value(stats@.take(i as int), TAG_ACTUAL_BALLOON),
                r.rss == tag_value(stats@.take(i as int), TAG_RSS),
                r.usable == tag_value(stats@.take(i as int), TAG_USABLE),
                r.last_update == tag_value(stats@.take(i as int), TAG_LAST_UPDATE),
                r.disk_caches == tag_value(stats@.take(i as int), TAG_DISK_CACHES),
                r.huge_tlb_pgalloc == tag_value(stats@.take(i as int), TAG_HUGETLB_PGALLOC),
                r.huge_tlb_pgfail == tag_value(stats@.take(i as int), TAG_HUGETLB_PGFAIL),
            decreases stats@.len() - i,
        {
            let (tag, val) = stats[i];
            proof {
                lemma_tag_value_step(stats@, i as int, TAG_SWAP_IN);
                lemma_tag_value_step(stats@, i as int, TAG_SWAP_OUT);
                lemma_tag_value_step(stats@, i as int, TAG_MAJOR_FAULT);
                lemma_tag_value_step(stats@, i as int, TAG_MINOR_FAULT);
                lemma_tag_value_step(stats@, i as int, TAG_UNUSED);
                lemma_tag_value_step(stats@, i as int, TAG_AVAILABLE);
                lemma_tag_value_step(stats@, i as int, TAG_ACTUAL_BALLOON);
                lemma_tag_value_step(stats@, i as int, TAG_RSS);
                lemma_tag_value_step(stats@, i as int, TAG_USABLE);
                lemma_tag_value_step(stats@, i as int, TAG_LAST_UPDATE);
                lemma_tag_value_step(stats@, i as int, TAG_DISK_CACHES);
                lemma_tag_value_step(stats@, i as int, TAG_HUGETLB_PGALLOC);
                lemma_tag_value_step(stats@, i as int, TAG_HUGETLB_PGFAIL);
            }
            if tag == TAG_SWAP_IN {
                r.swap_in = val;
            } else if tag == TAG_SWAP_OUT {
                r.swap_out = val;
            } else if tag == TAG_MAJOR_FAULT {
                r.major_fault = val;
            } else if tag == TAG_MINOR_FAULT {
                r.minor_fault = val;
            } else if tag == TAG_UNUSED {
                r.unused = val;
            } else if tag == TAG_AVAILABLE {
                r.available = val;
            } else if tag == TAG_ACTUAL_BALLOON {
                r.actual_balloon = val;
            } else if tag == TAG_RSS {
                r.rss = val;
            } else if tag == TAG_USABLE {
                r.usable = val;
            } else if tag == TAG_LAST_UPDATE {
                r.last_update = val;
            } else if tag == TAG_DISK_CACHES {
                r.disk_caches = val;
            } else if tag == TAG_HUGETLB_PGALLOC {
                r.huge_tlb_pgalloc = val;
            } else if tag == TAG_HUGETLB_PGFAIL {
                r.huge_tlb_pgfail = val;
            }
            i = i + 1;
        }
        proof {
            assert(stats@.take(stats@.len() as int) =~= stats@);
        }
        r
    }

    /// Net swap pressure over the worker's lifetime, clamped at zero
    /// when more was swapped in than out.
    pub open spec fn spec_swap_delta(self) -> int {
        if self.swap_out >= self.swap_in {
            self.swap_out - self.swap_in
        } else {
            0
        }
    }

    /// The regulation pressure signal: memory the guest appears to use
    /// (`available - usable`, clamped at zero) plus the net swap
    /// pressure, saturating at `u64::MAX`.
    pub open spec fn spec_used_estimate(self) -> int {
        let in_use = if self.available >= self.usable {
            self.available - self.usable
        } else {
            0
        };
        let total = in_use + self.spec_swap_delta();
        if total > u64::MAX {
            u64::MAX as int
        } else {
            total
        }
    }

    /// Computes the clamped swap delta.
    pub fn swap_delta(&self) -> (r: u64)
        ensures
            r == self.spec_swap_delta(),
    {
        if self.swap_out >= self.swap_in {
            self.swap_out - self.swap_in
        } else {
            0
        }
    }

    /// Computes the pressure signal handed to the reclaim mechanism.
    pub fn used_estimate(&self) -> (r: u64)
        ensures
            r == self.spec_used_estimate(),
    {
        let in_use: u64 = if self.available >= self.usable {
            self.available - self.usable
        } else {
            0
        };
        let delta = self.swap_delta();
        if in_use <= u64::MAX - delta {
            in_use + delta
        } else {
            u64::MAX
        }
    }
}

} // verus!
