use vm_autoscaler::memory::{
    MemorySnapshot, TAG_ACTUAL_BALLOON, TAG_AVAILABLE, TAG_DISK_CACHES, TAG_HUGETLB_PGALLOC,
    TAG_HUGETLB_PGFAIL, TAG_LAST_UPDATE, TAG_MAJOR_FAULT, TAG_MINOR_FAULT, TAG_RSS, TAG_SWAP_IN,
    TAG_SWAP_OUT, TAG_UNUSED, TAG_USABLE,
};

#[test]
fn from_stats_maps_every_tag() {
    let stats: Vec<(u32, u64)> = vec![
        (TAG_SWAP_IN, 1),
        (TAG_SWAP_OUT, 2),
        (TAG_MAJOR_FAULT, 3),
        (TAG_MINOR_FAULT, 4),
        (TAG_UNUSED, 5),
        (TAG_AVAILABLE, 6),
        (TAG_ACTUAL_BALLOON, 7),
        (TAG_RSS, 8),
        (TAG_USABLE, 9),
        (TAG_LAST_UPDATE, 10),
        (TAG_DISK_CACHES, 11),
        (TAG_HUGETLB_PGALLOC, 12),
        (TAG_HUGETLB_PGFAIL, 13),
    ];
    let s = MemorySnapshot::from_stats(&stats);
    assert_eq!(s.swap_in, 1);
    assert_eq!(s.swap_out, 2);
    assert_eq!(s.major_fault, 3);
    assert_eq!(s.minor_fault, 4);
    assert_eq!(s.unused, 5);
    assert_eq!(s.available, 6);
    assert_eq!(s.actual_balloon, 7);
    assert_eq!(s.rss, 8);
    assert_eq!(s.usable, 9);
    assert_eq!(s.last_update, 10);
    assert_eq!(s.disk_caches, 11);
    assert_eq!(s.huge_tlb_pgalloc, 12);
    assert_eq!(s.huge_tlb_pgfail, 13);
}

#[test]
fn from_stats_ignores_unknown_tags_and_defaults_to_zero() {
    let stats: Vec<(u32, u64)> = vec![(99, 1000), (TAG_RSS, 77)];
    let s = MemorySnapshot::from_stats(&stats);
    assert_eq!(s.rss, 77);
    assert_eq!(s.swap_in, 0);
    assert_eq!(s.available, 0);
    assert_eq!(s.usable, 0);
}

#[test]
fn from_stats_later_pair_wins() {
    let stats: Vec<(u32, u64)> = vec![(TAG_AVAILABLE, 10), (TAG_AVAILABLE, 20)];
    let s = MemorySnapshot::from_stats(&stats);
    assert_eq!(s.available, 20);
}

fn snapshot(available: u64, usable: u64, swap_in: u64, swap_out: u64) -> MemorySnapshot {
    let mut s = MemorySnapshot::zeroed();
    s.available = available;
    s.usable = usable;
    s.swap_in = swap_in;
    s.swap_out = swap_out;
    s
}

#[test]
fn used_estimate_is_available_minus_usable_plus_swap_delta() {
    let s = snapshot(1000, 400, 20, 50);
    assert_eq!(s.swap_delta(), 30);
    assert_eq!(s.used_estimate(), 630);
}

#[test]
fn swap_delta_clamps_at_zero_when_swap_in_dominates() {
    let s = snapshot(1000, 400, 50, 20);
    assert_eq!(s.swap_delta(), 0);
    assert_eq!(s.used_estimate(), 600);
}

#[test]
fn used_estimate_clamps_when_usable_exceeds_available() {
    let s = snapshot(400, 1000, 0, 25);
    assert_eq!(s.used_estimate(), 25);
}

#[test]
fn used_estimate_saturates_at_the_machine_word() {
    let s = snapshot(u64::MAX, 0, 0, u64::MAX);
    assert_eq!(s.used_estimate(), u64::MAX);
}
