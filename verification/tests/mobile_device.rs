use campus_login::mobile::device::{big_core_count, little_core_ids, mem_total_mb, parse_trimmed_u64, tier_of};

#[test]
fn tier_by_soc_model() {
    assert_eq!(tier_of("SM8650", 0, 0), 3);
    assert_eq!(tier_of("sm8750-ab", 0, 0), 3, "the model is compared case-blind");
    assert_eq!(tier_of("MT6989", 0, 0), 3);
    assert_eq!(tier_of("SM8635", 8, 16384), 1, "8s Gen 3 is not a flagship");
    assert_eq!(tier_of("SM7475", 0, 0), 2);
    assert_eq!(tier_of("MT6895", 0, 0), 2);
    assert_eq!(tier_of("Kirin9000", 8, 16384), 1, "unknown models are tier 1");
}

#[test]
fn tier_without_soc_uses_cores_and_memory() {
    assert_eq!(tier_of("", 4, 8192), 2);
    assert_eq!(tier_of("", 4, 8191), 1);
    assert_eq!(tier_of("", 2, 0), 1);
    assert_eq!(tier_of("", 0, 4096), 1);
    assert_eq!(tier_of("", 1, 4095), 0);
}

#[test]
fn frequency_files_and_big_cores() {
    assert_eq!(parse_trimmed_u64(" 2400000\n"), Some(2_400_000));
    assert_eq!(parse_trimmed_u64("abc"), None);
    assert_eq!(parse_trimmed_u64(""), None);
    assert_eq!(parse_trimmed_u64("18446744073709551615"), Some(u64::MAX));
    assert_eq!(parse_trimmed_u64("18446744073709551616"), None);
    assert_eq!(big_core_count(&vec![1_800_000, 1_799_999, 3_000_000, 1_200_000]), 2);
    assert_eq!(big_core_count(&vec![]), 0);
}

#[test]
fn memory_from_meminfo() {
    assert_eq!(mem_total_mb("MemTotal:        7812345 kB\nMemFree:  100 kB\n"), 7629);
    assert_eq!(mem_total_mb("MemTotal: 1023 kB"), 0);
    assert_eq!(mem_total_mb("MemTotal:"), 0);
    assert_eq!(mem_total_mb(""), 0);
    assert_eq!(mem_total_mb("MemTotal: x kB\n"), 0);
}

#[test]
fn little_cores_are_the_slowest_cluster() {
    let big_little = vec![(0usize, 1_800_000u64), (1, 1_800_000), (2, 2_400_000), (3, 3_000_000)];
    assert_eq!(little_core_ids(&big_little), vec![0, 1]);
    let homogeneous = vec![(0usize, 2_000_000u64), (1, 2_100_000)];
    assert!(little_core_ids(&homogeneous).is_empty());
    assert!(little_core_ids(&vec![(0usize, 1_000_000u64)]).is_empty());
    let exactly_130 = vec![(0usize, 1_000_000u64), (1, 1_300_000)];
    assert_eq!(little_core_ids(&exactly_130), vec![0]);
}
