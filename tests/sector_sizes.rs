use filecoin_proofs::constants::{
    get_porep_interactive_minimum_challenges, get_porep_non_interactive_minimum_challenges,
    get_porep_non_interactive_partitions, is_published, is_supported, layers, porep_partitions,
    supported_sector_sizes, window_post_sector_count, SECTOR_SIZE_16_KIB, SECTOR_SIZE_16_MIB,
    SECTOR_SIZE_1_GIB, SECTOR_SIZE_2_KIB, SECTOR_SIZE_32_GIB, SECTOR_SIZE_32_KIB,
    SECTOR_SIZE_4_KIB, SECTOR_SIZE_512_MIB, SECTOR_SIZE_64_GIB, SECTOR_SIZE_8_MIB,
};
use filecoin_proofs::shape::{
    is_sector_shape_base, is_sector_shape_sub2, is_sector_shape_sub8, is_sector_shape_top2,
    sector_shape, SectorShape,
};

#[test]
fn sector_size_values() {
    assert_eq!(SECTOR_SIZE_2_KIB, 1 << 11);
    assert_eq!(SECTOR_SIZE_4_KIB, 1 << 12);
    assert_eq!(SECTOR_SIZE_16_KIB, 1 << 14);
    assert_eq!(SECTOR_SIZE_32_KIB, 1 << 15);
    assert_eq!(SECTOR_SIZE_8_MIB, 1 << 23);
    assert_eq!(SECTOR_SIZE_16_MIB, 1 << 24);
    assert_eq!(SECTOR_SIZE_512_MIB, 1 << 29);
    assert_eq!(SECTOR_SIZE_1_GIB, 1 << 30);
    assert_eq!(SECTOR_SIZE_32_GIB, 1 << 35);
    assert_eq!(SECTOR_SIZE_64_GIB, 1 << 36);
}

#[test]
fn supported_and_published_sizes() {
    let all = supported_sector_sizes();
    assert_eq!(all.len(), 10);
    for s in &all {
        assert!(is_supported(*s));
    }
    assert!(!is_supported(1 << 13));
    assert!(!is_supported(0));
    assert!(is_published(SECTOR_SIZE_2_KIB));
    assert!(is_published(SECTOR_SIZE_64_GIB));
    assert!(!is_published(SECTOR_SIZE_4_KIB));
    assert!(!is_published(SECTOR_SIZE_1_GIB));
}

#[test]
fn parameter_tables() {
    assert_eq!(porep_partitions(SECTOR_SIZE_2_KIB), Some(1));
    assert_eq!(porep_partitions(SECTOR_SIZE_512_MIB), Some(1));
    assert_eq!(porep_partitions(SECTOR_SIZE_1_GIB), Some(10));
    assert_eq!(porep_partitions(SECTOR_SIZE_64_GIB), Some(10));
    assert_eq!(porep_partitions(12345), None);
    assert_eq!(layers(SECTOR_SIZE_16_MIB), Some(2));
    assert_eq!(layers(SECTOR_SIZE_32_GIB), Some(11));
    assert_eq!(layers(3), None);
    assert_eq!(window_post_sector_count(SECTOR_SIZE_32_KIB), Some(2));
    assert_eq!(window_post_sector_count(SECTOR_SIZE_1_GIB), Some(25));
    assert_eq!(window_post_sector_count(SECTOR_SIZE_32_GIB), Some(2349));
    assert_eq!(window_post_sector_count(SECTOR_SIZE_64_GIB), Some(2300));
    assert_eq!(window_post_sector_count(1 << 20), None);
}

#[test]
fn porep_challenge_counts() {
    assert_eq!(get_porep_interactive_minimum_challenges(SECTOR_SIZE_2_KIB), 2);
    assert_eq!(get_porep_interactive_minimum_challenges(SECTOR_SIZE_512_MIB), 2);
    assert_eq!(get_porep_interactive_minimum_challenges(SECTOR_SIZE_1_GIB), 176);
    assert_eq!(get_porep_interactive_minimum_challenges(SECTOR_SIZE_64_GIB), 176);
    assert_eq!(get_porep_non_interactive_minimum_challenges(SECTOR_SIZE_8_MIB), 26);
    assert_eq!(get_porep_non_interactive_minimum_challenges(SECTOR_SIZE_1_GIB), 26);
    assert_eq!(get_porep_non_interactive_minimum_challenges(SECTOR_SIZE_32_GIB), 2253);
    assert_eq!(get_porep_non_interactive_partitions(SECTOR_SIZE_4_KIB), 13);
    assert_eq!(get_porep_non_interactive_partitions(SECTOR_SIZE_1_GIB), 13);
    assert_eq!(get_porep_non_interactive_partitions(SECTOR_SIZE_64_GIB), 126);
}

#[test]
fn shapes_of_sector_sizes() {
    assert!(is_sector_shape_base(SECTOR_SIZE_2_KIB));
    assert!(is_sector_shape_base(SECTOR_SIZE_8_MIB));
    assert!(is_sector_shape_base(SECTOR_SIZE_512_MIB));
    assert!(is_sector_shape_sub2(SECTOR_SIZE_4_KIB));
    assert!(is_sector_shape_sub2(SECTOR_SIZE_16_MIB));
    assert!(is_sector_shape_sub2(SECTOR_SIZE_1_GIB));
    assert!(is_sector_shape_sub8(SECTOR_SIZE_16_KIB));
    assert!(is_sector_shape_sub8(SECTOR_SIZE_32_GIB));
    assert!(is_sector_shape_top2(SECTOR_SIZE_32_KIB));
    assert!(is_sector_shape_top2(SECTOR_SIZE_64_GIB));
    assert!(!is_sector_shape_base(SECTOR_SIZE_4_KIB));
    assert!(!is_sector_shape_top2(SECTOR_SIZE_32_GIB));
    assert_eq!(sector_shape(SECTOR_SIZE_32_GIB), Some(SectorShape::Sub8));
    assert_eq!(sector_shape(100), None);
    for s in supported_sector_sizes() {
        let n = [
            is_sector_shape_base(s),
            is_sector_shape_sub2(s),
            is_sector_shape_sub8(s),
            is_sector_shape_top2(s),
        ]
        .iter()
        .filter(|b| **b)
        .count();
        assert_eq!(n, 1);
    }
}

#[test]
fn shape_arities() {
    assert_eq!(SectorShape::Base.base_tree_count(), 1);
    assert_eq!(SectorShape::Sub2.base_tree_count(), 2);
    assert_eq!(SectorShape::Sub8.base_tree_count(), 8);
    assert_eq!(SectorShape::Top2.base_tree_count(), 16);
    assert_eq!(SectorShape::Top2.base_arity(), 8);
    assert_eq!(SectorShape::Top2.sub_tree_arity(), 8);
    assert_eq!(SectorShape::Top2.top_tree_arity(), 2);
    assert_eq!(SectorShape::Sub2.sub_tree_arity(), 2);
    assert_eq!(SectorShape::Base.sub_tree_arity(), 0);
}
