//! Sector sizes and the fixed per-size parameter tables.

use vstd::prelude::*;

verus! {

pub const SECTOR_SIZE_2_KIB: u64 = 2048;

pub const SECTOR_SIZE_4_KIB: u64 = 4096;

pub const SECTOR_SIZE_16_KIB: u64 = 16384;

pub const SECTOR_SIZE_32_KIB: u64 = 32768;

pub const SECTOR_SIZE_8_MIB: u64 = 8388608;

pub const SECTOR_SIZE_16_MIB: u64 = 16777216;

pub const SECTOR_SIZE_512_MIB: u64 = 536870912;

pub const SECTOR_SIZE_1_GIB: u64 = 1073741824;

pub const SECTOR_SIZE_32_GIB: u64 = 34359738368;

pub const SECTOR_SIZE_64_GIB: u64 = 68719476736;

pub const WINNING_POST_CHALLENGE_COUNT: usize = 66;

pub const WINNING_POST_SECTOR_COUNT: usize = 1;

pub const WINDOW_POST_CHALLENGE_COUNT: usize = 10;

/// Lower bound on the number of proofs in one non-interactive PoRep aggregate.
pub const FIP92_MIN_NI_POREP_AGGREGATION_PROOFS: usize = 1;

/// Upper bound on the number of proofs in one non-interactive PoRep aggregate.
pub const FIP92_MAX_NI_POREP_AGGREGATION_PROOFS: usize = 65;

/// The size of a single snark proof.
pub const SINGLE_PARTITION_PROOF_LEN: usize = 192;

/// The size of one tree node (one field element) in bytes.
pub const NODE_SIZE: u64 = 32;

pub const MINIMUM_RESERVED_LEAVES_FOR_PIECE_IN_SECTOR: u64 = 4;

/// Bit padding aligns bytes only every 127 bytes (31.75 bytes per node).
pub const MINIMUM_RESERVED_BYTES_FOR_PIECE_IN_FULLY_ALIGNED_SECTOR: u64 = 4 * 32 - 1;

/// The minimum size, in unpadded bytes, that a single piece must have.
pub const MIN_PIECE_SIZE: u64 = 127;

/// The maximum number of challenges per partition the circuits can work with.
pub const MAX_CHALLENGES_PER_PARTITION: u8 = 18;

/// The arity of the binary tree built over the sector's data (tree_d).
pub const BINARY_ARITY: usize = 2;

/// The arity of the octal trees built over labels and replica (tree_c, tree_r_last).
pub const OCT_ARITY: usize = 8;

/// The sector sizes for which parameters are supported.
pub open spec fn is_supported_sector_size(s: u64) -> bool {
    ||| s == SECTOR_SIZE_2_KIB
    ||| s == SECTOR_SIZE_4_KIB
    ||| s == SECTOR_SIZE_16_KIB
    ||| s == SECTOR_SIZE_32_KIB
    ||| s == SECTOR_SIZE_8_MIB
    ||| s == SECTOR_SIZE_16_MIB
    ||| s == SECTOR_SIZE_512_MIB
    ||| s == SECTOR_SIZE_1_GIB
    ||| s == SECTOR_SIZE_32_GIB
    ||| s == SECTOR_SIZE_64_GIB
}

/// The supported sizes that use the small (test) parameter set.
pub open spec fn is_small_sector_size(s: u64) -> bool {
    ||| s == SECTOR_SIZE_2_KIB
    ||| s == SECTOR_SIZE_4_KIB
    ||| s == SECTOR_SIZE_16_KIB
    ||| s == SECTOR_SIZE_32_KIB
    ||| s == SECTOR_SIZE_8_MIB
    ||| s == SECTOR_SIZE_16_MIB
    ||| s == SECTOR_SIZE_512_MIB
}

/// The sector sizes for which parameters have been published.
pub open spec fn is_published_sector_size(s: u64) -> bool {
    ||| s == SECTOR_SIZE_2_KIB
    ||| s == SECTOR_SIZE_8_MIB
    ||| s == SECTOR_SIZE_512_MIB
    ||| s == SECTOR_SIZE_32_GIB
    ||| s == SECTOR_SIZE_64_GIB
}

/// Whether `sector_size` is one of the supported sector sizes.
pub fn is_supported(sector_size: u64) -> (r: bool)
    ensures
        r == is_supported_sector_size(sector_size),
{
    is_small(sector_size) || sector_size == SECTOR_SIZE_1_GIB || sector_size == SECTOR_SIZE_32_GIB
        || sector_size == SECTOR_SIZE_64_GIB
}

fn is_small(sector_size: u64) -> (r: bool)
    ensures
        r == is_small_sector_size(sector_size),
{
    sector_size == SECTOR_SIZE_2_KIB || sector_size == SECTOR_SIZE_4_KIB || sector_size
        == SECTOR_SIZE_16_KIB || sector_size == SECTOR_SIZE_32_KIB || sector_size
        == SECTOR_SIZE_8_MIB || sector_size == SECTOR_SIZE_16_MIB || sector_size
        == SECTOR_SIZE_512_MIB
}

/// Whether parameters have been published for `sector_size`.
pub fn is_published(sector_size: u64) -> (r: bool)
    ensures
        r == is_published_sector_size(sector_size),
{
    sector_size == SECTOR_SIZE_2_KIB || sector_size == SECTOR_SIZE_8_MIB || sector_size
        == SECTOR_SIZE_512_MIB || sector_size == SECTOR_SIZE_32_GIB || sector_size
        == SECTOR_SIZE_64_GIB
}

/// All supported sector sizes, smallest first.
pub fn supported_sector_sizes() -> (r: Vec<u64>)
    ensures
        r@ == seq![
            SECTOR_SIZE_2_KIB,
            SECTOR_SIZE_4_KIB,
            SECTOR_SIZE_16_KIB,
            SECTOR_SIZE_32_KIB,
            SECTOR_SIZE_8_MIB,
            SECTOR_SIZE_16_MIB,
            SECTOR_SIZE_512_MIB,
            SECTOR_SIZE_1_GIB,
            SECTOR_SIZE_32_GIB,
            SECTOR_SIZE_64_GIB,
        ],
{
    vec![
        SECTOR_SIZE_2_KIB,
        SECTOR_SIZE_4_KIB,
        SECTOR_SIZE_16_KIB,
        SECTOR_SIZE_32_KIB,
        SECTOR_SIZE_8_MIB,
        SECTOR_SIZE_16_MIB,
        SECTOR_SIZE_512_MIB,
        SECTOR_SIZE_1_GIB,
        SECTOR_SIZE_32_GIB,
        SECTOR_SIZE_64_GIB,
    ]
}

/// The number of PoRep partitions of a supported sector size.
pub open spec fn spec_porep_partitions(s: u64) -> u8 {
    if is_small_sector_size(s) {
        1
    } else {
        10
    }
}

/// The number of labeling layers of a supported sector size.
pub open spec fn spec_layers(s: u64) -> usize {
    if is_small_sector_size(s) {
        2
    } else {
        11
    }
}

/// The number of sectors in one window PoSt partition, for a supported sector size.
pub open spec fn spec_window_post_sector_count(s: u64) -> usize {
    if is_small_sector_size(s) {
        2
    } else if s == SECTOR_SIZE_1_GIB {
        25
    } else if s == SECTOR_SIZE_32_GIB {
        2349
    } else {
        2300
    }
}

/// Looks up the number of PoRep partitions; `None` for an unsupported size.
pub fn porep_partitions(sector_size: u64) -> (r: Option<u8>)
    ensures
        r == (if is_supported_sector_size(sector_size) {
            Some(spec_porep_partitions(sector_size))
        } else {
            None
        }),
{
    if is_small(sector_size) {
        Some(1)
    } else if is_supported(sector_size) {
        Some(10)
    } else {
        None
    }
}

/// Looks up the number of labeling layers; `None` for an unsupported size.
pub fn layers(sector_size: u64) -> (r: Option<usize>)
    ensures
        r == (if is_supported_sector_size(sector_size) {
            Some(spec_layers(sector_size))
        } else {
            None
        }),
{
    if is_small(sector_size) {
        Some(2)
    } else if is_supported(sector_size) {
        Some(11)
    } else {
        None
    }
}

/// Looks up the number of sectors per window PoSt partition; `None` for an unsupported size.
pub fn window_post_sector_count(sector_size: u64) -> (r: Option<usize>)
    ensures
        r == (if is_supported_sector_size(sector_size) {
            Some(spec_window_post_sector_count(sector_size))
        } else {
            None
        }),
{
    if is_small(sector_size) {
        Some(2)
    } else if sector_size == SECTOR_SIZE_1_GIB {
        Some(25)
    } else if sector_size == SECTOR_SIZE_32_GIB {
        Some(2349)
    } else if sector_size == SECTOR_SIZE_64_GIB {
        Some(2300)
    } else {
        None
    }
}

/// Returns the minimum number of challenges of the (synthetic and non-synthetic)
/// interactive PoRep for a sector size.
pub fn get_porep_interactive_minimum_challenges(sector_size: u64) -> (r: usize)
    requires
        is_supported_sector_size(sector_size),
    ensures
        r == (if is_small_sector_size(sector_size) {
            2usize
        } else {
            176usize
        }),
{
    if is_small(sector_size) {
        2
    } else {
        176
    }
}

/// Returns the minimum number of challenges of the non-interactive PoRep for a sector
/// size, i.e. `ceil(12.8 * interactive_minimum_challenges)`.
pub fn get_porep_non_interactive_minimum_challenges(sector_size: u64) -> (r: usize)
    requires
        is_supported_sector_size(sector_size),
    ensures
        r == (if is_small_sector_size(sector_size) || sector_size == SECTOR_SIZE_1_GIB {
            26usize
        } else {
            2253usize
        }),
{
    if is_small(sector_size) || sector_size == SECTOR_SIZE_1_GIB {
        26
    } else {
        2253
    }
}

/// Returns the number of partitions of the non-interactive PoRep for a sector size.
///
/// Test sizes use two challenges per partition and production sizes eighteen, so that
/// the parameter files of the interactive PoRep can be reused.
pub fn get_porep_non_interactive_partitions(sector_size: u64) -> (r: u8)
    requires
        is_supported_sector_size(sector_size),
    ensures
        r == (if is_small_sector_size(sector_size) || sector_size == SECTOR_SIZE_1_GIB {
            13u8
        } else {
            126u8
        }),
{
    if is_small(sector_size) || sector_size == SECTOR_SIZE_1_GIB {
        13
    } else {
        126
    }
}

} // verus!
