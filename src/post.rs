//! Proof-of-spacetime parameters, partitioning, and fault collection.

use vstd::prelude::*;

use crate::constants::{
    is_supported_sector_size, spec_window_post_sector_count, window_post_sector_count,
    WINDOW_POST_CHALLENGE_COUNT, WINNING_POST_CHALLENGE_COUNT, WINNING_POST_SECTOR_COUNT,
};

verus! {

/// The two kinds of proof of spacetime.
#[derive(Clone, Copy, Debug, PartialEq, Eq, Structural)]
pub enum PoStType {
    Winning,
    Window,
}

/// The proof API versions.
#[derive(Clone, Copy, Debug, PartialEq, Eq, Structural)]
pub enum ApiVersion {
    V1_0_0,
    V1_1_0,
    V1_2_0,
}

/// The parameters of one proof of spacetime.
#[derive(Clone, Copy, Debug, PartialEq, Eq, Structural)]
pub struct PoStConfig {
    pub sector_size: u64,
    /// Challenges per sector.
    pub challenge_count: usize,
    /// Sectors per partition.
    pub sector_count: usize,
    pub typ: PoStType,
    /// An advisory hint that the proof should take precedence on shared hardware.
    pub priority: bool,
    pub api_version: ApiVersion,
}

/// The winning PoSt parameters: one sector per proof, with the winning challenge count.
pub fn winning_post_config(sector_size: u64, api_version: ApiVersion, priority: bool) -> (r:
    PoStConfig)
    ensures
        r == (PoStConfig {
            sector_size,
            challenge_count: WINNING_POST_CHALLENGE_COUNT,
            sector_count: WINNING_POST_SECTOR_COUNT,
            typ: PoStType::Winning,
            priority,
            api_version,
        }),
{
    PoStConfig {
        sector_size,
        challenge_count: WINNING_POST_CHALLENGE_COUNT,
        sector_count: WINNING_POST_SECTOR_COUNT,
        typ: PoStType::Winning,
        priority,
        api_version,
    }
}

/// The window PoSt parameters of a supported sector size, with the sector count of its
/// tier; `None` for an unsupported size.
pub fn window_post_config(sector_size: u64, api_version: ApiVersion, priority: bool) -> (r:
    Option<PoStConfig>)
    ensures
        r == (if is_supported_sector_size(sector_size) {
            Some(
                PoStConfig {
                    sector_size,
                    challenge_count: WINDOW_POST_CHALLENGE_COUNT,
                    sector_count: spec_window_post_sector_count(sector_size),
                    typ: PoStType::Window,
                    priority,
                    api_version,
                },
            )
        } else {
            None
        }),
{
    match window_post_sector_count(sector_size) {
        Some(sector_count) => Some(
            PoStConfig {
                sector_size,
                challenge_count: WINDOW_POST_CHALLENGE_COUNT,
                sector_count,
                typ: PoStType::Window,
                priority,
                api_version,
            },
        ),
        None => None,
    }
}

/// The number of partitions that `num_sectors` sectors fill, `sector_count` to a
/// partition; the last one may be partly filled.
pub fn partition_count(num_sectors: usize, sector_count: usize) -> (r: usize)
    requires
        sector_count > 0,
    ensures
        r == (num_sectors as int + sector_count - 1) / sector_count as int,
        r * sector_count >= num_sectors,
        r == 0 || (r - 1) * sector_count < num_sectors,
{
    let q = num_sectors / sector_count;
    let r = if num_sectors % sector_count == 0 {
        q
    } else {
        assert(q < usize::MAX) by (nonlinear_arith)
            requires
                sector_count > 0,
                num_sectors % sector_count != 0,
                q == num_sectors / sector_count,
                num_sectors <= usize::MAX,
        ;
        q + 1
    };
    assert(r == (num_sectors as int + sector_count - 1) / sector_count as int
        && r * sector_count >= num_sectors && (r == 0 || (r - 1) * sector_count < num_sectors))
        by (nonlinear_arith)
        requires
            sector_count > 0,
            r == num_sectors / sector_count + if num_sectors % sector_count == 0 {
                0int
            } else {
                1int
            },
    ;
    r
}

/// Whether the vanilla proof of one sector could be produced.
#[derive(Clone, Copy, Debug, PartialEq, Eq, Structural)]
pub struct SectorOutcome {
    pub sector_id: u64,
    pub proved: bool,
}

/// Why a batch proof could not be produced.
#[derive(Clone, Debug, PartialEq, Eq)]
pub enum PoStError {
    /// These sectors could not be proven, in the order they were given.
    FaultySectors(Vec<u64>),
}

/// The ids of the sectors whose proof failed, in order.
pub open spec fn spec_faulty(outcomes: Seq<SectorOutcome>) -> Seq<u64>
    decreases outcomes.len(),
{
    if outcomes.len() == 0 {
        seq![]
    } else {
        let prev = spec_faulty(outcomes.drop_last());
        if outcomes.last().proved {
            prev
        } else {
            prev.push(outcomes.last().sector_id)
        }
    }
}

/// The number of sectors whose proof failed.
pub open spec fn spec_fault_count(outcomes: Seq<SectorOutcome>) -> nat
    decreases outcomes.len(),
{
    if outcomes.len() == 0 {
        0
    } else {
        spec_fault_count(outcomes.drop_last()) + if outcomes.last().proved {
            0nat
        } else {
            1nat
        }
    }
}

/// Collects every sector whose vanilla proof failed. Succeeds when all sectors were
/// proven; else fails with `FaultySectors` holding exactly the failed sectors' ids.
pub fn check_faults(outcomes: &Vec<SectorOutcome>) -> (r: Result<(), PoStError>)
    ensures
        r is Ok <==> spec_faulty(outcomes@).len() == 0,
        r is Err ==> r->Err_0->FaultySectors_0@ == spec_faulty(outcomes@),
{
    let mut faulty: Vec<u64> = Vec::new();
    let mut i: usize = 0;
    while i < outcomes.len()
        invariant
            i <= outcomes@.len(),
            faulty@ == spec_faulty(outcomes@.subrange(0, i as int)),
        decreases outcomes@.len() - i,
    {
        assert(outcomes@.subrange(0, i + 1).drop_last() =~= outcomes@.subrange(0, i as int));
        if !outcomes[i].proved {
            faulty.push(outcomes[i].sector_id);
        }
        i = i + 1;
    }
    assert(outcomes@.subrange(0, outcomes@.len() as int) =~= outcomes@);
    if faulty.len() == 0 {
        Ok(())
    } else {
        Err(PoStError::FaultySectors(faulty))
    }
}

/// The faulty ids are exactly the ids of the sectors whose proof failed: an id is
/// reported if and only if some sector with that id failed, and as many ids are
/// reported as sectors failed.
pub proof fn lemma_faults_are_exact(outcomes: Seq<SectorOutcome>)
    ensures
        spec_faulty(outcomes).len() == spec_fault_count(outcomes),
        forall|id: u64|
            spec_faulty(outcomes).contains(id) <==> exists|i: int|
                0 <= i < outcomes.len() && (#[trigger] outcomes[i]).sector_id == id
                    && !outcomes[i].proved,
    decreases outcomes.len(),
{
    if outcomes.len() > 0 {
        let init = outcomes.drop_last();
        lemma_faults_are_exact(init);
        let last = outcomes.last();
        assert forall|id: u64|
            spec_faulty(outcomes).contains(id) <==> exists|i: int|
                0 <= i < outcomes.len() && (#[trigger] outcomes[i]).sector_id == id
                    && !outcomes[i].proved by {
            if spec_faulty(outcomes).contains(id) {
                if spec_faulty(init).contains(id) {
                    let i = choose|i: int|
                        0 <= i < init.len() && (#[trigger] init[i]).sector_id == id
                            && !init[i].proved;
                    assert(outcomes[i] == init[i]);
                } else {
                    assert(!last.proved && last.sector_id == id);
                    assert(outcomes[outcomes.len() - 1] == last);
                }
            }
            if exists|i: int|
                0 <= i < outcomes.len() && (#[trigger] outcomes[i]).sector_id == id
                    && !outcomes[i].proved {
                let i = choose|i: int|
                    0 <= i < outcomes.len() && (#[trigger] outcomes[i]).sector_id == id
                        && !outcomes[i].proved;
                if i < outcomes.len() - 1 {
                    assert(init[i] == outcomes[i]);
                    assert(0 <= i < init.len() && init[i].sector_id == id && !init[i].proved);
                    let f = spec_faulty(init);
                    assert(f.contains(id));
                    let k = choose|k: int| 0 <= k < f.len() && f[k] == id;
                    if !last.proved {
                        assert(spec_faulty(outcomes) == f.push(last.sector_id));
                        assert(spec_faulty(outcomes)[k] == id);
                    }
                } else {
                    assert(spec_faulty(outcomes).last() == id);
                }
            }
        }
    }
}

} // verus!
