use std::str::FromStr;
use std::time::Duration;

use filecoin_proofs::constants::{
    SECTOR_SIZE_2_KIB, SECTOR_SIZE_32_GIB, SECTOR_SIZE_8_MIB, WINDOW_POST_CHALLENGE_COUNT,
    WINNING_POST_CHALLENGE_COUNT,
};
use filecoin_proofs::harness::{
    harness_post_config, worker_plan, Inbox, Mode, ProofLoop, RunInfo, UnknownMode,
};
use filecoin_proofs::post::{
    check_faults, partition_count, window_post_config, winning_post_config, ApiVersion,
    PoStError, PoStType, SectorOutcome,
};

#[test]
fn mode_names() {
    assert_eq!(Mode::parse("threads"), Ok(Mode::Threads));
    assert_eq!(Mode::parse("processes"), Ok(Mode::Processes));
    assert_eq!(Mode::from_str("processes"), Ok(Mode::Processes));
    let err = Mode::parse("fibers").unwrap_err();
    assert_eq!(err, UnknownMode { value: "fibers".to_string() });
    assert_eq!(err.message(), "unknown mode 'fibers'");
    assert!(Mode::parse("Threads").is_err());
}

#[test]
fn worker_names_and_priorities() {
    let w = worker_plan(3, true);
    let names: Vec<&str> = w.iter().map(|w| w.name.as_str()).collect();
    assert_eq!(names, vec!["high", "low-01", "low-02"]);
    assert!(w[0].gpu_stealing);
    assert!(!w[1].gpu_stealing && !w[2].gpu_stealing);
    let one = worker_plan(1, false);
    assert_eq!(one.len(), 1);
    assert!(!one[0].gpu_stealing);
    assert_eq!(worker_plan(0, true).len(), 1);
    let many = worker_plan(12, false);
    assert_eq!(many[9].name, "low-09");
    assert_eq!(many[11].name, "low-11");
    assert_eq!(worker_plan(255, false)[254].name, "low-254");
}

#[test]
fn proof_loop_stops_on_message() {
    let mut l = ProofLoop::new();
    assert!(l.should_prove());
    l.after_proof(Inbox::Empty);
    l.after_proof(Inbox::Empty);
    assert_eq!(l.iteration, 2);
    assert!(l.should_prove());
    l.after_proof(Inbox::Stop);
    assert!(!l.should_prove());
    assert_eq!(l.iteration, 2);
    let mut d = ProofLoop::new();
    d.after_proof(Inbox::Disconnected);
    assert!(!d.should_prove());
    assert_eq!(d.iteration, 0);
}

#[test]
fn proof_loop_ends_at_counter_limit() {
    let mut l = ProofLoop::new();
    let mut proofs = 0;
    while l.should_prove() {
        proofs += 1;
        l.after_proof(Inbox::Empty);
    }
    assert_eq!(proofs, 255);
    assert_eq!(l.iteration, 255);
    let info = RunInfo::new(Duration::from_secs(3), l.iteration);
    assert_eq!(info.iterations(), 255);
    assert_eq!(*info.elapsed(), Duration::from_secs(3));
}

#[test]
fn harness_config() {
    let c = harness_post_config(true);
    assert_eq!(c.sector_size, SECTOR_SIZE_8_MIB);
    assert_eq!(c.challenge_count, 66);
    assert_eq!(c.sector_count, 1);
    assert_eq!(c.typ, PoStType::Winning);
    assert!(c.priority);
    assert_eq!(c.api_version, ApiVersion::V1_2_0);
    assert!(!harness_post_config(false).priority);
}

#[test]
fn post_configs() {
    let w = winning_post_config(SECTOR_SIZE_2_KIB, ApiVersion::V1_1_0, false);
    assert_eq!(w.challenge_count, WINNING_POST_CHALLENGE_COUNT);
    assert_eq!(w.sector_count, 1);
    let v = window_post_config(SECTOR_SIZE_32_GIB, ApiVersion::V1_2_0, false).unwrap();
    assert_eq!(v.typ, PoStType::Window);
    assert_eq!(v.challenge_count, WINDOW_POST_CHALLENGE_COUNT);
    assert_eq!(v.sector_count, 2349);
    assert_eq!(window_post_config(1000, ApiVersion::V1_2_0, false), None);
}

#[test]
fn partitions() {
    assert_eq!(partition_count(0, 2), 0);
    assert_eq!(partition_count(1, 2), 1);
    assert_eq!(partition_count(4, 2), 2);
    assert_eq!(partition_count(5, 2), 3);
    assert_eq!(partition_count(2349, 2349), 1);
    assert_eq!(partition_count(usize::MAX, 1), usize::MAX);
}

#[test]
fn faulty_sectors_are_all_reported() {
    let outcomes: Vec<SectorOutcome> = (0..6u64)
        .map(|i| SectorOutcome { sector_id: 100 + i, proved: i != 1 && i != 4 })
        .collect();
    assert_eq!(check_faults(&outcomes), Err(PoStError::FaultySectors(vec![101, 104])));
    let healthy: Vec<SectorOutcome> =
        (0..3u64).map(|i| SectorOutcome { sector_id: i, proved: true }).collect();
    assert_eq!(check_faults(&healthy), Ok(()));
    assert_eq!(check_faults(&vec![]), Ok(()));
}
