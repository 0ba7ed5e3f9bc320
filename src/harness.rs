//! The decisions of the harness that runs winning PoSt proofs of high and low
//! priority side by side, to test how they share an accelerator.

use vstd::prelude::*;

use std::time::Duration;

use crate::constants::SECTOR_SIZE_8_MIB;
use crate::post::{winning_post_config, ApiVersion, PoStConfig, PoStType};
use crate::text::{decimal, decimal_string, same_text};

verus! {

/// How the proofs are run side by side.
#[derive(Clone, Copy, Debug, PartialEq, Eq, Structural)]
pub enum Mode {
    Threads,
    Processes,
}

/// A mode name that is neither `threads` nor `processes`.
#[derive(Clone, Debug, PartialEq, Eq)]
pub struct UnknownMode {
    pub value: String,
}

impl UnknownMode {
    /// The message that reports the unknown mode.
    pub fn message(&self) -> (r: String)
        ensures
            r@ == "unknown mode '"@ + self.value@ + "'"@,
    {
        let mut m = String::from_str("unknown mode '");
        m.append(self.value.as_str());
        m.append("'");
        m
    }
}

impl Mode {
    /// Reads a mode name.
    pub fn parse(s: &str) -> (r: Result<Mode, UnknownMode>)
        ensures
            s@ == "threads"@ ==> r == Ok::<Mode, UnknownMode>(Mode::Threads),
            s@ == "processes"@ ==> r == Ok::<Mode, UnknownMode>(Mode::Processes),
            s@ != "threads"@ && s@ != "processes"@ ==> r is Err && r->Err_0.value@ == s@,
    {
        proof {
            reveal_strlit("threads");
            reveal_strlit("processes");
        }
        assert("threads"@.len() != "processes"@.len());
        if same_text(s, "threads") {
            Ok(Mode::Threads)
        } else if same_text(s, "processes") {
            Ok(Mode::Processes)
        } else {
            Err(UnknownMode { value: String::from_str(s) })
        }
    }
}

impl std::str::FromStr for Mode {
    type Err = UnknownMode;

    fn from_str(s: &str) -> Result<Mode, UnknownMode> {
        Mode::parse(s)
    }
}

/// How long a proving thread ran and how many iterations it completed.
#[derive(Debug)]
pub struct RunInfo {
    elapsed: Duration,
    iterations: u8,
}

impl RunInfo {
    pub closed spec fn spec_iterations(&self) -> u8 {
        self.iterations
    }

    pub closed spec fn spec_elapsed(&self) -> Duration {
        self.elapsed
    }

    pub fn new(elapsed: Duration, iterations: u8) -> (r: RunInfo)
        ensures
            r.spec_iterations() == iterations,
            r.spec_elapsed() == elapsed,
    {
        RunInfo { elapsed, iterations }
    }

    pub fn iterations(&self) -> (r: u8)
        ensures
            r == self.spec_iterations(),
    {
        self.iterations
    }

    pub fn elapsed(&self) -> (r: &Duration)
        ensures
            *r == self.spec_elapsed(),
    {
        &self.elapsed
    }
}

/// One proving worker: its name, and whether its proofs ask for priority.
#[derive(Clone, Debug, PartialEq, Eq)]
pub struct Worker {
    pub name: String,
    pub gpu_stealing: bool,
}

/// The name of worker `i`: `high` for the first, then `low-01`, `low-02`, ...
pub open spec fn worker_name(i: nat) -> Seq<char> {
    if i == 0 {
        "high"@
    } else if i < 10 {
        "low-0"@ + decimal(i)
    } else {
        "low-"@ + decimal(i)
    }
}

/// The number of workers for a requested parallelism: there is always the
/// high-priority one.
pub open spec fn worker_count(parallel: u8) -> nat {
    if parallel == 0 {
        1
    } else {
        parallel as nat
    }
}

fn worker_name_exec(i: u8) -> (r: String)
    ensures
        r@ == worker_name(i as nat),
{
    proof {
        reveal_strlit("high");
        reveal_strlit("low-0");
        reveal_strlit("low-");
    }
    if i == 0 {
        String::from_str("high")
    } else {
        let mut name = if i < 10 {
            String::from_str("low-0")
        } else {
            String::from_str("low-")
        };
        let digits = decimal_string(i as u64);
        name.append(digits.as_str());
        name
    }
}

/// The workers to start: first the high-priority one, which asks for priority when
/// `gpu_stealing` is set, then `parallel - 1` low-priority ones, which never do.
pub fn worker_plan(parallel: u8, gpu_stealing: bool) -> (r: Vec<Worker>)
    ensures
        r@.len() == worker_count(parallel),
        forall|i: int|
            0 <= i < r@.len() ==> (#[trigger] r@[i]).name@ == worker_name(i as nat)
                && r@[i].gpu_stealing == (i == 0 && gpu_stealing),
{
    let mut workers: Vec<Worker> = Vec::new();
    workers.push(Worker { name: worker_name_exec(0), gpu_stealing });
    let mut i: u8 = 1;
    while i < parallel
        invariant
            1 <= i,
            parallel == 0 ==> i == 1,
            parallel > 0 ==> i <= parallel,
            workers@.len() == i as nat,
            forall|j: int|
                0 <= j < workers@.len() ==> (#[trigger] workers@[j]).name@ == worker_name(
                    j as nat,
                ) && workers@[j].gpu_stealing == (j == 0 && gpu_stealing),
        decreases parallel - i,
    {
        workers.push(Worker { name: worker_name_exec(i), gpu_stealing: false });
        i = i + 1;
    }
    workers
}

/// The proof parameters of the harness: winning PoSt on 8 MiB sectors, asking for
/// priority when `priority` is set.
pub fn harness_post_config(priority: bool) -> (r: PoStConfig)
    ensures
        r.sector_size == SECTOR_SIZE_8_MIB,
        r.typ == PoStType::Winning,
        r.sector_count == 1,
        r.challenge_count == 66,
        r.priority == priority,
        r.api_version == ApiVersion::V1_2_0,
{
    winning_post_config(SECTOR_SIZE_8_MIB, ApiVersion::V1_2_0, priority)
}

/// What a proving thread found in its inbox after a proof.
#[derive(Clone, Copy, Debug, PartialEq, Eq, Structural)]
pub enum Inbox {
    /// A message to stop.
    Stop,
    /// The sender is gone.
    Disconnected,
    /// Nothing.
    Empty,
}

/// The state of a proving thread's loop: it proves until told to stop or until the
/// iteration counter reaches its maximum.
#[derive(Clone, Copy, Debug, PartialEq, Eq, Structural)]
pub struct ProofLoop {
    pub iteration: u8,
    pub stopped: bool,
}

impl ProofLoop {
    pub fn new() -> (r: ProofLoop)
        ensures
            r.iteration == 0,
            !r.stopped,
    {
        ProofLoop { iteration: 0, stopped: false }
    }

    /// Whether to run another proof.
    pub fn should_prove(&self) -> (r: bool)
        ensures
            r == (!self.stopped && self.iteration < u8::MAX),
    {
        !self.stopped && self.iteration < u8::MAX
    }

    /// Records what the inbox held after a proof: a stop message or a lost sender
    /// stop the loop; else the next iteration begins.
    pub fn after_proof(&mut self, inbox: Inbox)
        requires
            !old(self).stopped,
            old(self).iteration < u8::MAX,
        ensures
            inbox == Inbox::Empty ==> *final(self) == (ProofLoop {
                iteration: (old(self).iteration + 1) as u8,
                stopped: false,
            }),
            inbox != Inbox::Empty ==> *final(self) == (ProofLoop {
                iteration: old(self).iteration,
                stopped: true,
            }),
    {
        match inbox {
            Inbox::Empty => {
                self.iteration = self.iteration + 1;
            },
            _ => {
                self.stopped = true;
            },
        }
    }
}

} // verus!
