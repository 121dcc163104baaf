//! The continuous-campaign control loop as a state machine over plain
//! values. The caller owns the outside work (spawning the engine toolchain,
//! refreshing dependencies) and reports each outcome back; this module owns
//! every decision: which target runs next, whether a failure skips or aborts,
//! when a cycle ends, and when the whole campaign is done.

use vstd::prelude::*;

use crate::errors::UnknownTarget;
use crate::paths::Fuzzer;
use crate::suggest::did_you_mean;
use crate::suggest::is_chosen;
use crate::text::contains_seq;
use crate::text::str_eq;

verus! {

/// How one subprocess invocation ended. `SoftFailure` is the engine's own
/// convention for "this session ended" (crash found, timeout, interruption);
/// `HardFailure` is an infrastructure error such as a failed spawn.
#[derive(Clone, Copy, PartialEq, Eq, Structural, Debug)]
pub enum RunOutcome {
    Success,
    SoftFailure,
    HardFailure,
}

/// Classifies one invocation: a process that could not be spawned is an
/// infrastructure failure; one that ran and exited non-zero signals the end
/// of a fuzzing session by the wrapped engine's convention.
pub fn classify_run(spawned: bool, exit_success: bool) -> (r: RunOutcome)
    ensures
        r is HardFailure <==> !spawned,
        r is Success <==> spawned && exit_success,
        r is SoftFailure <==> spawned && !exit_success,
{
    if !spawned {
        RunOutcome::HardFailure
    } else if exit_success {
        RunOutcome::Success
    } else {
        RunOutcome::SoftFailure
    }
}

/// Everything one campaign invocation is configured with; immutable for its
/// duration.
pub struct CampaignConfig {
    /// Only run targets whose name contains this text.
    pub filter: Option<String>,
    /// Seconds each target may fuzz before its session is stopped.
    pub timeout: Option<u64>,
    /// Restart the cycle from the first target forever.
    pub infinite: bool,
    /// The selected engine.
    pub fuzzer: Fuzzer,
    /// Run the dependency-refresh step between cycles.
    pub cargo_update: bool,
}

/// The names of `names` that contain `filter`, in their given order; no
/// filter keeps them all.
pub open spec fn filtered_names(names: Seq<Seq<char>>, filter: Option<Seq<char>>) -> Seq<
    Seq<char>,
>
    decreases names.len(),
{
    match filter {
        Option::None => names,
        Option::Some(f) => if names.len() == 0 {
            names
        } else {
            let rest = filtered_names(names.drop_last(), filter);
            if contains_seq(names.last(), f) {
                rest.push(names.last())
            } else {
                rest
            }
        },
    }
}

/// Narrows the discovered targets to those whose identifier contains the
/// configured text, keeping discovery order; with no filter, all targets run.
pub fn filter_targets(targets: &Vec<String>, filter: &Option<String>) -> (r: Vec<String>)
    ensures
        r.deep_view() == filtered_names(targets.deep_view(), filter.deep_view()),
{
    match filter {
        None => {
            let mut kept: Vec<String> = Vec::new();
            let n = targets.len();
            let mut i: usize = 0;
            while i < n
                invariant
                    n == targets@.len(),
                    0 <= i <= n,
                    kept.deep_view() == targets.deep_view().take(i as int),
                decreases n - i,
            {
                let ghost old_dv = kept.deep_view();
                kept.push(String::from_str(targets[i].as_str()));
                proof {
                    assert(kept.deep_view() =~= old_dv.push(targets.deep_view()[i as int]));
                    assert(kept.deep_view() =~= targets.deep_view().take(i + 1));
                }
                i = i + 1;
            }
            proof {
                assert(targets.deep_view().take(n as int) =~= targets.deep_view());
            }
            kept
        },
        Some(f) => {
            let mut kept: Vec<String> = Vec::new();
            let n = targets.len();
            let mut i: usize = 0;
            while i < n
                invariant
                    n == targets@.len(),
                    0 <= i <= n,
                    kept.deep_view() == filtered_names(
                        targets.deep_view().take(i as int),
                        Some(f@),
                    ),
                decreases n - i,
            {
                let ghost old_dv = kept.deep_view();
                let ghost pre = targets.deep_view().take(i + 1);
                proof {
                    assert(pre.drop_last() =~= targets.deep_view().take(i as int));
                    assert(pre.last() == targets.deep_view()[i as int]);
                }
                if crate::text::contains_str(targets[i].as_str(), f.as_str()) {
                    kept.push(String::from_str(targets[i].as_str()));
                    proof {
                        assert(kept.deep_view() =~= old_dv.push(targets.deep_view()[i as int]));
                    }
                }
                i = i + 1;
            }
            proof {
                assert(targets.deep_view().take(n as int) =~= targets.deep_view());
            }
            kept
        },
    }
}

/// Where the campaign stands.
#[derive(Clone, Copy, PartialEq, Eq, Structural, Debug)]
pub enum CampaignStatus {
    /// Targets remain to run, or a new cycle can begin.
    Running,
    /// Every cycle finished.
    Done,
    /// An infrastructure failure stopped the campaign.
    Aborted,
}

/// What the caller is to do next.
#[derive(PartialEq, Eq, Structural, Debug)]
pub enum CampaignAction {
    /// Run the target at this position of the run set.
    RunTarget(usize),
    /// The cycle is over; when the flag is set, run the dependency-refresh
    /// step before reporting back.
    EndCycle(bool),
    /// The campaign is over; stop.
    Halt,
}

/// The campaign state machine: the filtered run set, the position of the
/// next target, and the flags that govern cycling.
pub struct CampaignState {
    /// The filtered run set, fixed for the whole campaign.
    pub targets: Vec<String>,
    /// The position in `targets` of the next target to run.
    pub next: usize,
    /// Restart the cycle forever instead of stopping after one pass.
    pub infinite: bool,
    /// Run the dependency-refresh step between cycles.
    pub refresh: bool,
    /// Where the campaign stands.
    pub status: CampaignStatus,
}

impl CampaignState {
    /// The state is coherent: the position never leaves the run set behind
    /// by more than one.
    pub open spec fn wf(self) -> bool {
        self.next <= self.targets@.len()
    }

    /// Starts a campaign: the run set is the discovered targets narrowed by
    /// the configured filter, and the first target is up.
    pub fn start(cfg: &CampaignConfig, discovered: &Vec<String>) -> (s: CampaignState)
        ensures
            s.wf(),
            s.targets.deep_view() == filtered_names(
                discovered.deep_view(),
                cfg.filter.deep_view(),
            ),
            s.next == 0,
            s.infinite == cfg.infinite,
            s.refresh == cfg.cargo_update,
            s.status is Running,
    {
        CampaignState {
            targets: filter_targets(discovered, &cfg.filter),
            next: 0,
            infinite: cfg.infinite,
            refresh: cfg.cargo_update,
            status: CampaignStatus::Running,
        }
    }

    /// What to do next: run the pending target, close the cycle when the run
    /// set is exhausted, or stop once the campaign is done or aborted.
    pub fn next_action(&self) -> (a: CampaignAction)
        requires
            self.wf(),
        ensures
            self.status is Running && self.next < self.targets@.len() ==> a == CampaignAction::RunTarget(
                self.next,
            ),
            self.status is Running && self.next == self.targets@.len() ==> a == CampaignAction::EndCycle(
                self.infinite && self.refresh,
            ),
            !(self.status is Running) ==> a == CampaignAction::Halt,
    {
        match self.status {
            CampaignStatus::Running => {
                if self.next < self.targets.len() {
                    CampaignAction::RunTarget(self.next)
                } else {
                    CampaignAction::EndCycle(self.infinite && self.refresh)
                }
            },
            _ => CampaignAction::Halt,
        }
    }

    /// The name of the target at position `i` of the run set.
    pub fn target_at(&self, i: usize) -> (t: String)
        requires
            i < self.targets@.len(),
        ensures
            t@ == self.targets.deep_view()[i as int],
    {
        String::from_str(self.targets[i].as_str())
    }

    /// Records how the pending target's run ended. The failure-isolation
    /// contract of the whole system: an engine-signaled failure only skips
    /// to the next target, while an infrastructure failure aborts the
    /// campaign at once, with no further target attempted.
    pub fn record_outcome(&mut self, outcome: RunOutcome)
        requires
            old(self).wf(),
            old(self).status is Running,
            old(self).next < old(self).targets@.len(),
        ensures
            final(self).wf(),
            final(self).targets == old(self).targets,
            final(self).infinite == old(self).infinite,
            final(self).refresh == old(self).refresh,
            outcome is HardFailure ==> final(self).status is Aborted && final(self).next == old(
                self,
            ).next,
            !(outcome is HardFailure) ==> final(self).status is Running && final(self).next == old(
                self,
            ).next + 1,
    {
        match outcome {
            RunOutcome::HardFailure => {
                self.status = CampaignStatus::Aborted;
            },
            _ => {
                let n = self.targets.len();
                assert(self.next < n);
                self.next = self.next + 1;
            },
        }
    }

    /// Closes a cycle. One pass is the whole campaign unless it is infinite;
    /// an infinite campaign restarts from the first target, aborting instead
    /// when the dependency-refresh step it asked for failed.
    pub fn end_cycle(&mut self, refresh_ok: bool)
        requires
            old(self).wf(),
            old(self).status is Running,
            old(self).next == old(self).targets@.len(),
        ensures
            final(self).wf(),
            final(self).targets == old(self).targets,
            final(self).infinite == old(self).infinite,
            final(self).refresh == old(self).refresh,
            !old(self).infinite ==> final(self).status is Done,
            old(self).infinite && !refresh_ok ==> final(self).status is Aborted,
            old(self).infinite && refresh_ok ==> final(self).status is Running && final(self).next
                == 0,
    {
        if !self.infinite {
            self.status = CampaignStatus::Done;
        } else if !refresh_ok {
            self.status = CampaignStatus::Aborted;
        } else {
            self.next = 0;
        }
    }
}

/// True when `name` is a member of the discovered target set.
pub open spec fn contains_name(names: Seq<Seq<char>>, name: Seq<char>) -> bool {
    exists|i: int| 0 <= i < names.len() && #[trigger] names[i] == name
}

/// Membership of a requested name in the freshly discovered target set.
pub fn is_known_target(name: &str, targets: &Vec<String>) -> (r: bool)
    ensures
        r == contains_name(targets.deep_view(), name@),
{
    let n = targets.len();
    let mut i: usize = 0;
    while i < n
        invariant
            n == targets@.len(),
            0 <= i <= n,
            forall|k: int| 0 <= k < i ==> #[trigger] targets.deep_view()[k] != name@,
        decreases n - i,
    {
        if str_eq(targets[i].as_str(), name) {
            assert(targets.deep_view()[i as int] == name@);
            return true;
        }
        i = i + 1;
    }
    false
}

/// Validates the requested name of a single-target operation against the
/// freshly discovered target set, before anything is spawned. An unknown
/// name fails at once, carrying the best-effort corrected suggestion that
/// the given similarity scores single out.
pub fn check_target(
    requested: &str,
    targets: &Vec<String>,
    scores: &Vec<u64>,
    threshold: u64,
) -> (r: Result<(), UnknownTarget>)
    requires
        targets@.len() == scores@.len(),
    ensures
        r is Ok <==> contains_name(targets.deep_view(), requested@),
        r matches Err(e) ==> {
            &&& e.requested@ == requested@
            &&& (e.suggestion is None <==> (forall|i: int|
                0 <= i < scores@.len() ==> #[trigger] scores@[i] <= threshold))
            &&& (e.suggestion matches Some(s) ==> exists|i: int|
                is_chosen(scores@, threshold, i) && s@ == targets@[i]@)
        },
{
    if is_known_target(requested, targets) {
        Ok(())
    } else {
        let suggestion = did_you_mean(targets, scores, threshold);
        Err(UnknownTarget { requested: String::from_str(requested), suggestion })
    }
}

} // verus!
