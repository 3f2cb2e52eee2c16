//! Evacuating a host: live-migrating each of its VMs elsewhere, one after
//! the other, and what is reported when that stops half way.
use vstd::prelude::*;

use crate::errors::{is_unprocessable, Error};
use crate::ha::ResidentVm;
use crate::ids::{uuid_string, uuid_text};
use crate::jobs::{effects, outcome_view, Effect, JobEffect};
use crate::model::{HostStatus, VmStatus};
use crate::text::{dec, join, join_strings, owned, push_str, push_u64, views};

verus! {

// ---------------------------------------------------------------------------
// Before the evacuation
// ---------------------------------------------------------------------------

/// `name (status)` for each resident VM that is neither running nor paused.
pub open spec fn incompatible_residents(vms: Seq<ResidentVm>) -> Seq<Seq<char>>
    decreases vms.len(),
{
    if vms.len() == 0 {
        seq![]
    } else {
        let v = vms.last();
        incompatible_residents(vms.drop_last()) + if v.status is Running || v.status is Paused {
            Seq::<Seq<char>>::empty()
        } else {
            seq![v.name@ + " ("@ + v.status.name() + ")"@]
        }
    }
}

/// The resident VMs that block an evacuation are exactly those that are
/// neither running nor paused: there are none exactly when every resident
/// is running or paused, and each other resident is listed by name and
/// status.
pub proof fn lemma_incompatible_residents_exact(vms: Seq<ResidentVm>)
    ensures
        incompatible_residents(vms).len() == 0 <==> forall|i: int|
            0 <= i < vms.len() ==> (#[trigger] vms[i]).status is Running || vms[i].status is Paused,
        forall|i: int|
            0 <= i < vms.len() && !((#[trigger] vms[i]).status is Running || vms[i].status is Paused)
                ==> incompatible_residents(vms).contains(vms[i].name@ + " ("@ + vms[i].status.name() + ")"@),
    decreases vms.len(),
{
    if vms.len() > 0 {
        let pre = vms.drop_last();
        lemma_incompatible_residents_exact(pre);
        let v = vms.last();
        let tail = if v.status is Running || v.status is Paused {
            Seq::<Seq<char>>::empty()
        } else {
            seq![v.name@ + " ("@ + v.status.name() + ")"@]
        };
        let c = incompatible_residents(vms);
        let cp = incompatible_residents(pre);
        assert(c == cp + tail);
        assert forall|i: int|
            0 <= i < vms.len() && !((#[trigger] vms[i]).status is Running || vms[i].status is Paused) implies c.contains(
            vms[i].name@ + " ("@ + vms[i].status.name() + ")"@) by {
            if i < vms.len() - 1 {
                assert(pre[i] == vms[i]);
                let x = vms[i].name@ + " ("@ + vms[i].status.name() + ")"@;
                assert(cp.contains(x));
                let k = choose|k: int| 0 <= k < cp.len() && cp[k] == x;
                assert(c[k] == cp[k]);
            } else {
                assert(vms[i] == v);
                assert(c[c.len() - 1] == tail[0]);
            }
        }
        if c.len() == 0 {
            assert(cp.len() == 0 && tail.len() == 0);
            assert forall|i: int| 0 <= i < vms.len() implies (#[trigger] vms[i]).status is Running
                || vms[i].status is Paused by {
                if i < vms.len() - 1 {
                    assert(pre[i] == vms[i]);
                } else {
                    assert(vms[i] == v);
                }
            }
        } else {
            if cp.len() > 0 {
                let i = choose|i: int| 0 <= i < pre.len() && !((#[trigger] pre[i]).status is Running || pre[i].status is Paused);
                assert(vms[i] == pre[i]);
            } else {
                assert(vms[vms.len() - 1] == v);
            }
        }
    }
}

/// Why a host cannot be evacuated, if it cannot: it must be up or in
/// maintenance, and its VMs running or paused.
pub open spec fn evacuation_refusal(host_name: Seq<char>, status: HostStatus, residents: Seq<ResidentVm>) -> Option<
    Seq<char>,
> {
    if !(status is Up || status is Maintenance) {
        Some("host "@ + host_name + " must be up or maintenance to evacuate (current status: "@ + status.name() + ")"@)
    } else if incompatible_residents(residents).len() > 0 {
        Some(
            "host evacuation currently supports only running or paused VMs; incompatible residents: "@ + join(
                incompatible_residents(residents),
                ", "@,
            ),
        )
    } else {
        None
    }
}

/// Checks that a host and its resident VMs can be evacuated.
pub fn check_evacuation(host_name: &str, status: HostStatus, residents: &[ResidentVm]) -> (r: Result<(), Error>)
    ensures
        match evacuation_refusal(host_name@, status, residents@) {
            Some(m) => r matches Err(e) && is_unprocessable(e, m),
            None => r is Ok,
        },
        r is Ok <==> (status is Up || status is Maintenance) && forall|i: int|
            0 <= i < residents.len() ==> (#[trigger] residents@[i]).status is Running || residents@[i].status is Paused,
{
    proof {
        lemma_incompatible_residents_exact(residents@);
    }
    match status {
        HostStatus::Up | HostStatus::Maintenance => {},
        _ => {
            let mut m = owned("host ");
            push_str(&mut m, host_name);
            push_str(&mut m, " must be up or maintenance to evacuate (current status: ");
            push_str(&mut m, status.as_str());
            push_str(&mut m, ")");
            return Err(Error::UnprocessableEntity(m));
        },
    }
    let mut bad: Vec<String> = Vec::new();
    for i in 0..residents.len()
        invariant
            views(bad@) == incompatible_residents(residents@.take(i as int)),
    {
        assert(residents@.take(i + 1).drop_last() =~= residents@.take(i as int));
        let v = &residents[i];
        let ghost before = bad@;
        match v.status {
            VmStatus::Running | VmStatus::Paused => {
                assert(views(bad@) =~= incompatible_residents(residents@.take(i + 1)));
            },
            _ => {
                let mut t = v.name.clone();
                push_str(&mut t, " (");
                push_str(&mut t, v.status.as_str());
                push_str(&mut t, ")");
                bad.push(t);
                assert(views(bad@) =~= views(before).push(t@));
                assert(views(bad@) =~= incompatible_residents(residents@.take(i + 1)));
            },
        }
    }
    assert(residents@.take(residents@.len() as int) =~= residents@);
    if bad.len() > 0 {
        let mut m = owned("host evacuation currently supports only running or paused VMs; incompatible residents: ");
        let list = join_strings(&bad, ", ");
        push_str(&mut m, list.as_str());
        return Err(Error::UnprocessableEntity(m));
    }
    Ok(())
}

// ---------------------------------------------------------------------------
// Progress
// ---------------------------------------------------------------------------

/// The progress after `done` of `total` VMs moved, in percent.
pub open spec fn progress(done: nat, total: nat) -> int {
    ((done * 100) / if total == 0 {
        1nat
    } else {
        total
    }) as int
}

pub fn evacuation_progress(done: usize, total: usize) -> (r: i32)
    requires
        done <= total,
        total <= usize::MAX / 100,
    ensures
        r == progress(done as nat, total as nat),
        0 <= r <= 100,
{
    let d: usize = if total == 0 {
        1
    } else {
        total
    };
    assert(done * 100 <= d * 100) by (nonlinear_arith)
        requires
            done <= d,
    ;
    let p = (done * 100) / d;
    assert(p <= 100) by (nonlinear_arith)
        requires
            p == (done * 100) as int / d as int,
            done * 100 <= d * 100,
            d > 0,
    ;
    p as i32
}

/// Progress never goes back, and reaches 100 once every VM has moved.
pub proof fn lemma_progress_monotone(done: nat, total: nat)
    requires
        done < total,
    ensures
        progress(done, total) <= progress(done + 1, total),
        progress(total, total) == 100,
{
    assert(done * 100 <= (done + 1) * 100) by (nonlinear_arith);
    vstd::arithmetic::div_mod::lemma_div_is_ordered((done * 100) as int, ((done + 1) * 100) as int, total as int);
    assert(total * 100 / total == 100) by (nonlinear_arith)
        requires
            total > 0,
    ;
}

// ---------------------------------------------------------------------------
// When the evacuation stops
// ---------------------------------------------------------------------------

/// The host's status is put back only when no VM has moved yet.
pub fn should_restore_host_status(evacuated: usize) -> (r: bool)
    ensures
        r == (evacuated == 0),
{
    evacuated == 0
}

/// What is reported when an evacuation fails: the message, the host's
/// status afterwards, and whether it was put back. `restore` is the outcome
/// of putting the original status back, when that was attempted.
pub open spec fn failure_report(
    error: Seq<char>,
    original: HostStatus,
    evacuated: nat,
    restore: Option<Result<(), Seq<char>>>,
) -> (Seq<char>, HostStatus, bool) {
    match restore {
        Some(Ok(())) => (error + "; host status restored to "@ + original.name(), original, true),
        Some(Err(e)) => (
            error + "; failed to restore host status to "@ + original.name() + ": "@ + e,
            HostStatus::Maintenance,
            false,
        ),
        None => (
            error + "; host left in maintenance after evacuating "@ + dec(evacuated) + " VM(s)"@,
            HostStatus::Maintenance,
            false,
        ),
    }
}

pub fn evacuation_failure(error: String, original: HostStatus, evacuated: usize, restore: Option<Result<(), String>>) -> (r: (
    String,
    HostStatus,
    bool,
))
    ensures
        (r.0@, r.1, r.2) == failure_report(
            error@,
            original,
            evacuated as nat,
            match restore {
                Some(Ok(())) => Some(Ok(())),
                Some(Err(e)) => Some(Err(e@)),
                None => None,
            },
        ),
{
    let mut m = error;
    match restore {
        Some(Ok(())) => {
            push_str(&mut m, "; host status restored to ");
            push_str(&mut m, original.as_str());
            (m, original, true)
        },
        Some(Err(e)) => {
            push_str(&mut m, "; failed to restore host status to ");
            push_str(&mut m, original.as_str());
            push_str(&mut m, ": ");
            push_str(&mut m, e.as_str());
            (m, HostStatus::Maintenance, false)
        },
        None => {
            push_str(&mut m, "; host left in maintenance after evacuating ");
            push_u64(&mut m, evacuated as u64);
            push_str(&mut m, " VM(s)");
            (m, HostStatus::Maintenance, false)
        },
    }
}

// ---------------------------------------------------------------------------
// The evacuation job
// ---------------------------------------------------------------------------

/// Where an evacuation job is; each VM goes through `Load`, `Plan`,
/// `MarkMigrating` and `Migrate` in turn.
#[derive(Debug, PartialEq, Eq, Structural)]
pub enum EvacuationStage {
    MarkRunning,
    Load,
    Plan,
    MarkMigrating,
    Migrate,
    Finished,
}

/// The action of an evacuation-job step.
#[derive(Debug)]
pub enum EvacuationAction {
    MarkJobRunning,
    /// Read the VM back; the outcome carries its name.
    LoadVm(u128),
    /// Find a destination for the VM and plan its migration there.
    PlanVm(u128),
    /// Record the VM as migrating.
    MarkVmMigrating(u128),
    /// Carry out the planned migration.
    MigrateVm(u128),
}

/// A job evacuating a host's VMs, in order. A `MarkFailed` effect stands for
/// the failure handling above, with the names of the VMs moved so far.
#[derive(Debug)]
pub struct EvacuationJob {
    pub stage: EvacuationStage,
    pub vm_ids: Vec<u128>,
    /// How many VMs have moved.
    pub next: usize,
    /// Name of the VM being moved.
    pub current_name: String,
    /// Names of the VMs moved, in order.
    pub evacuated: Vec<String>,
}

impl EvacuationJob {
    pub open spec fn wf(&self) -> bool {
        &&& self.next <= self.vm_ids.len() <= usize::MAX / 100
        &&& self.evacuated.len() == self.next
        &&& !(self.stage is MarkRunning || self.stage is Finished) ==> self.next < self.vm_ids.len()
        &&& self.stage is MarkRunning ==> self.next == 0
    }

    /// A job moving the VMs with these ids.
    pub fn new(vm_ids: Vec<u128>) -> (j: EvacuationJob)
        requires
            vm_ids.len() <= usize::MAX / 100,
        ensures
            j.wf(),
            j.stage == EvacuationStage::MarkRunning,
            j.vm_ids@ == vm_ids@,
            j.next == 0,
    {
        EvacuationJob {
            stage: EvacuationStage::MarkRunning,
            vm_ids,
            next: 0,
            current_name: String::new(),
            evacuated: Vec::new(),
        }
    }

    /// The action to perform now, none once the job is finished.
    pub fn action(&self) -> (r: Option<EvacuationAction>)
        requires
            self.wf(),
        ensures
            match self.stage {
                EvacuationStage::MarkRunning => r matches Some(EvacuationAction::MarkJobRunning),
                EvacuationStage::Load => r == Some(EvacuationAction::LoadVm(self.vm_ids@[self.next as int])),
                EvacuationStage::Plan => r == Some(EvacuationAction::PlanVm(self.vm_ids@[self.next as int])),
                EvacuationStage::MarkMigrating => r == Some(
                    EvacuationAction::MarkVmMigrating(self.vm_ids@[self.next as int]),
                ),
                EvacuationStage::Migrate => r == Some(EvacuationAction::MigrateVm(self.vm_ids@[self.next as int])),
                EvacuationStage::Finished => r is None,
            },
    {
        match self.stage {
            EvacuationStage::MarkRunning => Some(EvacuationAction::MarkJobRunning),
            EvacuationStage::Load => Some(EvacuationAction::LoadVm(self.vm_ids[self.next])),
            EvacuationStage::Plan => Some(EvacuationAction::PlanVm(self.vm_ids[self.next])),
            EvacuationStage::MarkMigrating => Some(EvacuationAction::MarkVmMigrating(self.vm_ids[self.next])),
            EvacuationStage::Migrate => Some(EvacuationAction::MigrateVm(self.vm_ids[self.next])),
            EvacuationStage::Finished => None,
        }
    }

    /// Moves the job past its current step given the outcome of its action,
    /// and gives the effects to perform. A failure at any step ends the job
    /// failed (after putting back the status of a VM whose migration
    /// failed); each VM moved reports progress, and the last one completes
    /// the job.
    pub fn advance(&mut self, outcome: Result<String, String>) -> (r: Vec<JobEffect>)
        requires
            old(self).wf(),
        ensures
            final(self).wf(),
            final(self).vm_ids@ == old(self).vm_ids@,
            match (old(self).stage, outcome_view(outcome)) {
                (EvacuationStage::MarkRunning, Err(e)) => final(self).stage is Finished && effects(r@) == seq![
                    Effect::MarkFailed("failed to start host evacuation job: "@ + e),
                ],
                (EvacuationStage::MarkRunning, Ok(_)) => final(self).next == 0 && if old(self).vm_ids.len() == 0 {
                    final(self).stage is Finished && effects(r@) == seq![Effect::MarkCompleted]
                } else {
                    final(self).stage is Load && r@.len() == 0
                },
                (EvacuationStage::Load, Err(e)) => final(self).stage is Finished && effects(r@) == seq![
                    Effect::MarkFailed(
                        "failed to load resident VM "@ + uuid_text(old(self).vm_ids@[old(self).next as int]) + ": "@ + e,
                    ),
                ],
                (EvacuationStage::Load, Ok(name)) => final(self).stage is Plan && final(self).current_name@ == name
                    && final(self).next == old(self).next && r@.len() == 0,
                (EvacuationStage::Plan, Err(e)) => final(self).stage is Finished && effects(r@) == seq![
                    Effect::MarkFailed(
                        "failed to plan evacuation for VM '"@ + old(self).current_name@ + "': "@ + e,
                    ),
                ],
                (EvacuationStage::Plan, Ok(_)) => final(self).stage is MarkMigrating && final(self).next
                    == old(self).next && r@.len() == 0,
                (EvacuationStage::MarkMigrating, Err(e)) => final(self).stage is Finished && effects(r@) == seq![
                    Effect::MarkFailed("failed to mark VM '"@ + old(self).current_name@ + "' migrating: "@ + e),
                ],
                (EvacuationStage::MarkMigrating, Ok(_)) => final(self).stage is Migrate && final(self).next
                    == old(self).next && r@.len() == 0,
                (EvacuationStage::Migrate, Err(e)) => final(self).stage is Finished && effects(r@) == seq![
                    Effect::RestoreStatus,
                    Effect::MarkFailed(e),
                ],
                (EvacuationStage::Migrate, Ok(_)) => final(self).next == old(self).next + 1
                    && views(final(self).evacuated@) == views(old(self).evacuated@).push(old(self).current_name@)
                    && if final(self).next == final(self).vm_ids.len() {
                    final(self).stage is Finished && effects(r@) == seq![
                        Effect::SetProgress(progress(final(self).next as nat, final(self).vm_ids.len() as nat)),
                        Effect::MarkCompleted,
                    ]
                } else {
                    final(self).stage is Load && effects(r@) == seq![
                        Effect::SetProgress(progress(final(self).next as nat, final(self).vm_ids.len() as nat)),
                    ]
                },
                (EvacuationStage::Finished, _) => final(self).stage is Finished && r@.len() == 0,
            },
    {
        let mut out: Vec<JobEffect> = Vec::new();
        match self.stage {
            EvacuationStage::MarkRunning => match outcome {
                Err(e) => {
                    let mut m = owned("failed to start host evacuation job: ");
                    push_str(&mut m, e.as_str());
                    out.push(JobEffect::MarkFailed(m));
                    assert(effects(out@) =~= seq![Effect::MarkFailed("failed to start host evacuation job: "@ + e@)]);
                    self.stage = EvacuationStage::Finished;
                },
                Ok(_) => {
                    if self.vm_ids.len() == 0 {
                        out.push(JobEffect::MarkCompleted);
                        assert(effects(out@) =~= seq![Effect::MarkCompleted]);
                        self.stage = EvacuationStage::Finished;
                    } else {
                        self.stage = EvacuationStage::Load;
                    }
                },
            },
            EvacuationStage::Load => match outcome {
                Err(e) => {
                    let mut m = owned("failed to load resident VM ");
                    let id = uuid_string(self.vm_ids[self.next]);
                    push_str(&mut m, id.as_str());
                    push_str(&mut m, ": ");
                    push_str(&mut m, e.as_str());
                    out.push(JobEffect::MarkFailed(m));
                    assert(effects(out@) =~= seq![Effect::MarkFailed(m@)]);
                    self.stage = EvacuationStage::Finished;
                },
                Ok(name) => {
                    self.current_name = name;
                    self.stage = EvacuationStage::Plan;
                },
            },
            EvacuationStage::Plan => match outcome {
                Err(e) => {
                    let mut m = owned("failed to plan evacuation for VM '");
                    push_str(&mut m, self.current_name.as_str());
                    push_str(&mut m, "': ");
                    push_str(&mut m, e.as_str());
                    out.push(JobEffect::MarkFailed(m));
                    assert(effects(out@) =~= seq![Effect::MarkFailed(m@)]);
                    self.stage = EvacuationStage::Finished;
                },
                Ok(_) => {
                    self.stage = EvacuationStage::MarkMigrating;
                },
            },
            EvacuationStage::MarkMigrating => match outcome {
                Err(e) => {
                    let mut m = owned("failed to mark VM '");
                    push_str(&mut m, self.current_name.as_str());
                    push_str(&mut m, "' migrating: ");
                    push_str(&mut m, e.as_str());
                    out.push(JobEffect::MarkFailed(m));
                    assert(effects(out@) =~= seq![Effect::MarkFailed(m@)]);
                    self.stage = EvacuationStage::Finished;
                },
                Ok(_) => {
                    self.stage = EvacuationStage::Migrate;
                },
            },
            EvacuationStage::Migrate => match outcome {
                Err(e) => {
                    out.push(JobEffect::RestoreStatus);
                    out.push(JobEffect::MarkFailed(e));
                    assert(effects(out@) =~= seq![Effect::RestoreStatus, Effect::MarkFailed(e@)]);
                    self.stage = EvacuationStage::Finished;
                },
                Ok(_) => {
                    let name = self.current_name.clone();
                    let ghost before = self.evacuated@;
                    self.evacuated.push(name);
                    assert(views(self.evacuated@) =~= views(before).push(name@));
                    self.next = self.next + 1;
                    let p = evacuation_progress(self.next, self.vm_ids.len());
                    out.push(JobEffect::SetProgress(p));
                    if self.next == self.vm_ids.len() {
                        out.push(JobEffect::MarkCompleted);
                        assert(effects(out@) =~= seq![Effect::SetProgress(p as int), Effect::MarkCompleted]);
                        self.stage = EvacuationStage::Finished;
                    } else {
                        assert(effects(out@) =~= seq![Effect::SetProgress(p as int)]);
                        self.stage = EvacuationStage::Load;
                    }
                },
            },
            EvacuationStage::Finished => {},
        }
        out
    }
}

} // verus!
