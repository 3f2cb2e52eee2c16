//! The background jobs that start and live-migrate a VM, as state machines.
//!
//! The caller performs the action of the job's current step (a database or
//! node call), hands the outcome back to `advance`, performs the effects it
//! returns in order (their outcomes are not looked at), and goes on with the
//! next step until the job is finished.
use vstd::prelude::*;

use crate::model::{SandboxStatus, VmStatus};
use crate::ids::{uuid_string, uuid_text};
use crate::text::{owned, push_str, replace_all, replace_str};

verus! {

/// A follow-up effect of a step, performed by the caller.
#[derive(Debug)]
pub enum JobEffect {
    /// Mark the job failed with this message.
    MarkFailed(String),
    /// Put the VM back into the status it had before the job.
    RestoreStatus,
    /// Record the job's progress, in percent.
    SetProgress(i32),
    /// Delete the VM from the node it was created on (for a migration: the
    /// source node).
    DeleteVmOnNode,
    /// Record the VM as running.
    SetStatusRunning,
    /// Mark the job completed.
    MarkCompleted,
    /// Assign the VM back to the host it was on before the job.
    RevertHost,
    /// Put the VM's configuration back as it was before the job.
    RevertConfig,
}

/// The mathematical value of an effect.
pub enum Effect {
    MarkFailed(Seq<char>),
    RestoreStatus,
    SetProgress(int),
    DeleteVmOnNode,
    SetStatusRunning,
    MarkCompleted,
    RevertHost,
    RevertConfig,
}

impl JobEffect {
    pub open spec fn view(self) -> Effect {
        match self {
            JobEffect::MarkFailed(m) => Effect::MarkFailed(m@),
            JobEffect::RestoreStatus => Effect::RestoreStatus,
            JobEffect::SetProgress(p) => Effect::SetProgress(p as int),
            JobEffect::DeleteVmOnNode => Effect::DeleteVmOnNode,
            JobEffect::SetStatusRunning => Effect::SetStatusRunning,
            JobEffect::MarkCompleted => Effect::MarkCompleted,
            JobEffect::RevertHost => Effect::RevertHost,
            JobEffect::RevertConfig => Effect::RevertConfig,
        }
    }
}

pub open spec fn effects(v: Seq<JobEffect>) -> Seq<Effect> {
    v.map_values(|e: JobEffect| e.view())
}

/// The outcome of a step's action: success with a text (empty when the
/// action returns none), or failure with the error's text.
pub open spec fn outcome_view(o: Result<String, String>) -> Result<Seq<char>, Seq<char>> {
    match o {
        Ok(s) => Ok(s@),
        Err(e) => Err(e@),
    }
}

/// Whether an effect ends the job with a verdict.
pub open spec fn is_verdict(e: Effect) -> bool {
    e is MarkFailed || e is MarkCompleted
}

/// How many items of a sequence satisfy `p`.
pub open spec fn count<A>(s: Seq<A>, p: spec_fn(A) -> bool) -> nat
    decreases s.len(),
{
    if s.len() == 0 {
        0
    } else {
        count(s.drop_last(), p) + if p(s.last()) {
            1nat
        } else {
            0nat
        }
    }
}

pub proof fn lemma_count_concat<A>(a: Seq<A>, b: Seq<A>, p: spec_fn(A) -> bool)
    ensures
        count(a + b, p) == count(a, p) + count(b, p),
    decreases b.len(),
{
    if b.len() == 0 {
        assert(a + b =~= a);
    } else {
        lemma_count_concat::<A>(a, b.drop_last(), p);
        assert((a + b).drop_last() =~= a + b.drop_last());
    }
}

fn marked_failed(prefix: &str, error: &str) -> (r: JobEffect)
    ensures
        r.view() == Effect::MarkFailed(prefix@ + error@),
{
    let mut m = owned(prefix);
    push_str(&mut m, error);
    JobEffect::MarkFailed(m)
}

// ---------------------------------------------------------------------------
// Starting a VM
// ---------------------------------------------------------------------------

/// Where a start job is.
#[derive(Debug, PartialEq, Eq, Structural)]
pub enum StartStage {
    MarkRunning,
    CheckAllowed,
    CreateOnNode,
    CheckAfterCreate,
    CheckBeforeStart,
    StartOnNode,
    Finished,
}

/// The action of a start-job step.
#[derive(Debug, PartialEq, Eq, Structural)]
pub enum StartAction {
    /// Mark the job running.
    MarkJobRunning,
    /// Decide whether the VM may still be started (`start_allowed`).
    CheckStartAllowed,
    /// Create the VM on its node (only for a VM that was never created there).
    CreateVm,
    /// Boot the VM on its node.
    StartVm,
}

/// A job starting a VM; `create_first` when the VM was in Created and must
/// first be created on its node.
#[derive(Debug)]
pub struct StartJob {
    pub stage: StartStage,
    pub create_first: bool,
}

/// Rank of a start stage: every step lowers it.
pub open spec fn start_rank(s: StartStage) -> nat {
    match s {
        StartStage::MarkRunning => 6,
        StartStage::CheckAllowed => 5,
        StartStage::CreateOnNode => 4,
        StartStage::CheckAfterCreate => 3,
        StartStage::CheckBeforeStart => 2,
        StartStage::StartOnNode => 1,
        StartStage::Finished => 0,
    }
}

pub open spec fn start_action(s: StartStage) -> Option<StartAction> {
    match s {
        StartStage::MarkRunning => Some(StartAction::MarkJobRunning),
        StartStage::CheckAllowed | StartStage::CheckAfterCreate | StartStage::CheckBeforeStart => Some(
            StartAction::CheckStartAllowed,
        ),
        StartStage::CreateOnNode => Some(StartAction::CreateVm),
        StartStage::StartOnNode => Some(StartAction::StartVm),
        StartStage::Finished => None,
    }
}

/// What follows a start-job step given the outcome of its action.
pub open spec fn start_transition(stage: StartStage, create_first: bool, outcome: Result<Seq<char>, Seq<char>>) -> (
    StartStage,
    Seq<Effect>,
) {
    match (stage, outcome) {
        (StartStage::MarkRunning, Ok(_)) => (StartStage::CheckAllowed, seq![]),
        (StartStage::MarkRunning, Err(_)) => (StartStage::Finished, seq![]),
        (StartStage::CheckAllowed, Ok(_)) => (
            if create_first {
                StartStage::CreateOnNode
            } else {
                StartStage::CheckBeforeStart
            },
            seq![],
        ),
        (StartStage::CheckAllowed, Err(m)) => (StartStage::Finished, seq![Effect::MarkFailed(m)]),
        (StartStage::CreateOnNode, Ok(_)) => (StartStage::CheckAfterCreate, seq![]),
        (StartStage::CreateOnNode, Err(e)) => (
            StartStage::Finished,
            seq![Effect::MarkFailed("create_vm failed: "@ + e), Effect::RestoreStatus],
        ),
        (StartStage::CheckAfterCreate, Ok(_)) => (StartStage::CheckBeforeStart, seq![Effect::SetProgress(50)]),
        (StartStage::CheckAfterCreate, Err(m)) => (
            StartStage::Finished,
            seq![Effect::MarkFailed(m), Effect::DeleteVmOnNode, Effect::RestoreStatus],
        ),
        (StartStage::CheckBeforeStart, Ok(_)) => (StartStage::StartOnNode, seq![]),
        (StartStage::CheckBeforeStart, Err(m)) => (
            StartStage::Finished,
            seq![Effect::MarkFailed(m), Effect::RestoreStatus],
        ),
        (StartStage::StartOnNode, Ok(_)) => (
            StartStage::Finished,
            seq![Effect::SetStatusRunning, Effect::MarkCompleted],
        ),
        (StartStage::StartOnNode, Err(e)) => (
            StartStage::Finished,
            seq![Effect::MarkFailed("start_vm failed: "@ + e), Effect::RestoreStatus],
        ),
        (StartStage::Finished, _) => (StartStage::Finished, seq![]),
    }
}

impl StartJob {
    /// A new start job for a VM whose status was `original`.
    pub fn new(original: VmStatus) -> (j: StartJob)
        ensures
            j.stage == StartStage::MarkRunning,
            j.create_first == (original is Created),
    {
        StartJob {
            stage: StartStage::MarkRunning,
            create_first: match original {
                VmStatus::Created => true,
                _ => false,
            },
        }
    }

    /// The action to perform now, none once the job is finished.
    pub fn action(&self) -> (r: Option<StartAction>)
        ensures
            r == start_action(self.stage),
    {
        match self.stage {
            StartStage::MarkRunning => Some(StartAction::MarkJobRunning),
            StartStage::CheckAllowed | StartStage::CheckAfterCreate | StartStage::CheckBeforeStart => Some(
                StartAction::CheckStartAllowed,
            ),
            StartStage::CreateOnNode => Some(StartAction::CreateVm),
            StartStage::StartOnNode => Some(StartAction::StartVm),
            StartStage::Finished => None,
        }
    }

    /// Moves the job past its current step given the outcome of its action,
    /// and gives the effects to perform.
    pub fn advance(&mut self, outcome: Result<String, String>) -> (r: Vec<JobEffect>)
        ensures
            final(self).create_first == old(self).create_first,
            (final(self).stage, effects(r@)) == start_transition(
                old(self).stage,
                old(self).create_first,
                outcome_view(outcome),
            ),
    {
        let mut out: Vec<JobEffect> = Vec::new();
        let next = match (&self.stage, outcome) {
            (StartStage::MarkRunning, Ok(_)) => StartStage::CheckAllowed,
            (StartStage::MarkRunning, Err(_)) => StartStage::Finished,
            (StartStage::CheckAllowed, Ok(_)) => if self.create_first {
                StartStage::CreateOnNode
            } else {
                StartStage::CheckBeforeStart
            },
            (StartStage::CheckAllowed, Err(m)) => {
                out.push(JobEffect::MarkFailed(m));
                StartStage::Finished
            },
            (StartStage::CreateOnNode, Ok(_)) => StartStage::CheckAfterCreate,
            (StartStage::CreateOnNode, Err(e)) => {
                out.push(marked_failed("create_vm failed: ", e.as_str()));
                out.push(JobEffect::RestoreStatus);
                StartStage::Finished
            },
            (StartStage::CheckAfterCreate, Ok(_)) => {
                out.push(JobEffect::SetProgress(50));
                StartStage::CheckBeforeStart
            },
            (StartStage::CheckAfterCreate, Err(m)) => {
                out.push(JobEffect::MarkFailed(m));
                out.push(JobEffect::DeleteVmOnNode);
                out.push(JobEffect::RestoreStatus);
                StartStage::Finished
            },
            (StartStage::CheckBeforeStart, Ok(_)) => StartStage::StartOnNode,
            (StartStage::CheckBeforeStart, Err(m)) => {
                out.push(JobEffect::MarkFailed(m));
                out.push(JobEffect::RestoreStatus);
                StartStage::Finished
            },
            (StartStage::StartOnNode, Ok(_)) => {
                out.push(JobEffect::SetStatusRunning);
                out.push(JobEffect::MarkCompleted);
                StartStage::Finished
            },
            (StartStage::StartOnNode, Err(e)) => {
                out.push(marked_failed("start_vm failed: ", e.as_str()));
                out.push(JobEffect::RestoreStatus);
                StartStage::Finished
            },
            (StartStage::Finished, _) => StartStage::Finished,
        };
        self.stage = next;
        assert(effects(out@) =~= start_transition(
            old(self).stage,
            old(self).create_first,
            outcome_view(outcome),
        ).1);
        out
    }
}

/// The effects of running a start job to its end, its actions' outcomes
/// taken in order from `outcomes`.
pub open spec fn start_run(
    stage: StartStage,
    create_first: bool,
    outcomes: Seq<Result<Seq<char>, Seq<char>>>,
) -> (StartStage, Seq<Effect>)
    decreases outcomes.len(),
{
    if stage is Finished || outcomes.len() == 0 {
        (stage, seq![])
    } else {
        let (next, now) = start_transition(stage, create_first, outcomes[0]);
        let (last, later) = start_run(next, create_first, outcomes.drop_first());
        (last, now + later)
    }
}

/// Every step of a start job moves it closer to its end: a job that is not
/// finished reaches a lower rank, whatever the outcome.
pub proof fn lemma_start_job_progresses(stage: StartStage, create_first: bool, outcome: Result<Seq<char>, Seq<char>>)
    requires
        !(stage is Finished),
    ensures
        start_rank(start_transition(stage, create_first, outcome).0) < start_rank(stage),
{
}

/// In any run of a start job, completion and failure are recorded at most
/// once in all, completion exactly as often as the VM is recorded as
/// running, and the VM's original status is put back at most once.
pub proof fn lemma_start_run_verdict(
    stage: StartStage,
    create_first: bool,
    outcomes: Seq<Result<Seq<char>, Seq<char>>>,
)
    ensures
        count(start_run(stage, create_first, outcomes).1, |e: Effect| is_verdict(e)) <= 1,
        count(start_run(stage, create_first, outcomes).1, |e: Effect| e is MarkCompleted) == count(
            start_run(stage, create_first, outcomes).1,
            |e: Effect| e is SetStatusRunning,
        ),
        count(start_run(stage, create_first, outcomes).1, |e: Effect| e is RestoreStatus) <= 1,
    decreases outcomes.len(),
{
    let v = |e: Effect| is_verdict(e);
    let c = |e: Effect| e is MarkCompleted;
    let r = |e: Effect| e is SetStatusRunning;
    let s = |e: Effect| e is RestoreStatus;
    if stage is Finished || outcomes.len() == 0 {
    } else {
        let (next, now) = start_transition(stage, create_first, outcomes[0]);
        let (last, later) = start_run(next, create_first, outcomes.drop_first());
        lemma_start_run_verdict(next, create_first, outcomes.drop_first());
        lemma_count_concat(now, later, v);
        lemma_count_concat(now, later, c);
        lemma_count_concat(now, later, r);
        lemma_count_concat(now, later, s);
        reveal_with_fuel(count, 4);
        if next is Finished {
            assert(later.len() == 0);
        } else {
            assert(count(now, v) == 0);
            assert(count(now, s) == 0);
        }
    }
}

/// Whether the VM may still be started, as read back from the database.
#[derive(Debug)]
pub enum VmLookup {
    Found,
    Missing,
    Failed(String),
}

/// The sandbox the VM belongs to, as read back from the database.
#[derive(Debug)]
pub enum SandboxLookup {
    NoSandbox,
    Sandbox { id: u128, status: SandboxStatus },
    Failed(String),
}

/// Why a start job must stop, if it must: the VM was deleted or could not
/// be read, or its sandbox is being destroyed or could not be read.
pub open spec fn start_blocker(vm: VmLookup, sandbox: SandboxLookup) -> Option<Seq<char>> {
    match vm {
        VmLookup::Missing => Some("VM was deleted before start"@),
        VmLookup::Failed(e) => Some("failed to reload VM before start: "@ + e@),
        VmLookup::Found => match sandbox {
            SandboxLookup::Sandbox { id, status } => if status is Destroying {
                Some("sandbox "@ + uuid_text(id) + " is being deleted"@)
            } else {
                None
            },
            SandboxLookup::NoSandbox => None,
            SandboxLookup::Failed(e) => Some("failed to reload sandbox before start: "@ + e@),
        },
    }
}

/// Decides the `CheckStartAllowed` action from what was read back.
pub fn start_allowed(vm: &VmLookup, sandbox: &SandboxLookup) -> (r: Result<String, String>)
    ensures
        match start_blocker(*vm, *sandbox) {
            Some(m) => r matches Err(e) && e@ == m,
            None => r is Ok,
        },
{
    match vm {
        VmLookup::Missing => {
            return Err(owned("VM was deleted before start"));
        },
        VmLookup::Failed(e) => {
            let mut m = owned("failed to reload VM before start: ");
            push_str(&mut m, e.as_str());
            return Err(m);
        },
        VmLookup::Found => {},
    }
    match sandbox {
        SandboxLookup::Sandbox { id, status } => match status {
            SandboxStatus::Destroying => {
                let mut m = owned("sandbox ");
                let t = uuid_string(*id);
                push_str(&mut m, t.as_str());
                push_str(&mut m, " is being deleted");
                Err(m)
            },
            _ => Ok(String::new()),
        },
        SandboxLookup::NoSandbox => Ok(String::new()),
        SandboxLookup::Failed(e) => {
            let mut m = owned("failed to reload sandbox before start: ");
            push_str(&mut m, e.as_str());
            Err(m)
        },
    }
}

// ---------------------------------------------------------------------------
// Live-migrating a VM
// ---------------------------------------------------------------------------

/// Where a migration job is.
#[derive(Debug, PartialEq, Eq, Structural)]
pub enum MigrateStage {
    MarkRunning,
    Receive,
    Send,
    UpdateHost,
    CleanupSource,
    Finished,
}

/// The action of a migration-job step.
#[derive(Debug)]
pub enum MigrateAction {
    MarkJobRunning,
    /// Prepare the destination node to receive the VM; it answers with the
    /// URL it listens on.
    ReceiveOnDestination,
    /// Have the source node send the VM to this URL.
    SendFromSource(String),
    /// Record the destination as the VM's host.
    UpdateHost,
    /// Clean up what is left of the VM on the source node.
    DeleteOnSource,
}

/// A job live-migrating a VM to the host at `destination_address`.
#[derive(Debug)]
pub struct MigrateJob {
    pub stage: MigrateStage,
    pub destination_address: String,
    /// The URL the destination listens on, once known.
    pub receiver_url: String,
}

/// The URL the source connects to: the destination's answer with the
/// wildcard address replaced by the destination host's address.
pub open spec fn reachable_url(url: Seq<char>, address: Seq<char>) -> Seq<char> {
    replace_all(url, "0.0.0.0"@, address)
}

pub open spec fn migrate_rank(s: MigrateStage) -> nat {
    match s {
        MigrateStage::MarkRunning => 5,
        MigrateStage::Receive => 4,
        MigrateStage::Send => 3,
        MigrateStage::UpdateHost => 2,
        MigrateStage::CleanupSource => 1,
        MigrateStage::Finished => 0,
    }
}

/// What follows a migration step given the outcome of its action: the next
/// stage, the receiver URL then known, and the effects.
pub open spec fn migrate_transition(
    stage: MigrateStage,
    address: Seq<char>,
    url: Seq<char>,
    outcome: Result<Seq<char>, Seq<char>>,
) -> (MigrateStage, Seq<char>, Seq<Effect>) {
    match (stage, outcome) {
        (MigrateStage::MarkRunning, Ok(_)) => (MigrateStage::Receive, url, seq![]),
        (MigrateStage::MarkRunning, Err(_)) => (MigrateStage::Finished, url, seq![]),
        (MigrateStage::Receive, Ok(u)) => (MigrateStage::Send, reachable_url(u, address), seq![Effect::SetProgress(25)]),
        (MigrateStage::Receive, Err(e)) => (
            MigrateStage::Finished,
            url,
            seq![Effect::MarkFailed("receive_migration failed: "@ + e), Effect::RestoreStatus],
        ),
        (MigrateStage::Send, Ok(_)) => (MigrateStage::UpdateHost, url, seq![Effect::SetProgress(75)]),
        (MigrateStage::Send, Err(e)) => (
            MigrateStage::Finished,
            url,
            seq![Effect::MarkFailed("send_migration failed: "@ + e), Effect::RestoreStatus],
        ),
        (MigrateStage::UpdateHost, _) => (MigrateStage::CleanupSource, url, seq![Effect::RestoreStatus]),
        (MigrateStage::CleanupSource, _) => (MigrateStage::Finished, url, seq![Effect::MarkCompleted]),
        (MigrateStage::Finished, _) => (MigrateStage::Finished, url, seq![]),
    }
}

impl MigrateJob {
    /// A new migration job to the host at `destination_address`.
    pub fn new(destination_address: String) -> (j: MigrateJob)
        ensures
            j.stage == MigrateStage::MarkRunning,
            j.destination_address@ == destination_address@,
            j.receiver_url@ == Seq::<char>::empty(),
    {
        MigrateJob { stage: MigrateStage::MarkRunning, destination_address, receiver_url: String::new() }
    }

    /// The action to perform now, none once the job is finished.
    pub fn action(&self) -> (r: Option<MigrateAction>)
        ensures
            match self.stage {
                MigrateStage::MarkRunning => r matches Some(MigrateAction::MarkJobRunning),
                MigrateStage::Receive => r matches Some(MigrateAction::ReceiveOnDestination),
                MigrateStage::Send => r matches Some(MigrateAction::SendFromSource(u)) && u@ == self.receiver_url@,
                MigrateStage::UpdateHost => r matches Some(MigrateAction::UpdateHost),
                MigrateStage::CleanupSource => r matches Some(MigrateAction::DeleteOnSource),
                MigrateStage::Finished => r is None,
            },
    {
        match self.stage {
            MigrateStage::MarkRunning => Some(MigrateAction::MarkJobRunning),
            MigrateStage::Receive => Some(MigrateAction::ReceiveOnDestination),
            MigrateStage::Send => Some(MigrateAction::SendFromSource(self.receiver_url.clone())),
            MigrateStage::UpdateHost => Some(MigrateAction::UpdateHost),
            MigrateStage::CleanupSource => Some(MigrateAction::DeleteOnSource),
            MigrateStage::Finished => None,
        }
    }

    /// Moves the job past its current step given the outcome of its action,
    /// and gives the effects to perform.
    pub fn advance(&mut self, outcome: Result<String, String>) -> (r: Vec<JobEffect>)
        ensures
            final(self).destination_address@ == old(self).destination_address@,
            (final(self).stage, final(self).receiver_url@, effects(r@)) == migrate_transition(
                old(self).stage,
                old(self).destination_address@,
                old(self).receiver_url@,
                outcome_view(outcome),
            ),
    {
        let mut out: Vec<JobEffect> = Vec::new();
        let next = match (&self.stage, outcome) {
            (MigrateStage::MarkRunning, Ok(_)) => MigrateStage::Receive,
            (MigrateStage::MarkRunning, Err(_)) => MigrateStage::Finished,
            (MigrateStage::Receive, Ok(u)) => {
                proof {
                    reveal_strlit("0.0.0.0");
                }
                self.receiver_url = replace_str(u.as_str(), "0.0.0.0", self.destination_address.as_str());
                out.push(JobEffect::SetProgress(25));
                MigrateStage::Send
            },
            (MigrateStage::Receive, Err(e)) => {
                out.push(marked_failed("receive_migration failed: ", e.as_str()));
                out.push(JobEffect::RestoreStatus);
                MigrateStage::Finished
            },
            (MigrateStage::Send, Ok(_)) => {
                out.push(JobEffect::SetProgress(75));
                MigrateStage::UpdateHost
            },
            (MigrateStage::Send, Err(e)) => {
                out.push(marked_failed("send_migration failed: ", e.as_str()));
                out.push(JobEffect::RestoreStatus);
                MigrateStage::Finished
            },
            (MigrateStage::UpdateHost, _) => {
                out.push(JobEffect::RestoreStatus);
                MigrateStage::CleanupSource
            },
            (MigrateStage::CleanupSource, _) => {
                out.push(JobEffect::MarkCompleted);
                MigrateStage::Finished
            },
            (MigrateStage::Finished, _) => MigrateStage::Finished,
        };
        self.stage = next;
        assert(effects(out@) =~= migrate_transition(
            old(self).stage,
            old(self).destination_address@,
            old(self).receiver_url@,
            outcome_view(outcome),
        ).2);
        out
    }
}

/// The effects of running a migration job to its end, its actions'
/// outcomes taken in order from `outcomes`.
pub open spec fn migrate_run(
    stage: MigrateStage,
    address: Seq<char>,
    url: Seq<char>,
    outcomes: Seq<Result<Seq<char>, Seq<char>>>,
) -> (MigrateStage, Seq<Effect>)
    decreases outcomes.len(),
{
    if stage is Finished || outcomes.len() == 0 {
        (stage, seq![])
    } else {
        let (next, u, now) = migrate_transition(stage, address, url, outcomes[0]);
        let (last, later) = migrate_run(next, address, u, outcomes.drop_first());
        (last, now + later)
    }
}

/// Every step of a migration job moves it closer to its end.
pub proof fn lemma_migrate_job_progresses(
    stage: MigrateStage,
    address: Seq<char>,
    url: Seq<char>,
    outcome: Result<Seq<char>, Seq<char>>,
)
    requires
        !(stage is Finished),
    ensures
        migrate_rank(migrate_transition(stage, address, url, outcome).0) < migrate_rank(stage),
{
}

/// Once a migration job is running, a run that reaches its end puts the
/// VM's original status back exactly once and gives exactly one verdict,
/// whether the migration succeeded or failed.
pub proof fn lemma_migrate_run_restores_once(
    stage: MigrateStage,
    address: Seq<char>,
    url: Seq<char>,
    outcomes: Seq<Result<Seq<char>, Seq<char>>>,
)
    requires
        !(stage is MarkRunning),
        !(stage is Finished),
        !(stage is CleanupSource),
        migrate_run(stage, address, url, outcomes).0 is Finished,
    ensures
        count(migrate_run(stage, address, url, outcomes).1, |e: Effect| e is RestoreStatus) == 1,
        count(migrate_run(stage, address, url, outcomes).1, |e: Effect| is_verdict(e)) == 1,
    decreases outcomes.len(),
{
    let s = |e: Effect| e is RestoreStatus;
    let v = |e: Effect| is_verdict(e);
    let (next, u, now) = migrate_transition(stage, address, url, outcomes[0]);
    let (last, later) = migrate_run(next, address, u, outcomes.drop_first());
    lemma_count_concat(now, later, s);
    lemma_count_concat(now, later, v);
    reveal_with_fuel(count, 3);
    if next is Finished {
        assert(later.len() == 0);
    } else if next is CleanupSource {
        let o = outcomes.drop_first();
        assert(o.len() > 0);
        let (n2, u2, now2) = migrate_transition(next, address, u, o[0]);
        assert(n2 is Finished);
        let (l2, later2) = migrate_run(n2, address, u2, o.drop_first());
        assert(later2.len() == 0);
        assert(later =~= now2 + later2);
        lemma_count_concat(now2, later2, s);
        lemma_count_concat(now2, later2, v);
    } else {
        lemma_migrate_run_restores_once(next, address, u, outcomes.drop_first());
    }
}

// ---------------------------------------------------------------------------
// Job descriptions
// ---------------------------------------------------------------------------

/// The description of the job that starts a VM.
pub fn start_description(vm_name: &str) -> (r: String)
    ensures
        r@ == "Starting VM "@ + vm_name@,
{
    let mut r = owned("Starting VM ");
    push_str(&mut r, vm_name);
    r
}

/// The description of the job that migrates a VM between two hosts.
pub fn migrate_description(vm_name: &str, source_host: u128, target_host: u128) -> (r: String)
    ensures
        r@ == "Migrating VM "@ + vm_name@ + " from host "@ + uuid_text(source_host) + " to "@ + uuid_text(
            target_host,
        ),
{
    let mut r = owned("Migrating VM ");
    push_str(&mut r, vm_name);
    push_str(&mut r, " from host ");
    let a = uuid_string(source_host);
    push_str(&mut r, a.as_str());
    push_str(&mut r, " to ");
    let b = uuid_string(target_host);
    push_str(&mut r, b.as_str());
    r
}

/// The description of the job that evacuates a host.
pub fn evacuate_description(host_name: &str, host_id: u128) -> (r: String)
    ensures
        r@ == "Evacuating host "@ + host_name@ + " ("@ + uuid_text(host_id) + ")"@,
{
    let mut r = owned("Evacuating host ");
    push_str(&mut r, host_name);
    push_str(&mut r, " (");
    let a = uuid_string(host_id);
    push_str(&mut r, a.as_str());
    push_str(&mut r, ")");
    r
}

/// The description of the job that fails a VM over from a dead host.
pub fn failover_description(vm_name: &str, dead_host_name: &str) -> (r: String)
    ensures
        r@ == "Failing over VM "@ + vm_name@ + " from host "@ + dead_host_name@,
{
    let mut r = owned("Failing over VM ");
    push_str(&mut r, vm_name);
    push_str(&mut r, " from host ");
    push_str(&mut r, dead_host_name);
    r
}

} // verus!
