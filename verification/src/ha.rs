//! High availability: when a host marked down has stayed unreachable for a
//! grace period, its HA-enabled VMs are restarted on other hosts whose
//! storage they can reach.
use std::collections::HashMap;
use vstd::prelude::*;

use crate::errors::{is_unprocessable, unprocessable, Error};
use crate::jobs::{effects, Effect, JobEffect};
use crate::model::VmStatus;
use crate::storage::StoragePool;
use crate::text::{dec_int, owned, push_i64, push_str, push_u64};
use crate::vm_ops::GpuRequest;

verus! {

broadcast use vstd::std_specs::hash::group_hash_axioms;

// ---------------------------------------------------------------------------
// Monitor state
// ---------------------------------------------------------------------------

/// What to do about a host marked down, after probing it.
#[derive(Debug, PartialEq, Eq, Structural)]
pub enum HostAction {
    /// It answered: remove the stale copies of VMs failed over from it.
    CleanupStaleCopies,
    /// It has not been unreachable for the grace period yet.
    Wait,
    /// Fail its VMs over.
    Failover,
}

/// Time elapsed from `since` to `now`, none when the clock reads earlier.
pub open spec fn elapsed(since: u64, now: u64) -> int {
    if now >= since {
        now - since
    } else {
        0
    }
}

/// The monitor's memory between ticks, times in milliseconds of a monotonic
/// clock: when each down host was first found unreachable, and when a
/// failover of each VM was last attempted.
#[derive(Debug)]
pub struct MonitorState {
    unreachable_since: HashMap<u128, u64>,
    last_attempt: HashMap<u128, u64>,
}

/// What follows probing a down host: the new first-unreachable times and
/// what to do.
pub open spec fn observe(
    since: Map<u128, u64>,
    host: u128,
    reachable: bool,
    now: u64,
    grace_ms: int,
) -> (Map<u128, u64>, HostAction) {
    if reachable {
        (since.remove(host), HostAction::CleanupStaleCopies)
    } else {
        let first = if since.contains_key(host) {
            since[host]
        } else {
            now
        };
        (since.insert(host, first), if elapsed(first, now) < grace_ms {
            HostAction::Wait
        } else {
            HostAction::Failover
        })
    }
}

/// Whether a failover of a VM last attempted as recorded may be attempted
/// again at `now`.
pub open spec fn may_attempt(last: Map<u128, u64>, vm: u128, now: u64, cooldown_ms: int) -> bool {
    !(last.contains_key(vm) && elapsed(last[vm], now) < cooldown_ms)
}

impl MonitorState {
    pub closed spec fn since(&self) -> Map<u128, u64> {
        self.unreachable_since@
    }

    pub closed spec fn attempts(&self) -> Map<u128, u64> {
        self.last_attempt@
    }

    /// A monitor that has seen nothing yet.
    pub fn new() -> (s: MonitorState)
        ensures
            s.since() == Map::<u128, u64>::empty(),
            s.attempts() == Map::<u128, u64>::empty(),
    {
        MonitorState { unreachable_since: HashMap::new(), last_attempt: HashMap::new() }
    }

    /// Forgets the hosts that are no longer marked down.
    pub fn retain_down(&mut self, down: &[u128])
        ensures
            final(self).since() == old(self).since().restrict(down@.to_set()),
            final(self).attempts() == old(self).attempts(),
    {
        let mut kept: HashMap<u128, u64> = HashMap::new();
        let ghost old_since = self.unreachable_since@;
        for i in 0..down.len()
            invariant
                self.unreachable_since@ == old_since,
                kept@ == old_since.restrict(down@.take(i as int).to_set()),
        {
            let id = down[i];
            assert(down@.take(i + 1) =~= down@.take(i as int).push(id));
            proof {
                down@.take(i as int).lemma_push_to_set_commute(id);
            }
            match self.unreachable_since.get(&id) {
                Some(t) => {
                    kept.insert(id, *t);
                },
                None => {},
            }
            assert(kept@ =~= old_since.restrict(down@.take(i + 1).to_set()));
        }
        assert(down@.take(down@.len() as int) =~= down@);
        self.unreachable_since = kept;
    }

    /// Records the probe of a down host at `now` and decides what to do:
    /// a host that answers is cleaned up and its clock reset; one that does
    /// not is failed over once it has been unreachable for the grace period.
    pub fn observe_host(&mut self, host: u128, reachable: bool, now: u64, grace_secs: u64) -> (r: HostAction)
        ensures
            (final(self).since(), r) == observe(old(self).since(), host, reachable, now, grace_secs * 1000),
            final(self).attempts() == old(self).attempts(),
    {
        if reachable {
            self.unreachable_since.remove(&host);
            return HostAction::CleanupStaleCopies;
        }
        let first: u64 = match self.unreachable_since.get(&host) {
            Some(t) => *t,
            None => now,
        };
        self.unreachable_since.insert(host, first);
        let waited: u64 = if now >= first {
            now - first
        } else {
            0
        };
        if (waited as u128) < (grace_secs as u128) * 1000 {
            HostAction::Wait
        } else {
            HostAction::Failover
        }
    }

    /// Whether a failover of `vm` may be attempted at `now`; an attempt is
    /// recorded when it may.
    pub fn try_attempt(&mut self, vm: u128, now: u64, cooldown_secs: u64) -> (r: bool)
        ensures
            r == may_attempt(old(self).attempts(), vm, now, cooldown_secs * 1000),
            r ==> final(self).attempts() == old(self).attempts().insert(vm, now),
            !r ==> final(self).attempts() == old(self).attempts(),
            final(self).since() == old(self).since(),
    {
        match self.last_attempt.get(&vm) {
            Some(t) => {
                let waited: u64 = if now >= *t {
                    now - *t
                } else {
                    0
                };
                if (waited as u128) < (cooldown_secs as u128) * 1000 {
                    return false;
                }
            },
            None => {},
        }
        self.last_attempt.insert(vm, now);
        true
    }
}

/// A host that answers a probe has its clock reset: with a grace period,
/// the next probe that finds it unreachable never triggers a failover.
pub proof fn lemma_recovery_resets_grace(
    since: Map<u128, u64>,
    host: u128,
    t1: u64,
    t2: u64,
    grace_ms: int,
)
    requires
        grace_ms > 0,
    ensures
        ({
            let (after, _) = observe(since, host, true, t1, grace_ms);
            observe(after, host, false, t2, grace_ms).1 == HostAction::Wait
        }),
{
}

/// Two failover attempts of one VM less than the cooldown apart: the second
/// is refused.
pub proof fn lemma_cooldown_refuses_retry(last: Map<u128, u64>, vm: u128, t1: u64, t2: u64, cooldown_ms: int)
    requires
        may_attempt(last, vm, t1, cooldown_ms),
        elapsed(t1, t2) < cooldown_ms,
    ensures
        !may_attempt(last.insert(vm, t1), vm, t2, cooldown_ms),
{
}

// ---------------------------------------------------------------------------
// Failover candidates
// ---------------------------------------------------------------------------

/// A VM resident on a host, as the monitor reads it.
#[derive(Debug)]
pub struct ResidentVm {
    pub id: u128,
    pub name: String,
    pub status: VmStatus,
    pub ha_enabled: bool,
}

/// HA-enabled VMs that were running, paused, or in an unknown state are
/// failed over.
pub open spec fn is_failover_candidate(vm: ResidentVm) -> bool {
    vm.ha_enabled && (vm.status is Running || vm.status is Paused || vm.status is Unknown)
}

/// The ids of the candidates, in order.
pub open spec fn candidate_ids(vms: Seq<ResidentVm>) -> Seq<u128>
    decreases vms.len(),
{
    if vms.len() == 0 {
        seq![]
    } else {
        candidate_ids(vms.drop_last()) + if is_failover_candidate(vms.last()) {
            seq![vms.last().id]
        } else {
            seq![]
        }
    }
}

/// Whether `id` is that of a VM in `vms` that has HA enabled and is running,
/// paused or in an unknown state.
pub open spec fn is_live_ha_vm_id(vms: Seq<ResidentVm>, id: u128) -> bool {
    exists|i: int|
        #![trigger vms[i]]
        0 <= i < vms.len() && vms[i].id == id && vms[i].ha_enabled && (vms[i].status is Running
            || vms[i].status is Paused || vms[i].status is Unknown)
}

/// Exactly the HA-enabled VMs that are running, paused or in an unknown
/// state are failed over: every id returned is that of such a VM, and every
/// such VM's id is returned. A VM that is created, shut down, pending,
/// migrating or committing never is.
pub proof fn lemma_failover_candidates_exact(vms: Seq<ResidentVm>)
    ensures
        forall|k: int|
            0 <= k < candidate_ids(vms).len() ==> is_live_ha_vm_id(vms, #[trigger] candidate_ids(vms)[k]),
        forall|i: int|
            0 <= i < vms.len() && vms[i].ha_enabled && (vms[i].status is Running || vms[i].status is Paused
                || vms[i].status is Unknown) ==> candidate_ids(vms).contains(#[trigger] vms[i].id),
        candidate_ids(vms).len() <= vms.len(),
    decreases vms.len(),
{
    if vms.len() == 0 {
        assert(candidate_ids(vms).len() == 0);
    } else {
        let pre = vms.drop_last();
        lemma_failover_candidates_exact(pre);
        let c = candidate_ids(vms);
        let cp = candidate_ids(pre);
        let tail = if is_failover_candidate(vms.last()) {
            seq![vms.last().id]
        } else {
            Seq::<u128>::empty()
        };
        assert(c == cp + tail);
        assert forall|k: int| 0 <= k < c.len() implies is_live_ha_vm_id(vms, #[trigger] c[k]) by {
            if k < cp.len() {
                assert(c[k] == cp[k]);
                assert(is_live_ha_vm_id(pre, cp[k]));
                let i = choose|i: int|
                    #![trigger pre[i]]
                    0 <= i < pre.len() && pre[i].id == cp[k] && pre[i].ha_enabled && (pre[i].status is Running
                        || pre[i].status is Paused || pre[i].status is Unknown);
                assert(vms[i] == pre[i]);
            } else {
                assert(tail.len() == 1);
                assert(is_failover_candidate(vms.last()));
                assert(c[k] == vms.last().id);
                assert(vms[vms.len() - 1] == vms.last());
                assert(vms[vms.len() - 1].id == c[k]);
            }
        }
        assert forall|i: int|
            0 <= i < vms.len() && vms[i].ha_enabled && (vms[i].status is Running || vms[i].status is Paused
                || vms[i].status is Unknown) implies c.contains(#[trigger] vms[i].id) by {
            if i < vms.len() - 1 {
                assert(pre[i] == vms[i]);
                assert(cp.contains(pre[i].id));
                let k = choose|k: int| 0 <= k < cp.len() && cp[k] == pre[i].id;
                assert(c[k] == cp[k]);
            } else {
                assert(c[c.len() - 1] == vms[i].id);
            }
        }
    }
}

/// The VMs of a failed host to fail over.
pub fn failover_candidates(resident: &[ResidentVm]) -> (r: Vec<u128>)
    ensures
        r@ == candidate_ids(resident@),
        forall|k: int| 0 <= k < r.len() ==> is_live_ha_vm_id(resident@, #[trigger] r@[k]),
        forall|i: int|
            0 <= i < resident.len() && resident@[i].ha_enabled && (resident@[i].status is Running
                || resident@[i].status is Paused || resident@[i].status is Unknown) ==> r@.contains(
                #[trigger] resident@[i].id,
            ),
{
    proof {
        lemma_failover_candidates_exact(resident@);
    }
    let mut out: Vec<u128> = Vec::new();
    for i in 0..resident.len()
        invariant
            out@ == candidate_ids(resident@.take(i as int)),
    {
        assert(resident@.take(i + 1).drop_last() =~= resident@.take(i as int));
        let vm = &resident[i];
        let keep = vm.ha_enabled && match vm.status {
            VmStatus::Running | VmStatus::Paused | VmStatus::Unknown => true,
            _ => false,
        };
        if keep {
            out.push(vm.id);
        }
        assert(out@ =~= candidate_ids(resident@.take(i + 1)));
    }
    assert(resident@.take(resident@.len() as int) =~= resident@);
    out
}

// ---------------------------------------------------------------------------
// GPUs
// ---------------------------------------------------------------------------

/// A GPU of a host.
#[derive(Debug)]
pub struct HostGpu {
    pub id: u128,
    pub host_id: u128,
    pub pci_address: String,
    pub model: Option<String>,
    pub vendor: Option<String>,
    pub vram_bytes: Option<i64>,
    pub iommu_group: i32,
    pub vm_id: Option<u128>,
}

/// The least video memory among the GPUs that report one.
pub open spec fn min_vram(gpus: Seq<HostGpu>) -> Option<i64>
    decreases gpus.len(),
{
    if gpus.len() == 0 {
        None
    } else {
        let rest = min_vram(gpus.drop_last());
        match gpus.last().vram_bytes {
            None => rest,
            Some(v) => match rest {
                None => Some(v),
                Some(m) => Some(if v < m {
                    v
                } else {
                    m
                }),
            },
        }
    }
}

/// The GPUs a VM needs on its new host, from those it holds: as many, of
/// the first one's vendor and model, each with at least the least memory
/// among them; none when it holds none.
pub fn gpu_request_for_vm(allocated: &[HostGpu]) -> (r: Option<GpuRequest>)
    requires
        allocated.len() <= i32::MAX,
    ensures
        allocated.len() == 0 ==> r is None,
        allocated.len() > 0 ==> (r matches Some(g) && g.count == allocated.len() && g.vendor == allocated[0].vendor
            && g.model == allocated[0].model && g.min_vram_bytes == min_vram(allocated@)),
{
    if allocated.len() == 0 {
        return None;
    }
    let mut least: Option<i64> = None;
    for i in 0..allocated.len()
        invariant
            least == min_vram(allocated@.take(i as int)),
    {
        assert(allocated@.take(i + 1).drop_last() =~= allocated@.take(i as int));
        match allocated[i].vram_bytes {
            Some(v) => {
                least = match least {
                    None => Some(v),
                    Some(m) => Some(if v < m { v } else { m }),
                };
            },
            None => {},
        }
    }
    assert(allocated@.take(allocated@.len() as int) =~= allocated@);
    Some(
        GpuRequest {
            count: allocated.len() as i32,
            vendor: allocated[0].vendor.clone(),
            model: allocated[0].model.clone(),
            min_vram_bytes: least,
        },
    )
}

/// Why a GPU allocation falls short, if it does: fewer GPUs were allocated
/// than requested.
pub open spec fn gpu_shortfall(requested: i32, allocated: nat, failover: bool) -> Option<Seq<char>> {
    if allocated < requested {
        Some(
            "requested "@ + dec_int(requested as int) + if failover {
                " GPUs for failover but only "@
            } else {
                " GPUs but only "@
            } + dec_int(allocated as int) + if failover {
                " available on target host"@
            } else {
                " available on selected host"@
            },
        )
    } else {
        None
    }
}

/// Checks that as many GPUs were allocated as requested, for a failover
/// target or for a newly placed VM.
pub fn check_gpu_allocation(requested: i32, allocated: usize, failover: bool) -> (r: Result<(), Error>)
    requires
        allocated <= u64::MAX,
    ensures
        match gpu_shortfall(requested, allocated as nat, failover) {
            Some(m) => r matches Err(e) && is_unprocessable(e, m),
            None => r is Ok,
        },
{
    if (allocated as i128) < (requested as i128) {
        let mut m = owned("requested ");
        push_i64(&mut m, requested as i64);
        if failover {
            push_str(&mut m, " GPUs for failover but only ");
        } else {
            push_str(&mut m, " GPUs but only ");
        }
        push_u64(&mut m, allocated as u64);
        if failover {
            push_str(&mut m, " available on target host");
        } else {
            push_str(&mut m, " available on selected host");
        }
        assert(dec_int(allocated as int) == crate::text::dec(allocated as nat));
        Err(Error::UnprocessableEntity(m))
    } else {
        Ok(())
    }
}

// ---------------------------------------------------------------------------
// Storage
// ---------------------------------------------------------------------------

/// The first pool, in order, that is not shared.
pub open spec fn first_unshared(pools: Seq<StoragePool>) -> Option<StoragePool>
    decreases pools.len(),
{
    if pools.len() == 0 {
        None
    } else if !pools[0].pool_type.spec_is_shared() {
        Some(pools[0])
    } else {
        first_unshared(pools.drop_first())
    }
}

pub open spec fn unshared_text(p: StoragePool) -> Seq<char> {
    "disk on pool '"@ + p.name@ + "' ("@ + p.pool_type.variant_name() + ") is not on shared storage; cannot fail over"@
}

/// The ids of the pools holding a VM's disks, all of which must be shared
/// for the disks to be reattached on another host.
pub fn check_failover_pools(pools: &[StoragePool]) -> (r: Result<Vec<u128>, Error>)
    ensures
        first_unshared(pools@) matches Some(p) ==> (r matches Err(e) && is_unprocessable(e, unshared_text(p))),
        first_unshared(pools@) is None ==> (r matches Ok(ids) && ids@ == pools@.map_values(|p: StoragePool| p.id)),
{
    let mut ids: Vec<u128> = Vec::new();
    let mut i: usize = 0;
    assert(pools@.skip(0) =~= pools@);
    while i < pools.len()
        invariant
            i <= pools.len(),
            first_unshared(pools@) == first_unshared(pools@.skip(i as int)),
            ids@ == pools@.take(i as int).map_values(|p: StoragePool| p.id),
        decreases pools.len() - i,
    {
        let p = &pools[i];
        assert(pools@.skip(i as int)[0] == pools@[i as int]);
        assert(pools@.skip(i as int).drop_first() =~= pools@.skip(i + 1));
        if !p.pool_type.is_shared() {
            let mut m = owned("disk on pool '");
            push_str(&mut m, p.name.as_str());
            push_str(&mut m, "' (");
            push_str(&mut m, p.pool_type.variant_str());
            push_str(&mut m, ") is not on shared storage; cannot fail over");
            return Err(Error::UnprocessableEntity(m));
        }
        ids.push(p.id);
        assert(pools@.take(i + 1) =~= pools@.take(i as int).push(pools@[i as int]));
        assert(ids@ =~= pools@.take(i + 1).map_values(|p: StoragePool| p.id));
        i = i + 1;
    }
    assert(pools@.take(i as int) =~= pools@);
    assert(pools@.skip(i as int).len() == 0);
    Ok(ids)
}

// ---------------------------------------------------------------------------
// Choosing a destination host
// ---------------------------------------------------------------------------

/// The search for a destination host: the hosts excluded so far (first the
/// source) and why the last candidate was turned down.
#[derive(Debug)]
pub struct HostSearch {
    pub excluded: Vec<u128>,
    pub last_reason: Option<String>,
}

/// The error when no host is left for a VM: with the last reason a
/// candidate was turned down, if any.
pub open spec fn no_host_text(vm_name: Seq<char>, last_reason: Option<String>) -> Seq<char> {
    "no eligible destination host found for VM '"@ + vm_name + "'"@ + match last_reason {
        Some(r) => ": "@ + r@,
        None => Seq::empty(),
    }
}

impl HostSearch {
    /// A search that excludes the VM's current host.
    pub fn new(source: u128) -> (s: HostSearch)
        ensures
            s.excluded@ == seq![source],
            s.last_reason is None,
    {
        let mut excluded: Vec<u128> = Vec::new();
        excluded.push(source);
        HostSearch { excluded, last_reason: None }
    }

    /// Turns down a candidate (it lacks a pool, or planning the move onto it
    /// was refused for `reason`): the next pick excludes it.
    pub fn reject(&mut self, candidate: u128, reason: Option<String>)
        ensures
            final(self).excluded@ == old(self).excluded@.push(candidate),
            reason is Some ==> final(self).last_reason == reason,
            reason is None ==> final(self).last_reason == old(self).last_reason,
    {
        self.excluded.push(candidate);
        if reason.is_some() {
            self.last_reason = reason;
        }
    }

    /// The error once the scheduler finds no candidate left.
    pub fn exhausted(&self, vm_name: &str) -> (e: Error)
        ensures
            is_unprocessable(e, no_host_text(vm_name@, self.last_reason)),
    {
        let mut m = owned("no eligible destination host found for VM '");
        push_str(&mut m, vm_name);
        push_str(&mut m, "'");
        let ghost head = m@;
        match &self.last_reason {
            Some(r) => {
                push_str(&mut m, ": ");
                push_str(&mut m, r.as_str());
            },
            None => {
                assert(m@ =~= head + Seq::<char>::empty());
            },
        }
        assert(m@ =~= no_host_text(vm_name@, self.last_reason));
        Error::UnprocessableEntity(m)
    }
}

// ---------------------------------------------------------------------------
// The failover job
// ---------------------------------------------------------------------------

/// Where the failover of one VM is.
#[derive(Debug, PartialEq, Eq, Structural)]
pub enum FailoverStage {
    CreateJob,
    MarkRunning,
    CheckPools,
    GpuRequest,
    PickHost,
    ReallocateGpus,
    StopOldCopy,
    DeleteOldCopy,
    TagConfig,
    UpdateHost,
    SetCreated,
    StartVm,
    Finished,
}

/// The action of a failover step.
#[derive(Debug, PartialEq, Eq, Structural)]
pub enum FailoverAction {
    /// Create the failover job record.
    CreateJob,
    MarkJobRunning,
    /// Check that the VM's disks are all on shared pools (`check_failover_pools`).
    CheckPools,
    /// Derive the GPUs the VM needs (`gpu_request_for_vm`); the outcome says
    /// whether it needs any.
    GpuRequest,
    /// Find a destination host (`HostSearch`).
    PickHost,
    /// Move the VM's GPU allocation to the destination.
    ReallocateGpus,
    /// Best effort: stop and delete what may be left on the dead host.
    StopOldCopy,
    DeleteOldCopy,
    /// Record in the VM's configuration the host it failed over from.
    TagConfig,
    /// Assign the VM to the destination.
    UpdateHost,
    /// Record the VM as Created, so that starting it re-creates it.
    SetCreated,
    /// Start the VM (`StartJob`).
    StartVm,
}

/// The failover of one VM away from a dead host.
#[derive(Debug)]
pub struct FailoverJob {
    pub stage: FailoverStage,
    pub needs_gpus: bool,
}

pub open spec fn failover_rank(s: FailoverStage) -> nat {
    match s {
        FailoverStage::CreateJob => 12,
        FailoverStage::MarkRunning => 11,
        FailoverStage::CheckPools => 10,
        FailoverStage::GpuRequest => 9,
        FailoverStage::PickHost => 8,
        FailoverStage::ReallocateGpus => 7,
        FailoverStage::StopOldCopy => 6,
        FailoverStage::DeleteOldCopy => 5,
        FailoverStage::TagConfig => 4,
        FailoverStage::UpdateHost => 3,
        FailoverStage::SetCreated => 2,
        FailoverStage::StartVm => 1,
        FailoverStage::Finished => 0,
    }
}

pub open spec fn failover_action(s: FailoverStage) -> Option<FailoverAction> {
    match s {
        FailoverStage::CreateJob => Some(FailoverAction::CreateJob),
        FailoverStage::MarkRunning => Some(FailoverAction::MarkJobRunning),
        FailoverStage::CheckPools => Some(FailoverAction::CheckPools),
        FailoverStage::GpuRequest => Some(FailoverAction::GpuRequest),
        FailoverStage::PickHost => Some(FailoverAction::PickHost),
        FailoverStage::ReallocateGpus => Some(FailoverAction::ReallocateGpus),
        FailoverStage::StopOldCopy => Some(FailoverAction::StopOldCopy),
        FailoverStage::DeleteOldCopy => Some(FailoverAction::DeleteOldCopy),
        FailoverStage::TagConfig => Some(FailoverAction::TagConfig),
        FailoverStage::UpdateHost => Some(FailoverAction::UpdateHost),
        FailoverStage::SetCreated => Some(FailoverAction::SetCreated),
        FailoverStage::StartVm => Some(FailoverAction::StartVm),
        FailoverStage::Finished => None,
    }
}

/// What follows a failover step given the outcome of its action: `Ok(b)`,
/// where `b` matters only for the GPU step (whether the VM needs GPUs), or
/// the error's text. The next stage, whether GPUs are needed, and effects.
pub open spec fn failover_transition(stage: FailoverStage, needs_gpus: bool, outcome: Result<bool, Seq<char>>) -> (
    FailoverStage,
    bool,
    Seq<Effect>,
) {
    let fail = |e: Seq<char>| (FailoverStage::Finished, needs_gpus, seq![Effect::MarkFailed(e)]);
    match (stage, outcome) {
        (FailoverStage::CreateJob, Ok(_)) => (FailoverStage::MarkRunning, needs_gpus, seq![]),
        (FailoverStage::CreateJob, Err(_)) => (FailoverStage::Finished, needs_gpus, seq![]),
        (FailoverStage::MarkRunning, _) => (FailoverStage::CheckPools, needs_gpus, seq![]),
        (FailoverStage::CheckPools, Ok(_)) => (FailoverStage::GpuRequest, needs_gpus, seq![]),
        (FailoverStage::GpuRequest, Ok(b)) => (FailoverStage::PickHost, b, seq![]),
        (FailoverStage::PickHost, Ok(_)) => (
            if needs_gpus {
                FailoverStage::ReallocateGpus
            } else {
                FailoverStage::StopOldCopy
            },
            needs_gpus,
            seq![],
        ),
        (FailoverStage::ReallocateGpus, Ok(_)) => (FailoverStage::StopOldCopy, needs_gpus, seq![]),
        (FailoverStage::StopOldCopy, _) => (FailoverStage::DeleteOldCopy, needs_gpus, seq![]),
        (FailoverStage::DeleteOldCopy, _) => (FailoverStage::TagConfig, needs_gpus, seq![]),
        (FailoverStage::TagConfig, Ok(_)) => (FailoverStage::UpdateHost, needs_gpus, seq![]),
        (FailoverStage::UpdateHost, Ok(_)) => (FailoverStage::SetCreated, needs_gpus, seq![]),
        (FailoverStage::SetCreated, Ok(_)) => (FailoverStage::StartVm, needs_gpus, seq![]),
        (FailoverStage::StartVm, Ok(_)) => (FailoverStage::Finished, needs_gpus, seq![Effect::MarkCompleted]),
        (FailoverStage::StartVm, Err(e)) => (
            FailoverStage::Finished,
            needs_gpus,
            seq![Effect::RevertHost, Effect::RestoreStatus, Effect::RevertConfig, Effect::MarkFailed(e)],
        ),
        (FailoverStage::Finished, _) => (FailoverStage::Finished, needs_gpus, seq![]),
        (_, Err(e)) => fail(e),
    }
}

impl FailoverJob {
    pub fn new() -> (j: FailoverJob)
        ensures
            j.stage == FailoverStage::CreateJob,
    {
        FailoverJob { stage: FailoverStage::CreateJob, needs_gpus: false }
    }

    /// The action to perform now, none once the failover is over.
    pub fn action(&self) -> (r: Option<FailoverAction>)
        ensures
            r == failover_action(self.stage),
    {
        match self.stage {
            FailoverStage::CreateJob => Some(FailoverAction::CreateJob),
            FailoverStage::MarkRunning => Some(FailoverAction::MarkJobRunning),
            FailoverStage::CheckPools => Some(FailoverAction::CheckPools),
            FailoverStage::GpuRequest => Some(FailoverAction::GpuRequest),
            FailoverStage::PickHost => Some(FailoverAction::PickHost),
            FailoverStage::ReallocateGpus => Some(FailoverAction::ReallocateGpus),
            FailoverStage::StopOldCopy => Some(FailoverAction::StopOldCopy),
            FailoverStage::DeleteOldCopy => Some(FailoverAction::DeleteOldCopy),
            FailoverStage::TagConfig => Some(FailoverAction::TagConfig),
            FailoverStage::UpdateHost => Some(FailoverAction::UpdateHost),
            FailoverStage::SetCreated => Some(FailoverAction::SetCreated),
            FailoverStage::StartVm => Some(FailoverAction::StartVm),
            FailoverStage::Finished => None,
        }
    }

    /// Moves the failover past its current step given the outcome of its
    /// action, and gives the effects to perform: a failed step ends it
    /// failed with the error's text, after undoing the move when the VM
    /// could not be started on its new host.
    pub fn advance(&mut self, outcome: Result<bool, String>) -> (r: Vec<JobEffect>)
        ensures
            (final(self).stage, final(self).needs_gpus, effects(r@)) == failover_transition(
                old(self).stage,
                old(self).needs_gpus,
                match outcome {
                    Ok(b) => Ok(b),
                    Err(e) => Err(e@),
                },
            ),
    {
        let mut out: Vec<JobEffect> = Vec::new();
        match outcome {
            Err(e) => {
                match self.stage {
                    FailoverStage::CreateJob | FailoverStage::Finished => {
                        self.stage = FailoverStage::Finished;
                    },
                    FailoverStage::MarkRunning => {
                        self.stage = FailoverStage::CheckPools;
                    },
                    FailoverStage::StopOldCopy => {
                        self.stage = FailoverStage::DeleteOldCopy;
                    },
                    FailoverStage::DeleteOldCopy => {
                        self.stage = FailoverStage::TagConfig;
                    },
                    FailoverStage::StartVm => {
                        out.push(JobEffect::RevertHost);
                        out.push(JobEffect::RestoreStatus);
                        out.push(JobEffect::RevertConfig);
                        out.push(JobEffect::MarkFailed(e));
                        self.stage = FailoverStage::Finished;
                    },
                    _ => {
                        out.push(JobEffect::MarkFailed(e));
                        self.stage = FailoverStage::Finished;
                    },
                }
            },
            Ok(b) => {
                let next = match self.stage {
                    FailoverStage::CreateJob => FailoverStage::MarkRunning,
                    FailoverStage::MarkRunning => FailoverStage::CheckPools,
                    FailoverStage::CheckPools => FailoverStage::GpuRequest,
                    FailoverStage::GpuRequest => {
                        self.needs_gpus = b;
                        FailoverStage::PickHost
                    },
                    FailoverStage::PickHost => if self.needs_gpus {
                        FailoverStage::ReallocateGpus
                    } else {
                        FailoverStage::StopOldCopy
                    },
                    FailoverStage::ReallocateGpus => FailoverStage::StopOldCopy,
                    FailoverStage::StopOldCopy => FailoverStage::DeleteOldCopy,
                    FailoverStage::DeleteOldCopy => FailoverStage::TagConfig,
                    FailoverStage::TagConfig => FailoverStage::UpdateHost,
                    FailoverStage::UpdateHost => FailoverStage::SetCreated,
                    FailoverStage::SetCreated => FailoverStage::StartVm,
                    FailoverStage::StartVm => {
                        out.push(JobEffect::MarkCompleted);
                        FailoverStage::Finished
                    },
                    FailoverStage::Finished => FailoverStage::Finished,
                };
                self.stage = next;
            },
        }
        out
    }
}

/// Every failover step moves it closer to its end.
pub proof fn lemma_failover_progresses(stage: FailoverStage, needs_gpus: bool, outcome: Result<bool, Seq<char>>)
    requires
        !(stage is Finished),
    ensures
        failover_rank(failover_transition(stage, needs_gpus, outcome).0) < failover_rank(stage),
{
}

/// A VM that cannot be started on its new host is handed back: it is
/// assigned to the dead host again, with its status and configuration as
/// before, so that a later tick retries it; GPUs are moved only for a VM
/// that needs them.
pub proof fn lemma_failed_start_reverts(needs_gpus: bool, e: Seq<char>)
    ensures
        failover_transition(FailoverStage::StartVm, needs_gpus, Err(e)).2 == seq![
            Effect::RevertHost,
            Effect::RestoreStatus,
            Effect::RevertConfig,
            Effect::MarkFailed(e),
        ],
        failover_transition(FailoverStage::PickHost, false, Ok(true)).0 == FailoverStage::StopOldCopy,
{
}

} // verus!
