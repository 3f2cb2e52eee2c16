use qarax::errors::Error;
use qarax::ha::{
    check_failover_pools, check_gpu_allocation, failover_candidates, gpu_request_for_vm, FailoverAction,
    FailoverJob, FailoverStage, HostAction, HostGpu, HostSearch, MonitorState, ResidentVm,
};
use qarax::jobs::JobEffect;
use qarax::model::{StoragePoolStatus, StoragePoolType, VmStatus};
use qarax::storage::{JsonConfig, StoragePool};

fn vm(id: u128, status: VmStatus, ha: bool) -> ResidentVm {
    ResidentVm { id, name: format!("vm-{}", id), status, ha_enabled: ha }
}

#[test]
fn only_running_ha_vms_are_failover_candidates() {
    let resident = vec![
        vm(1, VmStatus::Running, true),
        vm(2, VmStatus::Unknown, true),
        vm(3, VmStatus::Running, false),
        vm(4, VmStatus::Shutdown, true),
        vm(5, VmStatus::Paused, true),
    ];
    assert_eq!(failover_candidates(&resident), vec![1, 2, 5]);
}

#[test]
fn host_is_failed_over_only_after_grace_period() {
    let mut state = MonitorState::new();
    assert!(state.observe_host(7, false, 1_000, 60) == HostAction::Wait);
    assert!(state.observe_host(7, false, 60_999, 60) == HostAction::Wait);
    assert!(state.observe_host(7, false, 61_000, 60) == HostAction::Failover);
    assert!(state.observe_host(7, true, 62_000, 60) == HostAction::CleanupStaleCopies);
    assert!(state.observe_host(7, false, 63_000, 60) == HostAction::Wait);
}

#[test]
fn hosts_no_longer_down_are_forgotten() {
    let mut state = MonitorState::new();
    state.observe_host(1, false, 0, 10);
    state.observe_host(2, false, 0, 10);
    state.retain_down(&[2]);
    assert!(state.observe_host(1, false, 10_000, 10) == HostAction::Wait);
    assert!(state.observe_host(2, false, 10_000, 10) == HostAction::Failover);
}

#[test]
fn failover_attempts_respect_cooldown() {
    let mut state = MonitorState::new();
    assert!(state.try_attempt(9, 5_000, 30));
    assert!(!state.try_attempt(9, 34_999, 30));
    assert!(state.try_attempt(9, 35_000, 30));
    assert!(state.try_attempt(10, 35_000, 30));
}

fn gpu(pci: &str, vendor: &str, model: &str, vram: Option<i64>) -> HostGpu {
    HostGpu {
        id: 1,
        host_id: 2,
        pci_address: pci.to_string(),
        model: Some(model.to_string()),
        vendor: Some(vendor.to_string()),
        vram_bytes: vram,
        iommu_group: 80,
        vm_id: Some(3),
    }
}

#[test]
fn gpu_request_reflects_current_allocation() {
    let request = gpu_request_for_vm(&[gpu("0000:00:01.0", "nvidia", "A100", Some(1024))]).unwrap();
    assert_eq!(request.count, 1);
    assert_eq!(request.vendor.as_deref(), Some("nvidia"));
    assert_eq!(request.model.as_deref(), Some("A100"));
    assert_eq!(request.min_vram_bytes, Some(1024));
}

#[test]
fn gpu_request_is_none_without_allocated_gpus() {
    assert!(gpu_request_for_vm(&[]).is_none());
}

#[test]
fn gpu_request_takes_least_memory() {
    let request = gpu_request_for_vm(&[
        gpu("0000:00:01.0", "nvidia", "A100", Some(4096)),
        gpu("0000:00:02.0", "amd", "MI", None),
        gpu("0000:00:03.0", "nvidia", "A100", Some(2048)),
    ])
    .unwrap();
    assert_eq!(request.count, 3);
    assert_eq!(request.min_vram_bytes, Some(2048));
}

#[test]
fn gpu_allocation_shortfall_messages() {
    match check_gpu_allocation(2, 1, true) {
        Err(Error::UnprocessableEntity(m)) => {
            assert_eq!(m, "requested 2 GPUs for failover but only 1 available on target host")
        }
        other => panic!("unexpected {:?}", other),
    }
    match check_gpu_allocation(3, 0, false) {
        Err(Error::UnprocessableEntity(m)) => assert_eq!(m, "requested 3 GPUs but only 0 available on selected host"),
        other => panic!("unexpected {:?}", other),
    }
    assert!(check_gpu_allocation(2, 2, true).is_ok());
}

fn pool(id: u128, name: &str, pool_type: StoragePoolType) -> StoragePool {
    StoragePool {
        id,
        name: name.to_string(),
        pool_type,
        status: StoragePoolStatus::Active,
        capacity_bytes: None,
        allocated_bytes: None,
        config: JsonConfig { is_object: true, fields: vec![] },
    }
}

#[test]
fn failover_needs_shared_pools() {
    assert_eq!(
        check_failover_pools(&[pool(1, "a", StoragePoolType::Nfs), pool(2, "b", StoragePoolType::Block)]).unwrap(),
        vec![1, 2]
    );
    match check_failover_pools(&[pool(1, "a", StoragePoolType::Nfs), pool(2, "local-ssd", StoragePoolType::Local)]) {
        Err(Error::UnprocessableEntity(m)) => {
            assert_eq!(m, "disk on pool 'local-ssd' (Local) is not on shared storage; cannot fail over")
        }
        other => panic!("unexpected {:?}", other),
    }
}

#[test]
fn host_search_reports_last_reason() {
    let mut search = HostSearch::new(1);
    search.reject(2, None);
    match search.exhausted("web") {
        Error::UnprocessableEntity(m) => assert_eq!(m, "no eligible destination host found for VM 'web'"),
        other => panic!("unexpected {:?}", other),
    }
    search.reject(3, Some("pool missing".to_string()));
    assert_eq!(search.excluded, vec![1, 2, 3]);
    match search.exhausted("web") {
        Error::UnprocessableEntity(m) => assert_eq!(m, "no eligible destination host found for VM 'web': pool missing"),
        other => panic!("unexpected {:?}", other),
    }
}

#[test]
fn failover_job_moves_gpus_only_when_needed() {
    let mut job = FailoverJob::new();
    let mut actions = Vec::new();
    while let Some(a) = job.action() {
        let outcome = if a == FailoverAction::GpuRequest { Ok(true) } else { Ok(false) };
        actions.push(a);
        job.advance(outcome);
    }
    assert!(actions.contains(&FailoverAction::ReallocateGpus));
    let mut job = FailoverJob::new();
    let mut actions = Vec::new();
    let mut last = Vec::new();
    while let Some(a) = job.action() {
        actions.push(a);
        last = job.advance(Ok(false));
    }
    assert!(!actions.contains(&FailoverAction::ReallocateGpus));
    assert_eq!(actions.len(), 11);
    assert!(matches!(last.as_slice(), [JobEffect::MarkCompleted]));
}

#[test]
fn failover_job_reverts_when_start_fails() {
    let mut job = FailoverJob::new();
    while job.stage != FailoverStage::StartVm {
        job.advance(Ok(false));
    }
    let effects = job.advance(Err("no host capacity".to_string()));
    assert!(matches!(
        effects.as_slice(),
        [JobEffect::RevertHost, JobEffect::RestoreStatus, JobEffect::RevertConfig, JobEffect::MarkFailed(m)]
            if m == "no host capacity"
    ));
    let mut job = FailoverJob::new();
    job.advance(Ok(false));
    job.advance(Err("ignored".to_string()));
    let effects = job.advance(Err("disk on pool 'x' (Local) is not on shared storage; cannot fail over".to_string()));
    assert!(matches!(effects.as_slice(), [JobEffect::MarkFailed(_)]));
    assert!(job.stage == FailoverStage::Finished);
}
