use qarax::errors::Error;
use qarax::evacuation::{
    check_evacuation, evacuation_failure, evacuation_progress, should_restore_host_status, EvacuationAction,
    EvacuationJob, EvacuationStage,
};
use qarax::ha::ResidentVm;
use qarax::jobs::JobEffect;
use qarax::model::{HostStatus, VmStatus};

fn vm(name: &str, status: VmStatus) -> ResidentVm {
    ResidentVm { id: 1, name: name.to_string(), status, ha_enabled: false }
}

#[test]
fn evacuation_precheck() {
    match check_evacuation("node-1", HostStatus::Down, &[]) {
        Err(Error::UnprocessableEntity(m)) => {
            assert_eq!(m, "host node-1 must be up or maintenance to evacuate (current status: down)")
        }
        other => panic!("unexpected {:?}", other),
    }
    match check_evacuation(
        "node-1",
        HostStatus::Up,
        &[vm("a", VmStatus::Running), vm("b", VmStatus::Shutdown), vm("c", VmStatus::Pending)],
    ) {
        Err(Error::UnprocessableEntity(m)) => assert_eq!(
            m,
            "host evacuation currently supports only running or paused VMs; incompatible residents: b (shutdown), c (pending)"
        ),
        other => panic!("unexpected {:?}", other),
    }
    assert!(check_evacuation("node-1", HostStatus::Maintenance, &[vm("a", VmStatus::Paused)]).is_ok());
}

#[test]
fn fail_host_evacuation_restores_original_status_when_no_vm_moved() {
    assert!(should_restore_host_status(0));
    let (error, status, restored) = evacuation_failure("boom".to_string(), HostStatus::Up, 0, Some(Ok(())));
    assert!(error.contains("host status restored to up"));
    assert_eq!(error, "boom; host status restored to up");
    assert_eq!(status, HostStatus::Up);
    assert!(restored);
}

#[test]
fn fail_host_evacuation_keeps_maintenance_after_partial_progress() {
    assert!(!should_restore_host_status(1));
    let (error, status, restored) = evacuation_failure("boom".to_string(), HostStatus::Up, 1, None);
    assert!(error.contains("host left in maintenance after evacuating 1 VM(s)"));
    assert_eq!(status, HostStatus::Maintenance);
    assert!(!restored);
}

#[test]
fn fail_host_evacuation_reports_failed_restore() {
    let (error, status, restored) =
        evacuation_failure("boom".to_string(), HostStatus::Up, 0, Some(Err("db gone".to_string())));
    assert_eq!(error, "boom; failed to restore host status to up: db gone");
    assert_eq!(status, HostStatus::Maintenance);
    assert!(!restored);
}

#[test]
fn evacuation_progress_values() {
    assert_eq!(evacuation_progress(1, 3), 33);
    assert_eq!(evacuation_progress(2, 3), 66);
    assert_eq!(evacuation_progress(3, 3), 100);
    assert_eq!(evacuation_progress(0, 0), 0);
}

#[test]
fn evacuation_job_moves_each_vm_in_order() {
    let mut job = EvacuationJob::new(vec![10, 20]);
    let mut trace = Vec::new();
    let mut progress = Vec::new();
    let mut completed = false;
    while let Some(a) = job.action() {
        let outcome = match &a {
            EvacuationAction::LoadVm(id) => Ok(format!("vm{}", id)),
            _ => Ok(String::new()),
        };
        trace.push(format!("{:?}", a));
        for e in job.advance(outcome) {
            match e {
                JobEffect::SetProgress(p) => progress.push(p),
                JobEffect::MarkCompleted => completed = true,
                other => panic!("unexpected {:?}", other),
            }
        }
    }
    assert_eq!(trace.len(), 9);
    assert_eq!(trace[1], "LoadVm(10)");
    assert_eq!(trace[5], "LoadVm(20)");
    assert_eq!(progress, vec![50, 100]);
    assert!(completed);
    assert_eq!(job.evacuated, vec!["vm10".to_string(), "vm20".to_string()]);
}

#[test]
fn evacuation_job_failures() {
    let mut job = EvacuationJob::new(vec![0x67e5504410b1426f9247bb680e5fe0c8]);
    job.advance(Ok(String::new()));
    let e = job.advance(Err("gone".to_string()));
    assert!(matches!(e.as_slice(), [JobEffect::MarkFailed(m)]
        if m == "failed to load resident VM 67e55044-10b1-426f-9247-bb680e5fe0c8: gone"));

    let mut job = EvacuationJob::new(vec![1]);
    job.advance(Ok(String::new()));
    job.advance(Ok("web".to_string()));
    let e = job.advance(Err("no host".to_string()));
    assert!(matches!(e.as_slice(), [JobEffect::MarkFailed(m)] if m == "failed to plan evacuation for VM 'web': no host"));

    let mut job = EvacuationJob::new(vec![1]);
    job.advance(Ok(String::new()));
    job.advance(Ok("web".to_string()));
    job.advance(Ok(String::new()));
    let e = job.advance(Err("locked".to_string()));
    assert!(matches!(e.as_slice(), [JobEffect::MarkFailed(m)] if m == "failed to mark VM 'web' migrating: locked"));

    let mut job = EvacuationJob::new(vec![1]);
    job.advance(Ok(String::new()));
    job.advance(Ok("web".to_string()));
    job.advance(Ok(String::new()));
    job.advance(Ok(String::new()));
    let e = job.advance(Err("migration failed".to_string()));
    assert!(matches!(e.as_slice(), [JobEffect::RestoreStatus, JobEffect::MarkFailed(m)] if m == "migration failed"));
    assert!(job.stage == EvacuationStage::Finished);

    let mut job = EvacuationJob::new(vec![]);
    let e = job.advance(Err("db".to_string()));
    assert!(matches!(e.as_slice(), [JobEffect::MarkFailed(m)] if m == "failed to start host evacuation job: db"));
    let mut job = EvacuationJob::new(vec![]);
    let e = job.advance(Ok(String::new()));
    assert!(matches!(e.as_slice(), [JobEffect::MarkCompleted]));
}
