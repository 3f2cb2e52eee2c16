use qarax::jobs::{
    evacuate_description, failover_description, migrate_description, start_allowed, start_description, JobEffect, MigrateAction, MigrateJob, MigrateStage, SandboxLookup, StartAction, StartJob,
    StartStage, VmLookup,
};
use qarax::model::{SandboxStatus, VmStatus};

fn ok() -> Result<String, String> {
    Ok(String::new())
}

fn failed(m: &str) -> Result<String, String> {
    Err(m.to_string())
}

fn describe(effects: &[JobEffect]) -> Vec<String> {
    effects
        .iter()
        .map(|e| match e {
            JobEffect::MarkFailed(m) => format!("failed: {}", m),
            JobEffect::RestoreStatus => "restore".to_string(),
            JobEffect::SetProgress(p) => format!("progress {}", p),
            JobEffect::DeleteVmOnNode => "delete".to_string(),
            JobEffect::SetStatusRunning => "running".to_string(),
            JobEffect::MarkCompleted => "completed".to_string(),
            JobEffect::RevertHost => "revert host".to_string(),
            JobEffect::RevertConfig => "revert config".to_string(),
        })
        .collect()
}

#[test]
fn start_job_for_created_vm_creates_then_boots() {
    let mut job = StartJob::new(VmStatus::Created);
    let mut actions = Vec::new();
    let mut effects = Vec::new();
    while let Some(a) = job.action() {
        actions.push(a);
        effects.extend(describe(&job.advance(ok())));
    }
    assert_eq!(
        actions,
        vec![
            StartAction::MarkJobRunning,
            StartAction::CheckStartAllowed,
            StartAction::CreateVm,
            StartAction::CheckStartAllowed,
            StartAction::CheckStartAllowed,
            StartAction::StartVm,
        ]
    );
    assert_eq!(effects, vec!["progress 50", "running", "completed"]);
}

#[test]
fn start_job_for_stopped_vm_skips_creation() {
    let mut job = StartJob::new(VmStatus::Shutdown);
    let mut actions = Vec::new();
    while let Some(a) = job.action() {
        actions.push(a);
        job.advance(ok());
    }
    assert_eq!(
        actions,
        vec![StartAction::MarkJobRunning, StartAction::CheckStartAllowed, StartAction::CheckStartAllowed, StartAction::StartVm]
    );
}

#[test]
fn start_job_failures() {
    let mut job = StartJob::new(VmStatus::Created);
    job.advance(ok());
    job.advance(ok());
    let e = job.advance(failed("boom"));
    assert_eq!(describe(&e), vec!["failed: create_vm failed: boom", "restore"]);
    assert!(job.stage == StartStage::Finished);

    let mut job = StartJob::new(VmStatus::Created);
    job.advance(ok());
    job.advance(ok());
    job.advance(ok());
    let e = job.advance(failed("VM was deleted before start"));
    assert_eq!(describe(&e), vec!["failed: VM was deleted before start", "delete", "restore"]);

    let mut job = StartJob::new(VmStatus::Shutdown);
    job.advance(ok());
    let e = job.advance(failed("sandbox gone"));
    assert_eq!(describe(&e), vec!["failed: sandbox gone"]);

    let mut job = StartJob::new(VmStatus::Shutdown);
    assert!(job.advance(failed("db down")).is_empty());
    assert!(job.stage == StartStage::Finished);

    let mut job = StartJob::new(VmStatus::Unknown);
    job.advance(ok());
    job.advance(ok());
    job.advance(ok());
    let e = job.advance(failed("no kvm"));
    assert_eq!(describe(&e), vec!["failed: start_vm failed: no kvm", "restore"]);
}

#[test]
fn start_allowed_decisions() {
    let id: u128 = 0x67e5504410b1426f9247bb680e5fe0c8;
    assert_eq!(start_allowed(&VmLookup::Missing, &SandboxLookup::NoSandbox), Err("VM was deleted before start".to_string()));
    assert_eq!(
        start_allowed(&VmLookup::Failed("timeout".to_string()), &SandboxLookup::NoSandbox),
        Err("failed to reload VM before start: timeout".to_string())
    );
    assert_eq!(
        start_allowed(&VmLookup::Found, &SandboxLookup::Sandbox { id, status: SandboxStatus::Destroying }),
        Err("sandbox 67e55044-10b1-426f-9247-bb680e5fe0c8 is being deleted".to_string())
    );
    assert!(start_allowed(&VmLookup::Found, &SandboxLookup::Sandbox { id, status: SandboxStatus::Ready }).is_ok());
    assert_eq!(
        start_allowed(&VmLookup::Found, &SandboxLookup::Failed("x".to_string())),
        Err("failed to reload sandbox before start: x".to_string())
    );
}

#[test]
fn migration_job_rewrites_wildcard_address_and_completes() {
    let mut job = MigrateJob::new("192.168.1.20".to_string());
    assert!(matches!(job.action(), Some(MigrateAction::MarkJobRunning)));
    assert!(job.advance(ok()).is_empty());
    assert!(matches!(job.action(), Some(MigrateAction::ReceiveOnDestination)));
    let e = job.advance(Ok("tcp:0.0.0.0:6000".to_string()));
    assert_eq!(describe(&e), vec!["progress 25"]);
    match job.action() {
        Some(MigrateAction::SendFromSource(url)) => assert_eq!(url, "tcp:192.168.1.20:6000"),
        other => panic!("unexpected {:?}", other),
    }
    assert_eq!(describe(&job.advance(ok())), vec!["progress 75"]);
    assert!(matches!(job.action(), Some(MigrateAction::UpdateHost)));
    assert_eq!(describe(&job.advance(failed("ignored"))), vec!["restore"]);
    assert!(matches!(job.action(), Some(MigrateAction::DeleteOnSource)));
    assert_eq!(describe(&job.advance(ok())), vec!["completed"]);
    assert!(job.stage == MigrateStage::Finished);
    assert!(job.action().is_none());
}

#[test]
fn migration_job_failures_restore_status() {
    let mut job = MigrateJob::new("h".to_string());
    job.advance(ok());
    assert_eq!(
        describe(&job.advance(failed("no space"))),
        vec!["failed: receive_migration failed: no space", "restore"]
    );
    let mut job = MigrateJob::new("h".to_string());
    job.advance(ok());
    job.advance(Ok("tcp:10.0.0.1:1".to_string()));
    assert_eq!(describe(&job.advance(failed("reset"))), vec!["failed: send_migration failed: reset", "restore"]);
}

#[test]
fn job_descriptions() {
    assert_eq!(start_description("web-1"), "Starting VM web-1");
    assert_eq!(
        migrate_description("web-1", 0x67e5504410b1426f9247bb680e5fe0c8, 0x10),
        "Migrating VM web-1 from host 67e55044-10b1-426f-9247-bb680e5fe0c8 to 00000000-0000-0000-0000-000000000010"
    );
    assert_eq!(evacuate_description("node-01", 0x10), "Evacuating host node-01 (00000000-0000-0000-0000-000000000010)");
    assert_eq!(failover_description("web-1", "node-02"), "Failing over VM web-1 from host node-02");
}
