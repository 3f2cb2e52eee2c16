use qarax::errors::Error;
use qarax::model::{SandboxStatus, VmStatus};
use qarax::sandbox::{
    check_exec_command, check_sandbox_exec, claim_description, idle_timeout, may_use_prewarmed, sandbox_watch_step,
    VmPoll, WatchVerdict,
};

fn refusal<T: std::fmt::Debug>(r: Result<T, Error>) -> String {
    match r {
        Err(Error::UnprocessableEntity(m)) => m,
        other => panic!("unexpected {:?}", other),
    }
}

#[test]
fn sandbox_request_defaults() {
    assert_eq!(idle_timeout(None), 300);
    assert_eq!(idle_timeout(Some(60)), 60);
    assert!(may_use_prewarmed(None, None));
    assert!(!may_use_prewarmed(Some(1), None));
    assert!(!may_use_prewarmed(None, Some(2)));
    assert_eq!(claim_description("ci-runner"), "Claimed prewarmed sandbox ci-runner");
}

#[test]
fn sandbox_exec_checks() {
    assert_eq!(refusal(check_exec_command(&vec![])), "command must contain at least one argument");
    assert!(check_exec_command(&vec!["ls".to_string()]).is_ok());
    let sb: u128 = 0x67e5504410b1426f9247bb680e5fe0c8;
    let vm: u128 = 0x10;
    assert_eq!(
        refusal(check_sandbox_exec(sb, SandboxStatus::Provisioning, vm, VmStatus::Running, Some(3))),
        "sandbox 67e55044-10b1-426f-9247-bb680e5fe0c8 is not ready"
    );
    assert_eq!(
        refusal(check_sandbox_exec(sb, SandboxStatus::Ready, vm, VmStatus::Paused, Some(3))),
        "sandbox VM 00000000-0000-0000-0000-000000000010 is not running"
    );
    assert_eq!(
        refusal(check_sandbox_exec(sb, SandboxStatus::Ready, vm, VmStatus::Running, None)),
        "sandbox VM has no assigned host"
    );
    assert_eq!(check_sandbox_exec(sb, SandboxStatus::Ready, vm, VmStatus::Running, Some(3)).unwrap(), 3);
}

fn failed_with(v: WatchVerdict) -> String {
    match v {
        WatchVerdict::Failed(m) => m,
        other => panic!("unexpected {:?}", other),
    }
}

#[test]
fn sandbox_watcher_decisions() {
    assert!(matches!(sandbox_watch_step(1, &VmPoll::Found(VmStatus::Running), &None), WatchVerdict::Ready));
    assert_eq!(failed_with(sandbox_watch_step(2, &VmPoll::Found(VmStatus::Shutdown), &None)), "VM failed to start");
    assert!(matches!(sandbox_watch_step(3, &VmPoll::Found(VmStatus::Pending), &None), WatchVerdict::Wait));
    assert_eq!(
        failed_with(sandbox_watch_step(3, &VmPoll::Found(VmStatus::Created), &Some(Some("no host".to_string())))),
        "no host"
    );
    assert_eq!(
        failed_with(sandbox_watch_step(3, &VmPoll::Found(VmStatus::Created), &Some(None))),
        "VM failed to start"
    );
    assert!(matches!(sandbox_watch_step(4, &VmPoll::NotFound, &None), WatchVerdict::Stop));
    assert!(matches!(sandbox_watch_step(150, &VmPoll::Failed, &None), WatchVerdict::Wait));
    assert_eq!(
        failed_with(sandbox_watch_step(151, &VmPoll::Found(VmStatus::Running), &None)),
        "timed out waiting for VM to start"
    );
}
