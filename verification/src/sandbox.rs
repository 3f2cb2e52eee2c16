//! Sandboxes: the checks before a command runs in one, whether a request
//! may take a prewarmed VM, and the watcher that waits for a new sandbox's
//! VM to come up.
use vstd::prelude::*;

use crate::errors::{is_unprocessable, unprocessable, Error};
use crate::ids::{uuid_string, uuid_text};
use crate::model::{SandboxStatus, VmStatus};
use crate::text::{owned, push_str};

verus! {

/// How long a sandbox may stay idle when the request names no limit, in
/// seconds.
pub const DEFAULT_IDLE_TIMEOUT_SECS: i32 = 300;

/// The idle timeout of a new sandbox.
pub fn idle_timeout(requested: Option<i32>) -> (r: i32)
    ensures
        r == match requested {
            Some(t) => t,
            None => DEFAULT_IDLE_TIMEOUT_SECS,
        },
{
    match requested {
        Some(t) => t,
        None => DEFAULT_IDLE_TIMEOUT_SECS,
    }
}

/// Whether a request may be served from the template's prewarmed VMs: only
/// when it names neither an instance type nor a network.
pub fn may_use_prewarmed(instance_type_id: Option<u128>, network_id: Option<u128>) -> (r: bool)
    ensures
        r == (instance_type_id is None && network_id is None),
{
    instance_type_id.is_none() && network_id.is_none()
}

/// The description of the job that records a claimed prewarmed sandbox.
pub fn claim_description(name: &str) -> (r: String)
    ensures
        r@ == "Claimed prewarmed sandbox "@ + name@,
{
    let mut r = owned("Claimed prewarmed sandbox ");
    push_str(&mut r, name);
    r
}

/// A command to run needs at least its program.
pub fn check_exec_command(command: &Vec<String>) -> (r: Result<(), Error>)
    ensures
        command.len() == 0 ==> (r matches Err(e) && is_unprocessable(e, "command must contain at least one argument"@)),
        command.len() > 0 ==> r is Ok,
{
    if command.len() == 0 {
        Err(unprocessable("command must contain at least one argument"))
    } else {
        Ok(())
    }
}

/// Why a command cannot run in the sandbox, if it cannot: the sandbox must
/// be ready, its VM running and on a host.
pub open spec fn exec_refusal(
    sandbox_id: u128,
    sandbox_status: SandboxStatus,
    vm_id: u128,
    vm_status: VmStatus,
    host_id: Option<u128>,
) -> Option<Seq<char>> {
    if !(sandbox_status is Ready) {
        Some("sandbox "@ + uuid_text(sandbox_id) + " is not ready"@)
    } else if !(vm_status is Running) {
        Some("sandbox VM "@ + uuid_text(vm_id) + " is not running"@)
    } else if host_id is None {
        Some("sandbox VM has no assigned host"@)
    } else {
        None
    }
}

/// Checks that a command can run in the sandbox, and gives the host of its
/// VM.
pub fn check_sandbox_exec(
    sandbox_id: u128,
    sandbox_status: SandboxStatus,
    vm_id: u128,
    vm_status: VmStatus,
    host_id: Option<u128>,
) -> (r: Result<u128, Error>)
    ensures
        match exec_refusal(sandbox_id, sandbox_status, vm_id, vm_status, host_id) {
            Some(m) => r matches Err(e) && is_unprocessable(e, m),
            None => r == Ok::<u128, Error>(host_id.unwrap()),
        },
{
    match sandbox_status {
        SandboxStatus::Ready => {},
        _ => {
            let mut m = owned("sandbox ");
            let t = uuid_string(sandbox_id);
            push_str(&mut m, t.as_str());
            push_str(&mut m, " is not ready");
            return Err(Error::UnprocessableEntity(m));
        },
    }
    match vm_status {
        VmStatus::Running => {},
        _ => {
            let mut m = owned("sandbox VM ");
            let t = uuid_string(vm_id);
            push_str(&mut m, t.as_str());
            push_str(&mut m, " is not running");
            return Err(Error::UnprocessableEntity(m));
        },
    }
    match host_id {
        Some(h) => Ok(h),
        None => Err(unprocessable("sandbox VM has no assigned host")),
    }
}

// ---------------------------------------------------------------------------
// Waiting for a new sandbox's VM
// ---------------------------------------------------------------------------

/// How many times the watcher reads the VM before it gives up (every two
/// seconds, so five minutes).
pub const SANDBOX_START_POLLS: u32 = 150;

/// What a read of the sandbox's VM gave.
#[derive(Debug)]
pub enum VmPoll {
    Found(VmStatus),
    NotFound,
    /// The read failed; the watcher tries again.
    Failed,
}

/// What the watcher does after a read.
#[derive(Debug)]
pub enum WatchVerdict {
    /// Read again at the next tick.
    Wait,
    /// Mark the sandbox ready and stop.
    Ready,
    /// Mark the sandbox failed with this message and stop.
    Failed(String),
    /// Stop without recording anything (the VM is gone).
    Stop,
}

/// Whether the VM's start is still in flight, so that the job must be
/// looked at before anything is concluded.
pub open spec fn start_in_flight(s: VmStatus) -> bool {
    !(s is Running || s is Shutdown || s is Unknown)
}

/// The watcher's decision at its `attempt`-th read (counting from one):
/// past the last read it gives up; a running VM makes the sandbox ready, a
/// stopped or unknown one failed; while the start is in flight, a failed
/// start job (`failed_job`: its error, if it has one) fails the sandbox.
pub fn sandbox_watch_step(attempt: u32, poll: &VmPoll, failed_job: &Option<Option<String>>) -> (r: WatchVerdict)
    ensures
        attempt > SANDBOX_START_POLLS ==> (r matches WatchVerdict::Failed(m) && m@
            == "timed out waiting for VM to start"@),
        attempt <= SANDBOX_START_POLLS ==> match *poll {
            VmPoll::Found(s) => if s is Running {
                r is Ready
            } else if !start_in_flight(s) {
                r matches WatchVerdict::Failed(m) && m@ == "VM failed to start"@
            } else {
                match *failed_job {
                    Some(Some(e)) => r matches WatchVerdict::Failed(m) && m@ == e@,
                    Some(None) => r matches WatchVerdict::Failed(m) && m@ == "VM failed to start"@,
                    None => r is Wait,
                }
            },
            VmPoll::NotFound => r is Stop,
            VmPoll::Failed => r is Wait,
        },
{
    if attempt > SANDBOX_START_POLLS {
        return WatchVerdict::Failed(owned("timed out waiting for VM to start"));
    }
    match poll {
        VmPoll::Found(s) => match s {
            VmStatus::Running => WatchVerdict::Ready,
            VmStatus::Shutdown | VmStatus::Unknown => WatchVerdict::Failed(owned("VM failed to start")),
            _ => match failed_job {
                Some(Some(e)) => WatchVerdict::Failed(e.clone()),
                Some(None) => WatchVerdict::Failed(owned("VM failed to start")),
                None => WatchVerdict::Wait,
            },
        },
        VmPoll::NotFound => WatchVerdict::Stop,
        VmPoll::Failed => WatchVerdict::Wait,
    }
}

} // verus!
