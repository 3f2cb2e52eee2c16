//! What the scheduler is asked for when a VM is placed or moved: the VM's
//! size, the architecture, the root disk's space and pool, the networks the
//! host must reach, and GPUs.
use vstd::prelude::*;

use crate::errors::{is_unprocessable, unprocessable, Error};
use crate::ids::{uuid_string, uuid_text};
use crate::text::{owned, push_str};
use crate::vm_ops::GpuRequest;

verus! {

/// What a host must offer to take a VM.
#[derive(Debug)]
pub struct SchedulingRequest {
    pub memory_bytes: i64,
    pub vcpus: i32,
    pub disk_bytes: i64,
    pub architecture: Option<String>,
    pub storage_pool_id: Option<u128>,
    pub required_network_ids: Vec<u128>,
    pub gpu: Option<GpuRequest>,
}

/// The architecture a new VM is placed for: the one it asks for, as
/// `normalize_architecture` names it; the control plane's own when it asks
/// for none or for one that `normalize_architecture` does not know.
pub fn vm_architecture<F: Fn(String) -> Option<String>>(
    requested: Option<String>,
    control_plane: &str,
    normalize_architecture: F,
) -> (r: String)
    requires
        forall|a: String| normalize_architecture.requires((a,)),
    ensures
        requested is None ==> r@ == control_plane@,
        requested matches Some(a) ==> exists|n: Option<String>|
            normalize_architecture.ensures((a,), n) && r@ == match n {
                Some(x) => x@,
                None => control_plane@,
            },
{
    let normalized = match requested {
        Some(a) => normalize_architecture(a),
        None => None,
    };
    match normalized {
        Some(n) => n,
        None => owned(control_plane),
    }
}

/// Checks that the chosen host is attached to the pool backing the root
/// disk `object_id`, when there is such a pool.
pub fn check_root_disk_host(object_id: u128, pool_id: Option<u128>, host_has_pool: bool) -> (r: Result<(), Error>)
    ensures
        pool_id is None || host_has_pool ==> r is Ok,
        pool_id is Some && !host_has_pool ==> (r matches Err(e) && is_unprocessable(
            e,
            "selected host is not attached to the storage pool backing root_disk_object_id "@ + uuid_text(
                object_id,
            ),
        )),
{
    if pool_id.is_some() && !host_has_pool {
        let mut m = owned("selected host is not attached to the storage pool backing root_disk_object_id ");
        let t = uuid_string(object_id);
        push_str(&mut m, t.as_str());
        Err(Error::UnprocessableEntity(m))
    } else {
        Ok(())
    }
}

/// The request for a new VM: its memory and boot vCPUs, what its root disk
/// asks (`storage::root_disk_requirements`, or nothing without a root disk),
/// its architecture and its GPUs; no network is required.
pub fn new_vm_request(
    memory_bytes: i64,
    vcpus: i32,
    root: (i64, Option<u128>),
    architecture: String,
    gpu: Option<GpuRequest>,
) -> (r: SchedulingRequest)
    ensures
        r.memory_bytes == memory_bytes,
        r.vcpus == vcpus,
        r.disk_bytes == root.0,
        r.storage_pool_id == root.1,
        r.architecture == Some(architecture),
        r.required_network_ids@.len() == 0,
        r.gpu == gpu,
{
    SchedulingRequest {
        memory_bytes,
        vcpus,
        disk_bytes: root.0,
        architecture: Some(architecture),
        storage_pool_id: root.1,
        required_network_ids: Vec::new(),
        gpu,
    }
}

/// The networks of a VM's interfaces, each once.
pub open spec fn networks_of(nic_networks: Seq<Option<u128>>) -> Set<u128> {
    Set::new(|n: u128| nic_networks.contains(Some(n)))
}

/// The request for moving a VM off its host: its memory and boot vCPUs, its
/// persisted architecture, and every network its interfaces are on (each
/// once); no disk space, pool or GPU.
pub fn evacuation_request(
    memory_bytes: i64,
    vcpus: i32,
    architecture: Option<String>,
    nic_networks: &[Option<u128>],
) -> (r: SchedulingRequest)
    ensures
        r.memory_bytes == memory_bytes,
        r.vcpus == vcpus,
        r.disk_bytes == 0,
        r.architecture == architecture,
        r.storage_pool_id is None,
        r.gpu is None,
        r.required_network_ids@.to_set() == networks_of(nic_networks@),
        r.required_network_ids@.no_duplicates(),
{
    let mut ids: Vec<u128> = Vec::new();
    for i in 0..nic_networks.len()
        invariant
            ids@.no_duplicates(),
            forall|n: u128| ids@.contains(n) <==> nic_networks@.take(i as int).contains(Some(n)),
    {
        let ghost before = ids@;
        let ghost prefix = nic_networks@.take(i as int);
        match nic_networks[i] {
            Some(n) => {
                let mut seen = false;
                for k in 0..ids.len()
                    invariant
                        ids@ == before,
                        seen <==> exists|m: int| 0 <= m < k && ids@[m] == n,
                {
                    if ids[k] == n {
                        seen = true;
                    }
                }
                if !seen {
                    ids.push(n);
                }
                proof {
                    assert(nic_networks@.take(i + 1) =~= prefix.push(Some(n)));
                    assert forall|x: u128| ids@.contains(x) <==> nic_networks@.take(i + 1).contains(Some(x)) by {
                        vstd::seq_lib::lemma_seq_contains_after_push(prefix, Some(n), Some(x));
                        if !seen {
                            vstd::seq_lib::lemma_seq_contains_after_push(before, n, x);
                        } else {
                            assert(before.contains(n));
                        }
                    }
                    if !seen {
                        assert forall|a: int, b: int| 0 <= a < b < ids@.len() implies ids@[a] != ids@[b] by {
                            if b == before.len() {
                                assert(before[a] != n);
                            }
                        }
                    }
                }
            },
            None => {
                proof {
                    assert(nic_networks@.take(i + 1) =~= prefix.push(None));
                    assert forall|x: u128| ids@.contains(x) <==> nic_networks@.take(i + 1).contains(Some(x)) by {
                        vstd::seq_lib::lemma_seq_contains_after_push(prefix, None, Some(x));
                    }
                }
            },
        }
    }
    assert(nic_networks@.take(nic_networks.len() as int) =~= nic_networks@);
    assert(ids@.to_set() =~= networks_of(nic_networks@));
    SchedulingRequest {
        memory_bytes,
        vcpus,
        disk_bytes: 0,
        architecture,
        storage_pool_id: None,
        required_network_ids: ids,
        gpu: None,
    }
}

/// The host the scheduler chose, or the refusal when it found none.
pub fn chosen_host<H>(candidate: Option<H>) -> (r: Result<H, Error>)
    ensures
        candidate matches Some(h) ==> r == Ok::<H, Error>(h),
        candidate is None ==> (r matches Err(e) && is_unprocessable(
            e,
            "no hosts in UP state with sufficient resources available for scheduling"@,
        )),
{
    match candidate {
        Some(h) => Ok(h),
        None => Err(unprocessable("no hosts in UP state with sufficient resources available for scheduling")),
    }
}

} // verus!
