//! The checks made before acting on a VM: which states allow which
//! operation, and which CPU, memory and disk sizes a resize accepts.
use vstd::prelude::*;

use crate::devices::{NetworkInterface, VmDisk};
use crate::ids::{uuid_string, uuid_text};
use crate::storage::StoragePool;
use crate::errors::{is_unprocessable, unprocessable, Error};
use crate::model::VmStatus;
use crate::text::{dec_int, owned, push_i64, push_str};

verus! {

// ---------------------------------------------------------------------------
// Operations allowed by the VM's state
// ---------------------------------------------------------------------------

/// `r` fails with an `UnprocessableEntity` carrying the refusal, or succeeds
/// when there is none.
pub open spec fn answers(refusal: Option<Seq<char>>, r: Result<(), Error>) -> bool {
    match refusal {
        Some(m) => r matches Err(e) && is_unprocessable(e, m),
        None => r is Ok,
    }
}

/// Why a VM in state `s` cannot be started, if it cannot. A commit in
/// progress is a pending job.
pub open spec fn start_refusal(s: VmStatus) -> Option<Seq<char>> {
    match s {
        VmStatus::Running => Some("VM is already running"@),
        VmStatus::Paused => Some("VM is paused; use POST /vms/{vm_id}/resume instead"@),
        VmStatus::Pending | VmStatus::Committing => Some(
            "VM is pending job completion; wait for the job to finish"@,
        ),
        VmStatus::Migrating => Some("VM is being migrated; wait for migration to finish"@),
        VmStatus::Created | VmStatus::Shutdown | VmStatus::Unknown => None,
    }
}

/// Which states allow which operation: a VM starts from Created, Shutdown
/// or Unknown; it is restored unless running, paused or busy with a job;
/// its disks change in Created, Running or Shutdown, its NICs in Created or
/// Running.
pub proof fn lemma_state_gates(s: VmStatus)
    ensures
        start_refusal(s) is None <==> (s is Created || s is Shutdown || s is Unknown),
        restore_refusal(s) is None <==> !(s is Running || s is Paused || s is Pending || s is Committing),
        disks_changeable(s) <==> (s is Created || s is Running || s is Shutdown),
        nics_changeable(s) <==> (s is Created || s is Running),
{
}

/// A VM can be started from Created, Shutdown or Unknown.
pub fn check_start(s: VmStatus) -> (r: Result<(), Error>)
    ensures
        answers(start_refusal(s), r),
        r is Ok <==> (s is Created || s is Shutdown || s is Unknown),
{
    match s {
        VmStatus::Running => Err(unprocessable("VM is already running")),
        VmStatus::Paused => Err(unprocessable("VM is paused; use POST /vms/{vm_id}/resume instead")),
        VmStatus::Pending | VmStatus::Committing => Err(
            unprocessable("VM is pending job completion; wait for the job to finish"),
        ),
        VmStatus::Migrating => Err(unprocessable("VM is being migrated; wait for migration to finish")),
        VmStatus::Created | VmStatus::Shutdown | VmStatus::Unknown => Ok(()),
    }
}

/// Why a VM in state `s` cannot be restored from a snapshot, if it cannot.
pub open spec fn restore_refusal(s: VmStatus) -> Option<Seq<char>> {
    match s {
        VmStatus::Running | VmStatus::Paused | VmStatus::Pending | VmStatus::Committing => Some(
            "VM must be stopped before restoring"@,
        ),
        _ => None,
    }
}

/// A VM must be stopped before it is restored.
pub fn check_restore(s: VmStatus) -> (r: Result<(), Error>)
    ensures
        answers(restore_refusal(s), r),
        r is Ok <==> !(s is Running || s is Paused || s is Pending || s is Committing),
{
    match s {
        VmStatus::Running | VmStatus::Paused | VmStatus::Pending | VmStatus::Committing => Err(
            unprocessable("VM must be stopped before restoring"),
        ),
        _ => Ok(()),
    }
}

/// Disks are attached and removed in Created, Running or Shutdown.
pub open spec fn disks_changeable(s: VmStatus) -> bool {
    s is Created || s is Running || s is Shutdown
}

/// NICs are added and removed in Created or Running.
pub open spec fn nics_changeable(s: VmStatus) -> bool {
    s is Created || s is Running
}

pub fn check_attach_disk(s: VmStatus) -> (r: Result<(), Error>)
    ensures
        answers(
            if disks_changeable(s) {
                None
            } else {
                Some("Disks can only be attached to VMs in Created, Running, or Shutdown state"@)
            },
            r,
        ),
        r is Ok <==> (s is Created || s is Running || s is Shutdown),
{
    match s {
        VmStatus::Created | VmStatus::Running | VmStatus::Shutdown => Ok(()),
        _ => Err(unprocessable("Disks can only be attached to VMs in Created, Running, or Shutdown state")),
    }
}

pub fn check_remove_disk(s: VmStatus) -> (r: Result<(), Error>)
    ensures
        answers(
            if disks_changeable(s) {
                None
            } else {
                Some("Disks can only be removed from VMs in Created, Running, or Shutdown state"@)
            },
            r,
        ),
        r is Ok <==> (s is Created || s is Running || s is Shutdown),
{
    match s {
        VmStatus::Created | VmStatus::Running | VmStatus::Shutdown => Ok(()),
        _ => Err(unprocessable("Disks can only be removed from VMs in Created, Running, or Shutdown state")),
    }
}

pub fn check_add_nic(s: VmStatus) -> (r: Result<(), Error>)
    ensures
        answers(
            if nics_changeable(s) {
                None
            } else {
                Some("NICs can only be added to VMs in Created or Running state"@)
            },
            r,
        ),
        r is Ok <==> (s is Created || s is Running),
{
    match s {
        VmStatus::Created | VmStatus::Running => Ok(()),
        _ => Err(unprocessable("NICs can only be added to VMs in Created or Running state")),
    }
}

pub fn check_remove_nic(s: VmStatus) -> (r: Result<(), Error>)
    ensures
        answers(
            if nics_changeable(s) {
                None
            } else {
                Some("NICs can only be removed from VMs in Created or Running state"@)
            },
            r,
        ),
        r is Ok <==> (s is Created || s is Running),
{
    match s {
        VmStatus::Created | VmStatus::Running => Ok(()),
        _ => Err(unprocessable("NICs can only be removed from VMs in Created or Running state")),
    }
}

/// Why a VM in state `s` cannot be migrated, if it cannot.
pub open spec fn migrate_refusal(s: VmStatus) -> Option<Seq<char>> {
    if s is Running || s is Paused {
        None
    } else {
        Some("VM must be running or paused to migrate (current status: "@ + s.name() + ")"@)
    }
}

/// A VM can be migrated exactly when it is running or paused; in any other
/// state the check refuses it.
pub proof fn lemma_migrate_accepts_running_or_paused(s: VmStatus)
    ensures
        migrate_refusal(s) is None <==> (s is Running || s is Paused),
        s is Running ==> migrate_refusal(s) is None,
{
}

/// Only running or paused VMs are migrated.
pub fn check_migrate(s: VmStatus) -> (r: Result<(), Error>)
    ensures
        answers(migrate_refusal(s), r),
        r is Ok <==> (s is Running || s is Paused),
{
    match s {
        VmStatus::Running | VmStatus::Paused => Ok(()),
        _ => {
            let mut m = owned("VM must be running or paused to migrate (current status: ");
            push_str(&mut m, s.as_str());
            push_str(&mut m, ")");
            Err(Error::UnprocessableEntity(m))
        },
    }
}

// ---------------------------------------------------------------------------
// CPU and memory resize
// ---------------------------------------------------------------------------

/// Request body of a CPU / memory resize. At least one field must be given.
#[derive(Debug)]
pub struct VmResizeRequest {
    /// Target vCPU count.
    pub desired_vcpus: Option<i32>,
    /// Target memory size in bytes.
    pub desired_ram: Option<i64>,
}

/// Memory is hot-plugged in 128 MiB increments.
pub const HOTPLUG_MEMORY_INCREMENT_BYTES: i64 = 134217728;

/// The largest memory size a VM can grow to.
pub open spec fn max_ram(memory_size: i64, memory_hotplug_size: Option<i64>) -> int {
    memory_size + match memory_hotplug_size {
        Some(h) => h as int,
        None => 0,
    }
}

/// `[lo, hi]`.
pub open spec fn range_text(lo: int, hi: int) -> Seq<char> {
    "["@ + dec_int(lo) + ", "@ + dec_int(hi) + "]"@
}

/// Why a resize request is refused, if it is: nothing requested, the VM not
/// running, vCPUs outside `[boot_vcpus, max_vcpus]`, memory outside
/// `[memory_size, memory_size + hotplug]`, or a memory addition that is not
/// a multiple of the hot-plug increment.
pub open spec fn vm_resize_refusal(
    req: VmResizeRequest,
    status: VmStatus,
    boot_vcpus: i32,
    max_vcpus: i32,
    memory_size: i64,
    memory_hotplug_size: Option<i64>,
) -> Option<Seq<char>> {
    let hi = max_ram(memory_size, memory_hotplug_size);
    if req.desired_vcpus is None && req.desired_ram is None {
        Some("At least one of desired_vcpus or desired_ram must be provided"@)
    } else if !(status is Running) {
        Some("VM must be running to resize CPU or memory"@)
    } else if req.desired_vcpus matches Some(v) && !(boot_vcpus <= v <= max_vcpus) {
        Some(
            "desired_vcpus "@ + dec_int(req.desired_vcpus->0 as int) + " is out of range "@ + range_text(
                boot_vcpus as int,
                max_vcpus as int,
            ),
        )
    } else if req.desired_ram matches Some(m) && !(memory_size <= m <= hi) {
        Some(
            "desired_ram "@ + dec_int(req.desired_ram->0 as int) + " is out of range "@ + range_text(
                memory_size as int,
                hi,
            ),
        )
    } else if req.desired_ram matches Some(m) && (m - memory_size) % (HOTPLUG_MEMORY_INCREMENT_BYTES as int)
        != 0 {
        Some(
            "desired_ram "@ + dec_int(req.desired_ram->0 as int) + " requires a hotplug addition of "@
                + dec_int(req.desired_ram->0 - memory_size) + " bytes, which is not a multiple of "@
                + dec_int(HOTPLUG_MEMORY_INCREMENT_BYTES as int) + " bytes"@,
        )
    } else {
        None
    }
}

/// What a resize request must be to be accepted: it asks for something,
/// the VM is running, a requested vCPU count lies in
/// `boot_vcpus..=max_vcpus`, and requested memory lies between the current
/// size and the current size plus the hot-plug allowance, growing by a whole
/// number of hot-plug increments.
pub open spec fn resize_acceptable(
    req: VmResizeRequest,
    status: VmStatus,
    boot_vcpus: i32,
    max_vcpus: i32,
    memory_size: i64,
    memory_hotplug_size: Option<i64>,
) -> bool {
    &&& (req.desired_vcpus is Some || req.desired_ram is Some)
    &&& status is Running
    &&& forall|v: i32| req.desired_vcpus == Some(v) ==> boot_vcpus <= v && v <= max_vcpus
    &&& forall|m: i64|
        req.desired_ram == Some(m) ==> memory_size <= m && m <= memory_size + match memory_hotplug_size {
            Some(h) => h as int,
            None => 0int,
        } && (m - memory_size) % 134217728 == 0
}

/// A resize request is refused exactly when it is not acceptable; in
/// particular a vCPU count below `boot_vcpus` or above `max_vcpus` is
/// always refused.
pub proof fn lemma_resize_accepts_exactly(
    req: VmResizeRequest,
    status: VmStatus,
    boot_vcpus: i32,
    max_vcpus: i32,
    memory_size: i64,
    memory_hotplug_size: Option<i64>,
)
    ensures
        vm_resize_refusal(req, status, boot_vcpus, max_vcpus, memory_size, memory_hotplug_size) is None
            <==> resize_acceptable(req, status, boot_vcpus, max_vcpus, memory_size, memory_hotplug_size),
        req.desired_vcpus matches Some(v) && (v < boot_vcpus || v > max_vcpus) ==> vm_resize_refusal(
            req,
            status,
            boot_vcpus,
            max_vcpus,
            memory_size,
            memory_hotplug_size,
        ) is Some,
{
}

/// Checks a CPU / memory resize request against the VM it is for.
pub fn validate_vm_resize(
    req: &VmResizeRequest,
    status: VmStatus,
    boot_vcpus: i32,
    max_vcpus: i32,
    memory_size: i64,
    memory_hotplug_size: Option<i64>,
) -> (r: Result<(), Error>)
    requires
        req.desired_ram is Some ==> i64::MIN <= max_ram(memory_size, memory_hotplug_size) <= i64::MAX,
    ensures
        answers(vm_resize_refusal(*req, status, boot_vcpus, max_vcpus, memory_size, memory_hotplug_size), r),
        r is Ok <==> resize_acceptable(*req, status, boot_vcpus, max_vcpus, memory_size, memory_hotplug_size),
{
    proof {
        lemma_resize_accepts_exactly(*req, status, boot_vcpus, max_vcpus, memory_size, memory_hotplug_size);
    }
    if req.desired_vcpus.is_none() && req.desired_ram.is_none() {
        return Err(unprocessable("At least one of desired_vcpus or desired_ram must be provided"));
    }
    match status {
        VmStatus::Running => {},
        _ => {
            return Err(unprocessable("VM must be running to resize CPU or memory"));
        },
    }
    if let Some(v) = req.desired_vcpus {
        if !(boot_vcpus <= v && v <= max_vcpus) {
            let mut m = owned("desired_vcpus ");
            push_i64(&mut m, v as i64);
            push_str(&mut m, " is out of range [");
            push_i64(&mut m, boot_vcpus as i64);
            push_str(&mut m, ", ");
            push_i64(&mut m, max_vcpus as i64);
            push_str(&mut m, "]");
            proof {
                reveal_strlit(" is out of range [");
                reveal_strlit(" is out of range ");
                reveal_strlit("[");
                assert(" is out of range ["@ =~= " is out of range "@ + "["@);
            }
            assert(m@ =~= "desired_vcpus "@ + dec_int(v as int) + " is out of range "@ + range_text(
                boot_vcpus as int,
                max_vcpus as int,
            ));
            return Err(Error::UnprocessableEntity(m));
        }
    }
    if let Some(ram) = req.desired_ram {
        let hot: i64 = match memory_hotplug_size {
            Some(h) => h,
            None => 0,
        };
        let hi: i64 = memory_size + hot;
        if !(memory_size <= ram && ram <= hi) {
            let mut m = owned("desired_ram ");
            push_i64(&mut m, ram);
            push_str(&mut m, " is out of range [");
            push_i64(&mut m, memory_size);
            push_str(&mut m, ", ");
            push_i64(&mut m, hi);
            push_str(&mut m, "]");
            proof {
                reveal_strlit(" is out of range [");
                reveal_strlit(" is out of range ");
                reveal_strlit("[");
                assert(" is out of range ["@ =~= " is out of range "@ + "["@);
            }
            assert(m@ =~= "desired_ram "@ + dec_int(ram as int) + " is out of range "@ + range_text(
                memory_size as int,
                hi as int,
            ));
            return Err(Error::UnprocessableEntity(m));
        }
        let addition: i64 = ram - memory_size;
        if addition % HOTPLUG_MEMORY_INCREMENT_BYTES != 0 {
            let mut m = owned("desired_ram ");
            push_i64(&mut m, ram);
            push_str(&mut m, " requires a hotplug addition of ");
            push_i64(&mut m, addition);
            push_str(&mut m, " bytes, which is not a multiple of ");
            push_i64(&mut m, HOTPLUG_MEMORY_INCREMENT_BYTES);
            push_str(&mut m, " bytes");
            return Err(Error::UnprocessableEntity(m));
        }
    }
    Ok(())
}

// ---------------------------------------------------------------------------
// Disk resize
// ---------------------------------------------------------------------------

/// Request body of a disk resize: the new size, larger than the current one
/// and a multiple of 1 MiB.
#[derive(Debug)]
pub struct DiskResizeRequest {
    pub new_size_bytes: i64,
}

pub const MIB: i64 = 1048576;

/// Why a disk of a VM in state `s` cannot be resized, if it cannot: the VM
/// must be stopped, the disk not a vhost-user disk, and backed by a storage
/// object.
pub open spec fn disk_resize_refusal(s: VmStatus, disk: VmDisk) -> Option<Seq<char>> {
    if !(s is Created || s is Shutdown) {
        Some("VM must be stopped (Created or Shutdown) to resize a disk"@)
    } else if disk.vhost_user {
        Some("vhost-user disks cannot be resized"@)
    } else if disk.storage_object_id is None {
        Some("disk has no backing storage object"@)
    } else {
        None
    }
}

/// Checks that a disk can be resized and gives the object backing it.
pub fn check_disk_resizable(s: VmStatus, disk: &VmDisk) -> (r: Result<u128, Error>)
    ensures
        disk_resize_refusal(s, *disk) matches Some(m) ==> r matches Err(e) && is_unprocessable(e, m),
        disk_resize_refusal(s, *disk) is None ==> r == Ok::<u128, Error>(disk.storage_object_id->0),
{
    match s {
        VmStatus::Created | VmStatus::Shutdown => {},
        _ => {
            return Err(unprocessable("VM must be stopped (Created or Shutdown) to resize a disk"));
        },
    }
    if disk.vhost_user {
        return Err(unprocessable("vhost-user disks cannot be resized"));
    }
    match disk.storage_object_id {
        Some(id) => Ok(id),
        None => Err(unprocessable("disk has no backing storage object")),
    }
}

/// Why a new disk size is refused, if it is.
pub open spec fn disk_size_refusal(new_size: i64, current: i64) -> Option<Seq<char>> {
    if new_size <= current {
        Some(
            "new_size_bytes "@ + dec_int(new_size as int) + " must be greater than current size "@ + dec_int(
                current as int,
            ),
        )
    } else if new_size % MIB != 0 {
        Some("new_size_bytes "@ + dec_int(new_size as int) + " must be a multiple of 1 MiB ("@ + dec_int(
            MIB as int,
        ) + ")"@)
    } else {
        None
    }
}

/// A disk only grows, by whole MiBs.
pub fn check_new_disk_size(new_size: i64, current: i64) -> (r: Result<(), Error>)
    ensures
        answers(disk_size_refusal(new_size, current), r),
{
    if new_size <= current {
        let mut m = owned("new_size_bytes ");
        push_i64(&mut m, new_size);
        push_str(&mut m, " must be greater than current size ");
        push_i64(&mut m, current);
        return Err(Error::UnprocessableEntity(m));
    }
    if new_size % MIB != 0 {
        let mut m = owned("new_size_bytes ");
        push_i64(&mut m, new_size);
        push_str(&mut m, " must be a multiple of 1 MiB (");
        push_i64(&mut m, MIB);
        push_str(&mut m, ")");
        return Err(Error::UnprocessableEntity(m));
    }
    Ok(())
}

// ---------------------------------------------------------------------------
// Placement
// ---------------------------------------------------------------------------

/// Why a host of architecture `host` cannot run a VM of architecture `vm`,
/// if it cannot: a host that reports an architecture must report the VM's.
pub open spec fn architecture_refusal(host: Option<Seq<char>>, vm: Seq<char>) -> Option<Seq<char>> {
    match host {
        Some(h) => if h != vm {
            Some("selected host architecture "@ + h + " does not match VM architecture "@ + vm)
        } else {
            None
        },
        None => None,
    }
}

pub fn ensure_host_matches_architecture(host_architecture: Option<&str>, architecture: &str) -> (r: Result<
    (),
    Error,
>)
    ensures
        answers(
            architecture_refusal(
                match host_architecture {
                    Some(h) => Some(h@),
                    None => None,
                },
                architecture@,
            ),
            r,
        ),
{
    match host_architecture {
        Some(h) => {
            if !crate::text::str_eq(h, architecture) {
                let mut m = owned("selected host architecture ");
                push_str(&mut m, h);
                push_str(&mut m, " does not match VM architecture ");
                push_str(&mut m, architecture);
                Err(Error::UnprocessableEntity(m))
            } else {
                Ok(())
            }
        },
        None => Ok(()),
    }
}

/// GPUs requested by a VM.
#[derive(Debug)]
pub struct AcceleratorConfig {
    pub gpu_count: i32,
    pub gpu_vendor: Option<String>,
    pub gpu_model: Option<String>,
    pub min_vram_bytes: Option<i64>,
}

/// The GPU part of a scheduling request.
#[derive(Debug)]
pub struct GpuRequest {
    pub count: i32,
    pub vendor: Option<String>,
    pub model: Option<String>,
    pub min_vram_bytes: Option<i64>,
}

/// The scheduler's GPU request for a VM's accelerator configuration.
pub fn gpu_request(accel: Option<&AcceleratorConfig>) -> (r: Option<GpuRequest>)
    ensures
        accel is None <==> r is None,
        accel matches Some(a) ==> r matches Some(g) && g.count == a.gpu_count && g.vendor == a.gpu_vendor
            && g.model == a.gpu_model && g.min_vram_bytes == a.min_vram_bytes,
{
    match accel {
        Some(a) => Some(
            GpuRequest {
                count: a.gpu_count,
                vendor: a.gpu_vendor.clone(),
                model: a.gpu_model.clone(),
                min_vram_bytes: a.min_vram_bytes,
            },
        ),
        None => None,
    }
}

// ---------------------------------------------------------------------------
// Migration
// ---------------------------------------------------------------------------

/// A pool holding some of a VM's disks, and whether the host in question (for a
/// migration, the destination) has it attached.
#[derive(Debug)]
pub struct PoolPlacement {
    pub pool: StoragePool,
    pub on_host: bool,
}

/// Why a pool holding a VM's disk blocks a live migration, if it does.
pub open spec fn disk_pool_refusal(p: PoolPlacement, destination: u128) -> Option<Seq<char>> {
    if !p.pool.pool_type.spec_is_shared() {
        Some(
            "live migration is not supported for pool '"@ + p.pool.name@ + "' (type: "@
                + p.pool.pool_type.variant_name() + ")"@,
        )
    } else if !p.on_host {
        Some(
            "destination host "@ + uuid_text(destination) + " does not have pool '"@ + p.pool.name@ + "' ("@
                + p.pool.pool_type.variant_name() + ") attached"@,
        )
    } else {
        None
    }
}

/// Why a pool holding a persistent upper layer blocks a live migration, if it does.
pub open spec fn upper_pool_refusal(p: PoolPlacement, destination: u128) -> Option<Seq<char>> {
    if !p.pool.pool_type.spec_is_shared() {
        Some("live migration is not supported: persistent upper layer is on local pool '"@ + p.pool.name@ + "'"@)
    } else if !p.on_host {
        Some(
            "destination host "@ + uuid_text(destination) + " does not have upper layer pool '"@ + p.pool.name@
                + "' attached"@,
        )
    } else {
        None
    }
}

/// The refusal of the first pool, in order, that has one.
pub open spec fn first_pool_refusal(pools: Seq<PoolPlacement>, destination: u128, upper: bool) -> Option<Seq<char>>
    decreases pools.len(),
{
    if pools.len() == 0 {
        None
    } else {
        let here = if upper {
            upper_pool_refusal(pools[0], destination)
        } else {
            disk_pool_refusal(pools[0], destination)
        };
        if here is Some {
            here
        } else {
            first_pool_refusal(pools.drop_first(), destination, upper)
        }
    }
}

/// Why a live migration from `source` to `destination` is refused, if it
/// is: the two hosts must differ, and every pool holding the VM's disks,
/// then every pool holding their upper layers, must be shared and attached
/// to the destination.
pub open spec fn migration_refusal(
    source: u128,
    destination: u128,
    disk_pools: Seq<PoolPlacement>,
    upper_pools: Seq<PoolPlacement>,
) -> Option<Seq<char>> {
    if source == destination {
        Some("Source and destination hosts are the same"@)
    } else if first_pool_refusal(disk_pools, destination, false) is Some {
        first_pool_refusal(disk_pools, destination, false)
    } else {
        first_pool_refusal(upper_pools, destination, true)
    }
}

fn pool_refusal(p: &PoolPlacement, destination: u128, upper: bool) -> (r: Option<String>)
    ensures
        upper ==> crate::devices::opt_view(r) == upper_pool_refusal(*p, destination),
        !upper ==> crate::devices::opt_view(r) == disk_pool_refusal(*p, destination),
{
    let name = p.pool.name.as_str();
    if !p.pool.pool_type.is_shared() {
        if upper {
            let mut m = owned("live migration is not supported: persistent upper layer is on local pool '");
            push_str(&mut m, name);
            push_str(&mut m, "'");
            Some(m)
        } else {
            let mut m = owned("live migration is not supported for pool '");
            push_str(&mut m, name);
            push_str(&mut m, "' (type: ");
            push_str(&mut m, p.pool.pool_type.variant_str());
            push_str(&mut m, ")");
            Some(m)
        }
    } else if !p.on_host {
        let mut m = owned("destination host ");
        let id = uuid_string(destination);
        push_str(&mut m, id.as_str());
        if upper {
            push_str(&mut m, " does not have upper layer pool '");
            push_str(&mut m, name);
            push_str(&mut m, "' attached");
        } else {
            push_str(&mut m, " does not have pool '");
            push_str(&mut m, name);
            push_str(&mut m, "' (");
            push_str(&mut m, p.pool.pool_type.variant_str());
            push_str(&mut m, ") attached");
        }
        Some(m)
    } else {
        None
    }
}

fn first_refusal(pools: &[PoolPlacement], destination: u128, upper: bool) -> (r: Option<String>)
    ensures
        crate::devices::opt_view(r) == first_pool_refusal(pools@, destination, upper),
{
    let mut i: usize = 0;
    assert(pools@.skip(0) =~= pools@);
    while i < pools.len()
        invariant
            i <= pools.len(),
            first_pool_refusal(pools@, destination, upper) == first_pool_refusal(
                pools@.skip(i as int),
                destination,
                upper,
            ),
        decreases pools.len() - i,
    {
        let r = pool_refusal(&pools[i], destination, upper);
        assert(pools@.skip(i as int)[0] == pools@[i as int]);
        assert(pools@.skip(i as int).drop_first() =~= pools@.skip(i + 1));
        if r.is_some() {
            return r;
        }
        i = i + 1;
    }
    assert(pools@.skip(i as int).len() == 0);
    None
}

/// Checks that a VM can be live-migrated between two hosts given where its
/// disks and upper layers are stored.
pub fn check_migration_targets(
    source: u128,
    destination: u128,
    disk_pools: &[PoolPlacement],
    upper_pools: &[PoolPlacement],
) -> (r: Result<(), Error>)
    ensures
        answers(migration_refusal(source, destination, disk_pools@, upper_pools@), r),
{
    if source == destination {
        return Err(unprocessable("Source and destination hosts are the same"));
    }
    match first_refusal(disk_pools, destination, false) {
        Some(m) => {
            return Err(Error::UnprocessableEntity(m));
        },
        None => {},
    }
    match first_refusal(upper_pools, destination, true) {
        Some(m) => Err(Error::UnprocessableEntity(m)),
        None => Ok(()),
    }
}

// ---------------------------------------------------------------------------
// Attaching disks and adding NICs
// ---------------------------------------------------------------------------

/// Whether one of the disks is backed by the object.
pub open spec fn object_attached(existing: Seq<VmDisk>, object: u128) -> bool {
    exists|i: int| 0 <= i < existing.len() && (#[trigger] existing[i]).storage_object_id == Some(object)
}

/// The largest boot order among the disks that have one.
pub open spec fn max_boot_order(existing: Seq<VmDisk>) -> Option<i32>
    decreases existing.len(),
{
    if existing.len() == 0 {
        None
    } else {
        let rest = max_boot_order(existing.drop_last());
        match existing.last().boot_order {
            None => rest,
            Some(b) => match rest {
                None => Some(b),
                Some(m) => Some(if b > m {
                    b
                } else {
                    m
                }),
            },
        }
    }
}

/// Where a newly attached disk goes: its name, its device path and its
/// boot order.
#[derive(Debug)]
pub struct DiskPlacement {
    pub logical_name: String,
    pub device_path: String,
    pub boot_order: i32,
}

/// Plans attaching the disk backed by `object`: refused when the object is
/// already attached; named as requested or `disk<N>`; placed at
/// `/dev/<name>`; booted in the requested order, else after every disk that
/// has a boot order.
pub fn plan_disk_attachment(
    existing: &[VmDisk],
    object: u128,
    logical_name: Option<String>,
    boot_order: Option<i32>,
) -> (r: Result<DiskPlacement, Error>)
    requires
        boot_order is None ==> max_boot_order(existing@) != Some(i32::MAX),
    ensures
        object_attached(existing@, object) ==> (r matches Err(e) && crate::errors::is_conflict(
            e,
            "Storage object "@ + uuid_text(object) + " is already attached to this VM"@,
        )),
        !object_attached(existing@, object) ==> (r matches Ok(p) && {
            &&& match logical_name {
                Some(n) => p.logical_name@ == n@,
                None => exists|i: nat|
                    p.logical_name@ == crate::devices::indexed_name("disk"@, i) && crate::devices::is_least_free(
                        "disk"@,
                        crate::devices::disk_names(existing@),
                        i,
                    ),
            }
            &&& p.device_path@ == "/dev/"@ + p.logical_name@
            &&& p.boot_order == match boot_order {
                Some(b) => b,
                None => match max_boot_order(existing@) {
                    Some(m) => (m + 1) as i32,
                    None => 0,
                },
            }
        }),
{
    for i in 0..existing.len()
        invariant
            forall|j: int| 0 <= j < i ==> existing@[j].storage_object_id != Some(object),
    {
        if existing[i].storage_object_id == Some(object) {
            let mut m = owned("Storage object ");
            let id = uuid_string(object);
            push_str(&mut m, id.as_str());
            push_str(&mut m, " is already attached to this VM");
            assert(existing@[i as int].storage_object_id == Some(object));
            return Err(Error::Conflict(m));
        }
    }
    let name = match logical_name {
        Some(n) => n,
        None => crate::devices::next_disk_id(existing),
    };
    let mut device_path = owned("/dev/");
    push_str(&mut device_path, name.as_str());
    let order = match boot_order {
        Some(b) => b,
        None => {
            let mut most: Option<i32> = None;
            for i in 0..existing.len()
                invariant
                    most == max_boot_order(existing@.take(i as int)),
            {
                assert(existing@.take(i + 1).drop_last() =~= existing@.take(i as int));
                match existing[i].boot_order {
                    Some(b) => {
                        most = match most {
                            None => Some(b),
                            Some(m) => Some(if b > m { b } else { m }),
                        };
                    },
                    None => {},
                }
            }
            assert(existing@.take(existing@.len() as int) =~= existing@);
            match most {
                Some(m) => m + 1,
                None => 0,
            }
        },
    };
    Ok(DiskPlacement { logical_name: name, device_path, boot_order: order })
}

/// Why a disk on a local pool cannot be attached, if it cannot: the VM
/// needs a host, and that host the pool.
pub open spec fn local_attach_refusal(
    pool_type: crate::model::StoragePoolType,
    host: Option<u128>,
    pool_id: u128,
    host_has_pool: bool,
) -> Option<Seq<char>> {
    if pool_type is Local {
        match host {
            None => Some("Cannot attach a local disk to a VM with no assigned host"@),
            Some(h) => if host_has_pool {
                None
            } else {
                Some("VM's host "@ + uuid_text(h) + " is not attached to local storage pool "@ + uuid_text(pool_id))
            },
        }
    } else {
        None
    }
}

/// Checks that a disk's pool is reachable from the VM's host.
pub fn check_local_attachment(
    pool_type: crate::model::StoragePoolType,
    host: Option<u128>,
    pool_id: u128,
    host_has_pool: bool,
) -> (r: Result<(), Error>)
    ensures
        answers(local_attach_refusal(pool_type, host, pool_id, host_has_pool), r),
{
    match pool_type {
        crate::model::StoragePoolType::Local => match host {
            None => Err(unprocessable("Cannot attach a local disk to a VM with no assigned host")),
            Some(h) => if host_has_pool {
                Ok(())
            } else {
                let mut m = owned("VM's host ");
                let a = uuid_string(h);
                push_str(&mut m, a.as_str());
                push_str(&mut m, " is not attached to local storage pool ");
                let b = uuid_string(pool_id);
                push_str(&mut m, b.as_str());
                Err(Error::UnprocessableEntity(m))
            },
        },
        _ => Ok(()),
    }
}

/// The device id of a new NIC: the requested one, or `net<N>` when none was
/// requested; refused when a NIC of the VM already uses it.
pub fn plan_nic_device_id(existing: &[NetworkInterface], requested: String) -> (r: Result<String, Error>)
    ensures
        ({
            let id = if requested@.len() == 0 {
                None
            } else {
                Some(requested@)
            };
            match r {
                Ok(d) => (match id {
                    Some(x) => d@ == x,
                    None => exists|i: nat|
                        d@ == crate::devices::indexed_name("net"@, i) && crate::devices::is_least_free(
                            "net"@,
                            crate::devices::nic_names(existing@),
                            i,
                        ),
                }) && !crate::devices::nic_names(existing@).contains(d@),
                Err(e) => id is Some && crate::devices::nic_names(existing@).contains(requested@)
                    && crate::errors::is_conflict(
                    e,
                    "NIC device ID '"@ + requested@ + "' is already in use on this VM"@,
                ),
            }
        }),
{
    let ghost wanted = requested@;
    let id = if requested.unicode_len() == 0 {
        crate::devices::next_net_id(existing)
    } else {
        requested
    };
    for i in 0..existing.len()
        invariant
            forall|j: int| 0 <= j < i ==> existing@[j].device_id@ != id@,
            wanted == requested@,
            wanted.len() != 0 ==> id@ == wanted,
            wanted.len() == 0 ==> exists|k: nat|
                id@ == crate::devices::indexed_name("net"@, k) && crate::devices::is_least_free(
                    "net"@,
                    crate::devices::nic_names(existing@),
                    k,
                ),
    {
        if crate::text::str_eq(existing[i].device_id.as_str(), id.as_str()) {
            assert(crate::devices::nic_names(existing@)[i as int] == id@);
            assert(crate::devices::nic_names(existing@).contains(id@));
            proof {
                if wanted.len() == 0 {
                    let k = choose|k: nat|
                        id@ == crate::devices::indexed_name("net"@, k) && crate::devices::is_least_free(
                            "net"@,
                            crate::devices::nic_names(existing@),
                            k,
                        );
                    assert(false);
                }
            }
            let mut m = owned("NIC device ID '");
            push_str(&mut m, id.as_str());
            push_str(&mut m, "' is already in use on this VM");
            assert(m@ =~= "NIC device ID '"@ + wanted + "' is already in use on this VM"@);
            return Err(Error::Conflict(m));
        }
    }
    assert(!crate::devices::nic_names(existing@).contains(id@)) by {
        if crate::devices::nic_names(existing@).contains(id@) {
            let j = choose|j: int| 0 <= j < existing@.len() && crate::devices::nic_names(existing@)[j] == id@;
            assert(existing@[j].device_id@ == id@);
        }
    }
    Ok(id)
}

// ---------------------------------------------------------------------------
// Snapshots
// ---------------------------------------------------------------------------

/// Where a snapshot is written: `file://<directory>`.
pub fn snapshot_url(dir_path: &str) -> (r: String)
    ensures
        r@ == "file://"@ + dir_path@,
{
    let mut u = owned("file://");
    push_str(&mut u, dir_path);
    u
}

/// How a snapshot ends: the status recorded for it, and what the caller is
/// answered. A snapshot taken while the VM could not be resumed is kept,
/// but the caller is told of the failure.
pub fn snapshot_outcome(snapshot_ok: bool, resumed: bool) -> (r: (crate::model::SnapshotStatus, Result<(), Error>))
    ensures
        snapshot_ok ==> r.0 is Ready,
        !snapshot_ok ==> r.0 is Failed,
        r.1 is Ok <==> snapshot_ok && resumed,
        r.1 matches Err(e) ==> e is InternalServerError,
{
    if snapshot_ok {
        if resumed {
            (crate::model::SnapshotStatus::Ready, Ok(()))
        } else {
            (crate::model::SnapshotStatus::Ready, Err(Error::InternalServerError))
        }
    } else {
        (crate::model::SnapshotStatus::Failed, Err(Error::InternalServerError))
    }
}

/// The pool a snapshot goes to when none is named: that of the first disk
/// whose object and pool could be read and whose pool is not OverlayBD.
/// `disk_pools` holds, per disk in order, that pool when it could be read.
pub open spec fn first_snapshot_pool(disk_pools: Seq<Option<StoragePool>>) -> Option<u128>
    decreases disk_pools.len(),
{
    if disk_pools.len() == 0 {
        None
    } else {
        match disk_pools[0] {
            Some(p) => if p.pool_type is OverlayBd {
                first_snapshot_pool(disk_pools.drop_first())
            } else {
                Some(p.id)
            },
            None => first_snapshot_pool(disk_pools.drop_first()),
        }
    }
}

pub fn preferred_snapshot_pool(requested: Option<u128>, disk_pools: &[Option<StoragePool>]) -> (r: Option<u128>)
    ensures
        r == match requested {
            Some(p) => Some(p),
            None => first_snapshot_pool(disk_pools@),
        },
{
    if requested.is_some() {
        return requested;
    }
    let mut i: usize = 0;
    assert(disk_pools@.skip(0) =~= disk_pools@);
    while i < disk_pools.len()
        invariant
            i <= disk_pools.len(),
            requested is None,
            first_snapshot_pool(disk_pools@) == first_snapshot_pool(disk_pools@.skip(i as int)),
        decreases disk_pools.len() - i,
    {
        assert(disk_pools@.skip(i as int)[0] == disk_pools@[i as int]);
        assert(disk_pools@.skip(i as int).drop_first() =~= disk_pools@.skip(i + 1));
        match &disk_pools[i] {
            Some(p) => match p.pool_type {
                crate::model::StoragePoolType::OverlayBd => {},
                _ => {
                    return Some(p.id);
                },
            },
            None => {},
        }
        i = i + 1;
    }
    assert(disk_pools@.skip(i as int).len() == 0);
    None
}

} // verus!
