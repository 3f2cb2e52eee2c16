//! Resolving a VM creation request against the instance type and VM
//! template it names: a value given in the request wins, then the
//! instance type's, then the template's.
use vstd::prelude::*;

use crate::devices::VhostMode;
use crate::errors::{is_unprocessable, unprocessable, Error};
use crate::model::{BootMode, Hypervisor, InterfaceType};

verus! {

// ---------------------------------------------------------------------------
// JSON values
// ---------------------------------------------------------------------------

/// What the logic reads of a JSON value: null, an object (its entries, keys
/// distinct, each value kept as JSON text), or another value (as JSON text).
#[derive(Debug)]
pub enum JsonValue {
    Null,
    Object(Vec<(String, String)>),
    Other(String),
}

/// Whether `entries` has key `k`.
pub open spec fn has_entry(entries: Seq<(String, String)>, k: Seq<char>) -> bool {
    exists|i: int| 0 <= i < entries.len() && (#[trigger] entries[i]).0@ == k
}

/// The entries of `a` whose key `b` does not have, in order.
pub open spec fn entries_not_in(a: Seq<(String, String)>, b: Seq<(String, String)>) -> Seq<(String, String)>
    decreases a.len(),
{
    if a.len() == 0 {
        seq![]
    } else {
        entries_not_in(a.drop_last(), b) + if has_entry(b, a.last().0@) {
            Seq::<(String, String)>::empty()
        } else {
            seq![a.last()]
        }
    }
}

/// `r` is the VM configuration from a template's and a request's: two
/// objects are merged, the request's entries winning; a null request gives
/// `{}`; any other request is taken as it is.
pub open spec fn is_merged_config(r: JsonValue, template: JsonValue, request: JsonValue) -> bool {
    match (template, request) {
        (JsonValue::Object(t), JsonValue::Object(q)) => r matches JsonValue::Object(m) && m@ == entries_not_in(t@, q@)
            + q@,
        (_, JsonValue::Null) => r matches JsonValue::Object(m) && m@.len() == 0,
        (_, q) => r == q,
    }
}

fn has_key(entries: &Vec<(String, String)>, k: &str) -> (r: bool)
    ensures
        r == has_entry(entries@, k@),
{
    for i in 0..entries.len()
        invariant
            forall|j: int| 0 <= j < i ==> (#[trigger] entries@[j]).0@ != k@,
    {
        if crate::text::str_eq(entries[i].0.as_str(), k) {
            return true;
        }
    }
    false
}

/// Merges a template's configuration with a request's.
pub fn merge_config(template: JsonValue, request: JsonValue) -> (r: JsonValue)
    ensures
        is_merged_config(r, template, request),
{
    match (template, request) {
        (JsonValue::Object(t), JsonValue::Object(q)) => {
            let mut out: Vec<(String, String)> = Vec::new();
            let mut rest = t;
            let ghost all = rest@;
            let n = rest.len();
            let mut i: usize = 0;
            while i < n
                invariant
                    n == all.len(),
                    i <= n,
                    rest@ == all.skip(i as int),
                    out@ == entries_not_in(all.take(i as int), q@),
                decreases n - i,
            {
                let e = rest.remove(0);
                assert(e == all[i as int]);
                assert(rest@ =~= all.skip(i + 1));
                assert(all.take(i + 1).drop_last() =~= all.take(i as int));
                if !has_key(&q, e.0.as_str()) {
                    out.push(e);
                }
                assert(out@ =~= entries_not_in(all.take(i + 1), q@));
                i = i + 1;
            }
            assert(all.take(n as int) =~= all);
            let mut q = q;
            let ghost qv = q@;
            out.append(&mut q);
            assert(out@ =~= entries_not_in(all, qv) + qv);
            JsonValue::Object(out)
        },
        (_, JsonValue::Null) => JsonValue::Object(Vec::new()),
        (_, q) => q,
    }
}

/// A JSON value that is an object with at least one entry.
pub open spec fn is_nonempty_object(v: JsonValue) -> bool {
    v matches JsonValue::Object(e) && e.len() > 0
}

// ---------------------------------------------------------------------------
// Requests, instance types, templates
// ---------------------------------------------------------------------------

/// A token bucket of a rate limiter.
#[derive(Debug)]
pub struct TokenBucket {
    pub size: i64,
    pub refill_time: i64,
    pub one_time_burst: Option<i64>,
}

/// Bandwidth and operation limits of a device.
#[derive(Debug)]
pub struct RateLimiterConfig {
    pub bandwidth: Option<TokenBucket>,
    pub ops: Option<TokenBucket>,
}

/// A NIC requested for a new VM.
#[derive(Debug)]
pub struct NewVmNetwork {
    pub id: String,
    pub network_id: Option<u128>,
    pub mac: Option<String>,
    pub tap: Option<String>,
    pub ip: Option<String>,
    pub mask: Option<String>,
    pub mtu: Option<i32>,
    pub host_mac: Option<String>,
    pub interface_type: Option<InterfaceType>,
    pub vhost_user: Option<bool>,
    pub vhost_socket: Option<String>,
    pub vhost_mode: Option<VhostMode>,
    pub num_queues: Option<i32>,
    pub queue_size: Option<i32>,
    pub rate_limiter: Option<RateLimiterConfig>,
    pub offload_tso: Option<bool>,
    pub offload_ufo: Option<bool>,
    pub offload_csum: Option<bool>,
    pub pci_segment: Option<i32>,
    pub iommu: Option<bool>,
}

/// A VM creation request.
#[derive(Debug)]
pub struct NewVm {
    pub name: String,
    pub tags: Option<Vec<String>>,
    pub vm_template_id: Option<u128>,
    pub instance_type_id: Option<u128>,
    pub hypervisor: Option<Hypervisor>,
    pub architecture: Option<String>,
    pub boot_vcpus: Option<i32>,
    pub max_vcpus: Option<i32>,
    pub cpu_topology: Option<JsonValue>,
    pub kvm_hyperv: Option<bool>,
    pub memory_size: Option<i64>,
    pub memory_hotplug_size: Option<i64>,
    pub memory_mergeable: Option<bool>,
    pub memory_shared: Option<bool>,
    pub memory_hugepages: Option<bool>,
    pub memory_hugepage_size: Option<i64>,
    pub memory_prefault: Option<bool>,
    pub memory_thp: Option<bool>,
    pub boot_source_id: Option<u128>,
    pub root_disk_object_id: Option<u128>,
    pub boot_mode: Option<BootMode>,
    pub description: Option<String>,
    pub image_ref: Option<String>,
    pub cloud_init_user_data: Option<String>,
    pub cloud_init_meta_data: Option<String>,
    pub cloud_init_network_config: Option<String>,
    pub network_id: Option<u128>,
    pub networks: Option<Vec<NewVmNetwork>>,
    pub security_group_ids: Option<Vec<u128>>,
    pub accelerator_config: Option<JsonValue>,
    pub numa_config: Option<JsonValue>,
    pub persistent_upper_pool_id: Option<u128>,
    pub config: JsonValue,
}

/// A named size and shape for VMs.
#[derive(Debug)]
pub struct InstanceType {
    pub id: u128,
    pub name: String,
    pub description: Option<String>,
    pub architecture: Option<String>,
    pub boot_vcpus: i32,
    pub max_vcpus: i32,
    pub cpu_topology: Option<JsonValue>,
    pub kvm_hyperv: Option<bool>,
    pub memory_size: i64,
    pub memory_hotplug_size: Option<i64>,
    pub memory_mergeable: Option<bool>,
    pub memory_shared: Option<bool>,
    pub memory_hugepages: Option<bool>,
    pub memory_hugepage_size: Option<i64>,
    pub memory_prefault: Option<bool>,
    pub memory_thp: Option<bool>,
    pub accelerator_config: JsonValue,
    pub numa_config: Option<JsonValue>,
}

/// Stored defaults for new VMs.
#[derive(Debug)]
pub struct VmTemplate {
    pub id: u128,
    pub name: String,
    pub description: Option<String>,
    pub hypervisor: Option<Hypervisor>,
    pub boot_vcpus: Option<i32>,
    pub max_vcpus: Option<i32>,
    pub cpu_topology: Option<JsonValue>,
    pub kvm_hyperv: Option<bool>,
    pub memory_size: Option<i64>,
    pub memory_hotplug_size: Option<i64>,
    pub memory_mergeable: Option<bool>,
    pub memory_shared: Option<bool>,
    pub memory_hugepages: Option<bool>,
    pub memory_hugepage_size: Option<i64>,
    pub memory_prefault: Option<bool>,
    pub memory_thp: Option<bool>,
    pub boot_source_id: Option<u128>,
    pub root_disk_object_id: Option<u128>,
    pub boot_mode: Option<BootMode>,
    pub image_ref: Option<String>,
    pub cloud_init_user_data: Option<String>,
    pub cloud_init_meta_data: Option<String>,
    pub cloud_init_network_config: Option<String>,
    pub network_id: Option<u128>,
    pub networks: Option<Vec<NewVmNetwork>>,
    pub config: JsonValue,
}

/// A creation request with every default filled in.
#[derive(Debug)]
pub struct ResolvedNewVm {
    pub name: String,
    pub tags: Vec<String>,
    pub hypervisor: Hypervisor,
    pub architecture: Option<String>,
    pub boot_vcpus: i32,
    pub max_vcpus: i32,
    pub cpu_topology: Option<JsonValue>,
    pub kvm_hyperv: Option<bool>,
    pub memory_size: i64,
    pub memory_hotplug_size: Option<i64>,
    pub memory_mergeable: Option<bool>,
    pub memory_shared: Option<bool>,
    pub memory_hugepages: Option<bool>,
    pub memory_hugepage_size: Option<i64>,
    pub memory_prefault: Option<bool>,
    pub memory_thp: Option<bool>,
    pub boot_source_id: Option<u128>,
    pub root_disk_object_id: Option<u128>,
    pub boot_mode: Option<BootMode>,
    pub description: Option<String>,
    pub image_ref: Option<String>,
    pub cloud_init_user_data: Option<String>,
    pub cloud_init_meta_data: Option<String>,
    pub cloud_init_network_config: Option<String>,
    pub network_id: Option<u128>,
    pub networks: Option<Vec<NewVmNetwork>>,
    pub security_group_ids: Option<Vec<u128>>,
    pub accelerator_config: Option<JsonValue>,
    pub numa_config: Option<JsonValue>,
    pub persistent_upper_pool_id: Option<u128>,
    pub config: JsonValue,
}

/// The first value given.
pub open spec fn first<T>(a: Option<T>, b: Option<T>) -> Option<T> {
    match a {
        Some(x) => Some(x),
        None => b,
    }
}

fn or<T>(a: Option<T>, b: Option<T>) -> (r: Option<T>)
    ensures
        r == first(a, b),
{
    match a {
        Some(x) => Some(x),
        None => b,
    }
}

/// A field of the instance type, if there is one.
pub open spec fn it_field<T>(it: Option<InstanceType>, f: spec_fn(InstanceType) -> Option<T>) -> Option<T> {
    match it {
        Some(i) => f(i),
        None => None,
    }
}

/// A field of the template, if there is one.
pub open spec fn tp_field<T>(tp: Option<VmTemplate>, f: spec_fn(VmTemplate) -> Option<T>) -> Option<T> {
    match tp {
        Some(t) => f(t),
        None => None,
    }
}

/// Why a request cannot be resolved, if it cannot: no vCPU count, a max
/// below the boot count given in the request, no hypervisor, or no memory
/// size, in that order.
pub open spec fn resolve_refusal(req: NewVm, it: Option<InstanceType>, tp: Option<VmTemplate>) -> Option<Seq<char>> {
    let boot = first(first(req.boot_vcpus, it_field(it, |i: InstanceType| Some(i.boot_vcpus))), tp_field(tp, |t: VmTemplate| t.boot_vcpus));
    if boot is None {
        Some("boot_vcpus is required unless provided by the selected instance type or VM template"@)
    } else if req.max_vcpus matches Some(m) && m < boot->0 {
        Some("max_vcpus must be greater than or equal to boot_vcpus"@)
    } else if first(req.hypervisor, tp_field(tp, |t: VmTemplate| t.hypervisor)) is None {
        Some("hypervisor is required unless provided by the selected VM template"@)
    } else if first(first(req.memory_size, it_field(it, |i: InstanceType| Some(i.memory_size))), tp_field(tp, |t: VmTemplate| t.memory_size)) is None {
        Some("memory_size is required unless provided by the selected instance type or VM template"@)
    } else {
        None
    }
}

/// The number of vCPUs a VM may grow to: the first given, at least the boot
/// count unless the request itself gave it.
pub open spec fn resolved_max_vcpus(req: NewVm, it: Option<InstanceType>, tp: Option<VmTemplate>, boot: i32) -> i32 {
    let m = match first(first(req.max_vcpus, it_field(it, |i: InstanceType| Some(i.max_vcpus))), tp_field(tp, |t: VmTemplate| t.max_vcpus)) {
        Some(m) => m,
        None => boot,
    };
    if req.max_vcpus is None && m < boot {
        boot
    } else {
        m
    }
}

/// The instance type's accelerator configuration when it is a non-empty object.
pub open spec fn it_accelerator(it: Option<InstanceType>) -> Option<JsonValue> {
    match it {
        Some(i) => if is_nonempty_object(i.accelerator_config) {
            Some(i.accelerator_config)
        } else {
            None
        },
        None => None,
    }
}

/// The instance type's NUMA configuration when it is not null.
pub open spec fn it_numa(it: Option<InstanceType>) -> Option<JsonValue> {
    match it {
        Some(i) => match i.numa_config {
            Some(v) => if v is Null {
                None
            } else {
                Some(v)
            },
            None => None,
        },
        None => None,
    }
}

/// The resolved request, every field taken from the request, else the
/// instance type, else the template, as the respective source offers it.
pub open spec fn resolved_from(r: ResolvedNewVm, req: NewVm, it: Option<InstanceType>, tp: Option<VmTemplate>) -> bool {
    let boot = first(first(req.boot_vcpus, it_field(it, |i: InstanceType| Some(i.boot_vcpus))), tp_field(tp, |t: VmTemplate| t.boot_vcpus))->0;
    &&& r.name == req.name
    &&& r.tags@ == match req.tags {
        Some(t) => t@,
        None => Seq::<String>::empty(),
    }
    &&& r.hypervisor == first(req.hypervisor, tp_field(tp, |t: VmTemplate| t.hypervisor))->0
    &&& r.boot_vcpus == boot
    &&& r.max_vcpus == resolved_max_vcpus(req, it, tp, boot)
    &&& r.cpu_topology == first(first(req.cpu_topology, it_field(it, |i: InstanceType| i.cpu_topology)), tp_field(tp, |t: VmTemplate| t.cpu_topology))
    &&& r.kvm_hyperv == first(first(req.kvm_hyperv, it_field(it, |i: InstanceType| i.kvm_hyperv)), tp_field(tp, |t: VmTemplate| t.kvm_hyperv))
    &&& r.memory_size == first(first(req.memory_size, it_field(it, |i: InstanceType| Some(i.memory_size))), tp_field(tp, |t: VmTemplate| t.memory_size))->0
    &&& r.memory_hotplug_size == first(first(req.memory_hotplug_size, it_field(it, |i: InstanceType| i.memory_hotplug_size)), tp_field(tp, |t: VmTemplate| t.memory_hotplug_size))
    &&& r.memory_mergeable == first(first(req.memory_mergeable, it_field(it, |i: InstanceType| i.memory_mergeable)), tp_field(tp, |t: VmTemplate| t.memory_mergeable))
    &&& r.memory_shared == first(first(req.memory_shared, it_field(it, |i: InstanceType| i.memory_shared)), tp_field(tp, |t: VmTemplate| t.memory_shared))
    &&& r.memory_hugepages == first(first(req.memory_hugepages, it_field(it, |i: InstanceType| i.memory_hugepages)), tp_field(tp, |t: VmTemplate| t.memory_hugepages))
    &&& r.memory_hugepage_size == first(first(req.memory_hugepage_size, it_field(it, |i: InstanceType| i.memory_hugepage_size)), tp_field(tp, |t: VmTemplate| t.memory_hugepage_size))
    &&& r.memory_prefault == first(first(req.memory_prefault, it_field(it, |i: InstanceType| i.memory_prefault)), tp_field(tp, |t: VmTemplate| t.memory_prefault))
    &&& r.memory_thp == first(first(req.memory_thp, it_field(it, |i: InstanceType| i.memory_thp)), tp_field(tp, |t: VmTemplate| t.memory_thp))
    &&& r.boot_source_id == first(req.boot_source_id, tp_field(tp, |t: VmTemplate| t.boot_source_id))
    &&& r.root_disk_object_id == first(req.root_disk_object_id, tp_field(tp, |t: VmTemplate| t.root_disk_object_id))
    &&& r.boot_mode == first(req.boot_mode, tp_field(tp, |t: VmTemplate| t.boot_mode))
    &&& r.description == first(req.description, tp_field(tp, |t: VmTemplate| t.description))
    &&& r.image_ref == first(req.image_ref, tp_field(tp, |t: VmTemplate| t.image_ref))
    &&& r.cloud_init_user_data == first(req.cloud_init_user_data, tp_field(tp, |t: VmTemplate| t.cloud_init_user_data))
    &&& r.cloud_init_meta_data == first(req.cloud_init_meta_data, tp_field(tp, |t: VmTemplate| t.cloud_init_meta_data))
    &&& r.cloud_init_network_config == first(req.cloud_init_network_config, tp_field(tp, |t: VmTemplate| t.cloud_init_network_config))
    &&& r.network_id == first(req.network_id, tp_field(tp, |t: VmTemplate| t.network_id))
    &&& r.networks == first(req.networks, tp_field(tp, |t: VmTemplate| t.networks))
    &&& r.security_group_ids == req.security_group_ids
    &&& r.accelerator_config == first(req.accelerator_config, it_accelerator(it))
    &&& r.numa_config == first(req.numa_config, it_numa(it))
    &&& r.persistent_upper_pool_id == req.persistent_upper_pool_id
    &&& match tp {
        Some(t) => is_merged_config(r.config, t.config, req.config),
        None => match req.config {
            JsonValue::Object(q) => r.config matches JsonValue::Object(m) && m@ == q@,
            JsonValue::Null => r.config matches JsonValue::Object(m) && m@.len() == 0,
            _ => r.config == req.config,
        },
    }
}

/// The architecture name a request chooses: its own, else its instance
/// type's.
pub open spec fn chosen_architecture(req: NewVm, it: Option<InstanceType>) -> Option<String> {
    first(req.architecture, it_field(it, |i: InstanceType| i.architecture))
}

/// Fills in a creation request from its instance type and template (those
/// it names, as read from the database). The chosen architecture name is
/// passed through `normalize_architecture`, which gives the canonical name of
/// a known architecture and none for an unknown one.
pub fn resolve_create_request<F: Fn(String) -> Option<String>>(
    req: NewVm,
    it: Option<InstanceType>,
    tp: Option<VmTemplate>,
    normalize_architecture: F,
) -> (r: Result<ResolvedNewVm, Error>)
    requires
        forall|a: String| normalize_architecture.requires((a,)),
    ensures
        match resolve_refusal(req, it, tp) {
            Some(m) => r matches Err(e) && is_unprocessable(e, m),
            None => r matches Ok(v) && resolved_from(v, req, it, tp) && match chosen_architecture(req, it) {
                None => v.architecture is None,
                Some(a) => normalize_architecture.ensures((a,), v.architecture),
            },
        },
{
    let NewVm {
        name,
        tags,
        vm_template_id: _,
        instance_type_id: _,
        hypervisor,
        architecture,
        boot_vcpus,
        max_vcpus,
        cpu_topology,
        kvm_hyperv,
        memory_size,
        memory_hotplug_size,
        memory_mergeable,
        memory_shared,
        memory_hugepages,
        memory_hugepage_size,
        memory_prefault,
        memory_thp,
        boot_source_id,
        root_disk_object_id,
        boot_mode,
        description,
        image_ref,
        cloud_init_user_data,
        cloud_init_meta_data,
        cloud_init_network_config,
        network_id,
        networks,
        security_group_ids,
        accelerator_config,
        numa_config,
        persistent_upper_pool_id,
        config,
    } = req;
    // What the instance type offers.
    let (
        it_arch,
        it_boot,
        it_max,
        it_topology,
        it_hyperv,
        it_memory,
        it_hotplug,
        it_mergeable,
        it_shared,
        it_hugepages,
        it_hugepage_size,
        it_prefault,
        it_thp,
        it_accel,
        it_numa_cfg,
    ) = match it {
        Some(i) => {
            let accel = match i.accelerator_config {
                JsonValue::Object(e) => if e.len() > 0 {
                    Some(JsonValue::Object(e))
                } else {
                    None
                },
                _ => None,
            };
            let numa = match i.numa_config {
                Some(JsonValue::Null) => None,
                other => other,
            };
            (
                i.architecture,
                Some(i.boot_vcpus),
                Some(i.max_vcpus),
                i.cpu_topology,
                i.kvm_hyperv,
                Some(i.memory_size),
                i.memory_hotplug_size,
                i.memory_mergeable,
                i.memory_shared,
                i.memory_hugepages,
                i.memory_hugepage_size,
                i.memory_prefault,
                i.memory_thp,
                accel,
                numa,
            )
        },
        None => (None, None, None, None, None, None, None, None, None, None, None, None, None, None, None),
    };
    // What the template offers.
    let (
        t_hypervisor,
        t_boot,
        t_max,
        t_topology,
        t_hyperv,
        t_memory,
        t_hotplug,
        t_mergeable,
        t_shared,
        t_hugepages,
        t_hugepage_size,
        t_prefault,
        t_thp,
        t_boot_source,
        t_root_disk,
        t_boot_mode,
        t_description,
        t_image,
        t_user_data,
        t_meta_data,
        t_network_config,
        t_network_id,
        t_networks,
        t_config,
    ) = match tp {
        Some(t) => (
            t.hypervisor,
            t.boot_vcpus,
            t.max_vcpus,
            t.cpu_topology,
            t.kvm_hyperv,
            t.memory_size,
            t.memory_hotplug_size,
            t.memory_mergeable,
            t.memory_shared,
            t.memory_hugepages,
            t.memory_hugepage_size,
            t.memory_prefault,
            t.memory_thp,
            t.boot_source_id,
            t.root_disk_object_id,
            t.boot_mode,
            t.description,
            t.image_ref,
            t.cloud_init_user_data,
            t.cloud_init_meta_data,
            t.cloud_init_network_config,
            t.network_id,
            t.networks,
            t.config,
        ),
        None => (
            None,
            None,
            None,
            None,
            None,
            None,
            None,
            None,
            None,
            None,
            None,
            None,
            None,
            None,
            None,
            None,
            None,
            None,
            None,
            None,
            None,
            None,
            None,
            JsonValue::Object(Vec::new()),
        ),
    };
    let boot = match or(or(boot_vcpus, it_boot), t_boot) {
        Some(b) => b,
        None => {
            return Err(
                unprocessable("boot_vcpus is required unless provided by the selected instance type or VM template"),
            );
        },
    };
    let mut max = match or(or(max_vcpus, it_max), t_max) {
        Some(m) => m,
        None => boot,
    };
    match max_vcpus {
        Some(m) => {
            if m < boot {
                return Err(unprocessable("max_vcpus must be greater than or equal to boot_vcpus"));
            }
        },
        None => {
            if max < boot {
                max = boot;
            }
        },
    }
    let hyp = match or(hypervisor, t_hypervisor) {
        Some(h) => h,
        None => {
            return Err(unprocessable("hypervisor is required unless provided by the selected VM template"));
        },
    };
    let memory = match or(or(memory_size, it_memory), t_memory) {
        Some(m) => m,
        None => {
            return Err(
                unprocessable("memory_size is required unless provided by the selected instance type or VM template"),
            );
        },
    };
    let tags = match tags {
        Some(t) => t,
        None => Vec::new(),
    };
    let config = merge_config(t_config, config);
    let architecture = match or(architecture, it_arch) {
        Some(a) => normalize_architecture(a),
        None => None,
    };
    Ok(
        ResolvedNewVm {
            name,
            tags,
            hypervisor: hyp,
            architecture,
            boot_vcpus: boot,
            max_vcpus: max,
            cpu_topology: or(or(cpu_topology, it_topology), t_topology),
            kvm_hyperv: or(or(kvm_hyperv, it_hyperv), t_hyperv),
            memory_size: memory,
            memory_hotplug_size: or(or(memory_hotplug_size, it_hotplug), t_hotplug),
            memory_mergeable: or(or(memory_mergeable, it_mergeable), t_mergeable),
            memory_shared: or(or(memory_shared, it_shared), t_shared),
            memory_hugepages: or(or(memory_hugepages, it_hugepages), t_hugepages),
            memory_hugepage_size: or(or(memory_hugepage_size, it_hugepage_size), t_hugepage_size),
            memory_prefault: or(or(memory_prefault, it_prefault), t_prefault),
            memory_thp: or(or(memory_thp, it_thp), t_thp),
            boot_source_id: or(boot_source_id, t_boot_source),
            root_disk_object_id: or(root_disk_object_id, t_root_disk),
            boot_mode: or(boot_mode, t_boot_mode),
            description: or(description, t_description),
            image_ref: or(image_ref, t_image),
            cloud_init_user_data: or(cloud_init_user_data, t_user_data),
            cloud_init_meta_data: or(cloud_init_meta_data, t_meta_data),
            cloud_init_network_config: or(cloud_init_network_config, t_network_config),
            network_id: or(network_id, t_network_id),
            networks: or(networks, t_networks),
            security_group_ids,
            accelerator_config: or(accelerator_config, it_accel),
            numa_config: or(numa_config, it_numa_cfg),
            persistent_upper_pool_id,
            config,
        },
    )
}

// ---------------------------------------------------------------------------
// Checks made before a VM is created from an image
// ---------------------------------------------------------------------------

/// Why a VM to be created from an image cannot boot, if it cannot: firmware
/// boot needs a configured firmware; kernel boot from a boot source needs
/// that source to resolve (`boot_source`: its id, and whether it resolved).
pub open spec fn image_boot_refusal(
    mode: BootMode,
    defaults: crate::config::VmDefaultsSettings,
    boot_source: Option<(u128, bool)>,
) -> Option<Seq<char>> {
    match mode {
        BootMode::Firmware => if crate::vm_request::non_empty(defaults.firmware) is None {
            Some("firmware boot mode requires a firmware path (set vm_defaults.firmware or VM_FIRMWARE env var)"@)
        } else {
            None
        },
        BootMode::Kernel => match boot_source {
            Some((id, false)) => Some("Invalid boot_source_id: "@ + crate::ids::uuid_text(id)),
            _ => None,
        },
    }
}

/// Checks that a VM to be created from an image can boot.
pub fn check_image_boot(
    mode: BootMode,
    defaults: &crate::config::VmDefaultsSettings,
    boot_source: Option<(u128, bool)>,
) -> (r: Result<(), Error>)
    ensures
        crate::vm_ops::answers(image_boot_refusal(mode, *defaults, boot_source), r),
{
    match mode {
        BootMode::Firmware => {
            let has_firmware = match &defaults.firmware {
                Some(f) => f.unicode_len() > 0,
                None => false,
            };
            if has_firmware {
                Ok(())
            } else {
                Err(
                    unprocessable(
                        "firmware boot mode requires a firmware path (set vm_defaults.firmware or VM_FIRMWARE env var)",
                    ),
                )
            }
        },
        BootMode::Kernel => match boot_source {
            Some((id, false)) => {
                let mut m = crate::text::owned("Invalid boot_source_id: ");
                let t = crate::ids::uuid_string(id);
                crate::text::push_str(&mut m, t.as_str());
                Err(Error::UnprocessableEntity(m))
            },
            _ => Ok(()),
        },
    }
}

/// The outcome of reading a storage pool by id.
#[derive(Debug)]
pub enum PoolLookup {
    Found(crate::storage::StoragePool),
    NotFound,
    /// The read failed for another reason.
    Failed,
}

/// What validating a persistent upper-layer pool answers: the pool must
/// exist, be active, be a Local or NFS pool and be attached to the chosen
/// host (`host_has_pool`, none when that could not be read). A failed read
/// is an internal error.
pub open spec fn upper_pool_verdict(
    upper_pool_id: u128,
    lookup: PoolLookup,
    host_has_pool: Option<bool>,
    r: Result<(), Error>,
) -> bool {
    let id = crate::ids::uuid_text(upper_pool_id);
    match lookup {
        PoolLookup::NotFound => r matches Err(e) && is_unprocessable(
            e,
            "persistent_upper_pool_id "@ + id + " not found"@,
        ),
        PoolLookup::Failed => r matches Err(e) && e is InternalServerError,
        PoolLookup::Found(p) => if !(p.status is Active) {
            r matches Err(e) && is_unprocessable(e, "persistent_upper_pool_id "@ + id + " is not active"@)
        } else if !(p.pool_type is Local || p.pool_type is Nfs) {
            r matches Err(e) && is_unprocessable(e, "persistent_upper_pool_id must be a Local or NFS pool"@)
        } else {
            match host_has_pool {
                None => r matches Err(e) && e is InternalServerError,
                Some(false) => r matches Err(e) && is_unprocessable(
                    e,
                    "persistent_upper_pool_id "@ + id + " is not attached to the selected host"@,
                ),
                Some(true) => r is Ok,
            }
        },
    }
}

/// Checks the pool named to keep a VM's persistent upper layer.
pub fn check_persistent_upper_pool(upper_pool_id: u128, lookup: &PoolLookup, host_has_pool: Option<bool>) -> (r:
    Result<(), Error>)
    ensures
        upper_pool_verdict(upper_pool_id, *lookup, host_has_pool, r),
{
    match lookup {
        PoolLookup::NotFound => {
            let mut m = crate::text::owned("persistent_upper_pool_id ");
            let t = crate::ids::uuid_string(upper_pool_id);
            crate::text::push_str(&mut m, t.as_str());
            crate::text::push_str(&mut m, " not found");
            Err(Error::UnprocessableEntity(m))
        },
        PoolLookup::Failed => Err(Error::InternalServerError),
        PoolLookup::Found(p) => {
            let active = match p.status {
                crate::model::StoragePoolStatus::Active => true,
                _ => false,
            };
            if !active {
                let mut m = crate::text::owned("persistent_upper_pool_id ");
                let t = crate::ids::uuid_string(upper_pool_id);
                crate::text::push_str(&mut m, t.as_str());
                crate::text::push_str(&mut m, " is not active");
                return Err(Error::UnprocessableEntity(m));
            }
            match p.pool_type {
                crate::model::StoragePoolType::Local | crate::model::StoragePoolType::Nfs => {},
                _ => {
                    return Err(unprocessable("persistent_upper_pool_id must be a Local or NFS pool"));
                },
            }
            match host_has_pool {
                None => Err(Error::InternalServerError),
                Some(false) => {
                    let mut m = crate::text::owned("persistent_upper_pool_id ");
                    let t = crate::ids::uuid_string(upper_pool_id);
                    crate::text::push_str(&mut m, t.as_str());
                    crate::text::push_str(&mut m, " is not attached to the selected host");
                    Err(Error::UnprocessableEntity(m))
                },
                Some(true) => Ok(()),
            }
        },
    }
}

// ---------------------------------------------------------------------------
// Templates made from a VM
// ---------------------------------------------------------------------------

/// The position of the first disk with boot order 0.
pub open spec fn first_boot_disk(disks: Seq<crate::devices::VmDisk>) -> Option<int>
    decreases disks.len(),
{
    if disks.len() == 0 {
        None
    } else if disks[0].boot_order == Some(0i32) {
        Some(0)
    } else {
        match first_boot_disk(disks.drop_first()) {
            Some(i) => Some(i + 1),
            None => None,
        }
    }
}

/// The root disk object of a template made from a VM: that of its first
/// disk with boot order 0, else that of its first disk.
pub open spec fn template_root_disk_of(disks: Seq<crate::devices::VmDisk>) -> Option<u128> {
    match first_boot_disk(disks) {
        Some(i) => disks[i].storage_object_id,
        None => if disks.len() > 0 {
            disks[0].storage_object_id
        } else {
            None
        },
    }
}

pub fn template_root_disk(disks: &[crate::devices::VmDisk]) -> (r: Option<u128>)
    ensures
        r == template_root_disk_of(disks@),
{
    let mut i: usize = 0;
    assert(disks@.skip(0) =~= disks@);
    while i < disks.len()
        invariant
            i <= disks.len(),
            first_boot_disk(disks@) == match first_boot_disk(disks@.skip(i as int)) {
                Some(k) => Some(k + i),
                None => None,
            },
        decreases disks.len() - i,
    {
        assert(disks@.skip(i as int).drop_first() =~= disks@.skip(i + 1));
        if disks[i].boot_order == Some(0) {
            return disks[i].storage_object_id;
        }
        i = i + 1;
    }
    assert(disks@.skip(i as int).len() == 0);
    if disks.len() > 0 {
        disks[0].storage_object_id
    } else {
        None
    }
}

/// The network of a template made from a VM: that of the VM's interface
/// when it has exactly one.
pub fn inferred_network(interfaces: &[crate::devices::NetworkInterface]) -> (r: Option<u128>)
    ensures
        r == (if interfaces@.len() == 1 {
            interfaces@[0].network_id
        } else {
            None
        }),
{
    if interfaces.len() == 1 {
        interfaces[0].network_id
    } else {
        None
    }
}

} // verus!
