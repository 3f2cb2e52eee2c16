//! The request that creates a VM on its node, built from what is stored
//! about the VM when it is first started: boot payload, kernel command
//! line, disks, filesystems, NICs, passed-through GPUs and NUMA pinning.
use vstd::prelude::*;

use crate::config::VmDefaultsSettings;
use crate::cpu_list::{cpu_list_values, expand_cpu_list, sort_dedup, sorted_distinct};
use crate::devices::{
    disk_config_for_hotplug, disk_config_from, image_ref_to_rootfs_path, is_passt, lemma_adapted_nic, nic_config_of,
    opt_view, safe_name, DiskConfig, NetConfig, NetworkInfo, VmDisk,
};
use crate::errors::{is_unprocessable, unprocessable, Error};
use crate::ids::{uuid_string, uuid_text};
use crate::model::{BootMode, StoragePoolType};
use crate::storage::{config_wf, StorageObject, StoragePool};
use crate::vm_ops::PoolPlacement;
use crate::text::{dec, is_blank, owned, push_str, push_u64, str_eq};

verus! {

// ---------------------------------------------------------------------------
// Boot payload
// ---------------------------------------------------------------------------

/// A boot source with its files resolved to host paths.
#[derive(Debug)]
pub struct ResolvedBootSource {
    pub kernel_path: String,
    pub kernel_params: String,
    pub initramfs_path: Option<String>,
}

/// What the VM boots: a kernel (with an optional initramfs and a default
/// command line) or a firmware.
#[derive(Debug)]
pub struct BootPayload {
    pub kernel: Option<String>,
    pub firmware: Option<String>,
    pub initramfs: Option<String>,
    pub default_cmdline: Option<String>,
}

/// `Some(s)` when `s` is not empty.
pub open spec fn non_empty(o: Option<String>) -> Option<Seq<char>> {
    match o {
        Some(s) => if s@.len() > 0 {
            Some(s@)
        } else {
            None
        },
        None => None,
    }
}

pub open spec fn payload_is(
    p: BootPayload,
    kernel: Option<Seq<char>>,
    firmware: Option<Seq<char>>,
    initramfs: Option<Seq<char>>,
    cmdline: Option<Seq<char>>,
) -> bool {
    &&& opt_view(p.kernel) == kernel
    &&& opt_view(p.firmware) == firmware
    &&& opt_view(p.initramfs) == initramfs
    &&& opt_view(p.default_cmdline) == cmdline
}

fn non_empty_clone(o: &Option<String>) -> (r: Option<String>)
    ensures
        opt_view(r) == non_empty(*o),
{
    match o {
        Some(s) => if s.unicode_len() > 0 {
            Some(s.clone())
        } else {
            None
        },
        None => None,
    }
}

/// What a VM boots, as (kernel, firmware, initramfs, default command line),
/// or why it cannot boot. Firmware boot takes the configured firmware, which
/// must be set; kernel boot takes the VM's boot source when it has one
/// (`source`, the outcome of resolving it), else the configured kernel,
/// initramfs (when not empty) and command line.
pub open spec fn boot_payload_of(
    mode: BootMode,
    defaults: VmDefaultsSettings,
    source: Option<Result<ResolvedBootSource, String>>,
) -> Result<(Option<Seq<char>>, Option<Seq<char>>, Option<Seq<char>>, Option<Seq<char>>), Seq<char>> {
    match mode {
        BootMode::Firmware => match non_empty(defaults.firmware) {
            Some(fw) => Ok((None, Some(fw), None, None)),
            None => Err(
                "firmware boot mode requires a firmware path (set vm_defaults.firmware or VM_FIRMWARE env var)"@,
            ),
        },
        BootMode::Kernel => match source {
            Some(Ok(b)) => Ok((Some(b.kernel_path@), None, opt_view(b.initramfs_path), Some(b.kernel_params@))),
            Some(Err(e)) => Err("Invalid boot_source_id: "@ + e@),
            None => Ok((Some(defaults.kernel@), None, non_empty(defaults.initramfs), Some(defaults.cmdline@))),
        },
    }
}

/// Resolves what a VM boots.
pub fn resolve_boot_payload(
    mode: BootMode,
    defaults: &VmDefaultsSettings,
    source: Option<Result<ResolvedBootSource, String>>,
) -> (r: Result<BootPayload, Error>)
    ensures
        match boot_payload_of(mode, *defaults, source) {
            Ok(t) => r matches Ok(p) && payload_is(p, t.0, t.1, t.2, t.3),
            Err(m) => r matches Err(e) && is_unprocessable(e, m),
        },
{
    match mode {
        BootMode::Firmware => match non_empty_clone(&defaults.firmware) {
            Some(fw) => Ok(BootPayload { kernel: None, firmware: Some(fw), initramfs: None, default_cmdline: None }),
            None => Err(
                unprocessable(
                    "firmware boot mode requires a firmware path (set vm_defaults.firmware or VM_FIRMWARE env var)",
                ),
            ),
        },
        BootMode::Kernel => match source {
            Some(Ok(b)) => Ok(
                BootPayload {
                    kernel: Some(b.kernel_path),
                    firmware: None,
                    initramfs: b.initramfs_path,
                    default_cmdline: Some(b.kernel_params),
                },
            ),
            Some(Err(e)) => {
                let mut m = owned("Invalid boot_source_id: ");
                push_str(&mut m, e.as_str());
                Err(Error::UnprocessableEntity(m))
            },
            None => Ok(
                BootPayload {
                    kernel: Some(defaults.kernel.clone()),
                    firmware: None,
                    initramfs: non_empty_clone(&defaults.initramfs),
                    default_cmdline: Some(defaults.cmdline.clone()),
                },
            ),
        },
    }
}

// ---------------------------------------------------------------------------
// Static addresses on the kernel command line
// ---------------------------------------------------------------------------

pub open spec fn or_empty(o: Option<String>) -> Seq<char> {
    match o {
        Some(s) => s@,
        None => Seq::empty(),
    }
}

/// ` ip=<ip>::<gateway>:<mask>::eth<i>:off:<dns>`.
pub open spec fn ip_param_text(ip: Seq<char>, gateway: Seq<char>, mask: Seq<char>, i: nat, dns: Seq<char>) -> Seq<
    char,
> {
    " ip="@ + ip + "::"@ + gateway + ":"@ + mask + "::eth"@ + dec(i) + ":off:"@ + dns
}

/// A NIC with an address on a bridge or isolated network gets its address
/// on the kernel command line.
pub open spec fn wants_ip_param(c: NetConfig, info: Option<NetworkInfo>) -> bool {
    &&& info matches Some(n) && !is_passt(n)
    &&& c.ip is Some
    &&& info->0.network_type matches Some(t) && (t@ == "bridge"@ || t@ == "isolated"@)
}

/// The `ip=` parameters of the first `n` NICs.
pub open spec fn ip_params_upto(nets: Seq<NetConfig>, infos: Seq<Option<NetworkInfo>>, n: nat) -> Seq<char>
    decreases n,
{
    if n == 0 {
        Seq::empty()
    } else {
        let i = (n - 1) as nat;
        ip_params_upto(nets, infos, i) + if wants_ip_param(nets[i as int], infos[i as int]) {
            ip_param_text(
                or_empty(nets[i as int].ip),
                or_empty(infos[i as int]->0.gateway),
                or_empty(nets[i as int].mask),
                i,
                or_empty(infos[i as int]->0.dns),
            )
        } else {
            Seq::empty()
        }
    }
}

fn push_opt(s: &mut String, o: &Option<String>)
    ensures
        final(s)@ == old(s)@ + or_empty(*o),
{
    match o {
        Some(t) => push_str(s, t.as_str()),
        None => {},
    }
}

/// The `ip=` parameter of NIC `i`, empty when it takes none.
fn ip_param_for(c: &NetConfig, network: &Option<NetworkInfo>, i: usize) -> (r: String)
    ensures
        r@ == if wants_ip_param(*c, *network) {
            ip_param_text(or_empty(c.ip), or_empty(network->0.gateway), or_empty(c.mask), i as nat, or_empty(network->0.dns))
        } else {
            Seq::<char>::empty()
        },
{
    let mut out = String::new();
    match network {
        Some(info) => {
            let passt = match &info.network_type {
                Some(t) => str_eq(t.as_str(), "passt"),
                None => false,
            };
            let wired = match &info.network_type {
                Some(t) => str_eq(t.as_str(), "bridge") || str_eq(t.as_str(), "isolated"),
                None => false,
            };
            if !passt && wired && c.ip.is_some() {
                push_str(&mut out, " ip=");
                push_opt(&mut out, &c.ip);
                push_str(&mut out, "::");
                push_opt(&mut out, &info.gateway);
                push_str(&mut out, ":");
                push_opt(&mut out, &c.mask);
                push_str(&mut out, "::eth");
                push_u64(&mut out, i as u64);
                push_str(&mut out, ":off:");
                push_opt(&mut out, &info.dns);
            }
        },
        None => {},
    }
    assert(out@ =~= if wants_ip_param(*c, *network) {
        ip_param_text(or_empty(c.ip), or_empty(network->0.gateway), or_empty(c.mask), i as nat, or_empty(network->0.dns))
    } else {
        Seq::<char>::empty()
    });
    out
}

/// The `ip=` kernel parameters for NICs (already adapted to their
/// networks) with static addresses on bridge or isolated networks, in NIC
/// order; `infos[i]` is what is known of NIC `i`'s network.
pub fn kernel_ip_params(nets: &[NetConfig], infos: &[Option<NetworkInfo>]) -> (r: String)
    requires
        nets.len() == infos.len(),
    ensures
        r@ == ip_params_upto(nets@, infos@, nets.len() as nat),
{
    let mut out = String::new();
    for i in 0..nets.len()
        invariant
            nets.len() == infos.len(),
            out@ == ip_params_upto(nets@, infos@, i as nat),
    {
        let p = ip_param_for(&nets[i], &infos[i], i);
        push_str(&mut out, p.as_str());
    }
    out
}

// ---------------------------------------------------------------------------
// Root filesystem and command line
// ---------------------------------------------------------------------------

/// A virtiofs filesystem of a VM, as stored.
#[derive(Debug)]
pub struct VmFilesystem {
    pub tag: String,
    pub num_queues: i32,
    pub queue_size: i32,
    pub pci_segment: i32,
    pub image_ref: Option<String>,
}

/// A virtiofs device handed to the node.
#[derive(Debug)]
pub struct FsConfig {
    pub tag: String,
    pub socket: String,
    pub num_queues: i32,
    pub queue_size: i32,
    pub pci_segment: i32,
    pub id: Option<String>,
    pub bootstrap_path: Option<String>,
}

/// The kernel command line: an OverlayBD root disk or a virtiofs root
/// filesystem boot through the injected init; otherwise the boot payload's
/// default command line, if any. Each ends with the `ip=` parameters.
pub open spec fn boot_cmdline(has_overlaybd: bool, has_fs: bool, default_cmdline: Option<Seq<char>>, ip: Seq<char>) -> Option<
    Seq<char>,
> {
    if has_overlaybd {
        Some("console=ttyS0 root=/dev/vda rw net.ifnames=0 biosdevname=0 init=/.qarax-init"@ + ip)
    } else if has_fs {
        Some("console=ttyS0 root=rootfs rootfstype=virtiofs rw init=/.qarax-init"@ + ip)
    } else {
        match default_cmdline {
            Some(c) => Some(c + ip),
            None => None,
        }
    }
}

/// The virtiofs device of a VM booting from its first filesystem.
pub open spec fn fs_config_of(c: FsConfig, fs: VmFilesystem, vm_id: u128) -> bool {
    &&& c.tag@ == fs.tag@
    &&& c.socket@ == "/var/lib/qarax/vms/"@ + uuid_text(vm_id) + "-fs0.sock"@
    &&& c.num_queues == fs.num_queues
    &&& c.queue_size == fs.queue_size
    &&& c.pci_segment == fs.pci_segment
    &&& opt_view(c.id) == Some("fs0"@)
    &&& opt_view(c.bootstrap_path) == match fs.image_ref {
        Some(r) => Some("/var/lib/qarax/images/"@ + safe_name(r@) + "/rootfs"@),
        None => None,
    }
}

/// How the VM's root is mounted: the virtiofs devices, the command line,
/// and whether guest memory must be shared (virtiofs needs it).
pub fn boot_layout(
    has_overlaybd: bool,
    filesystems: &[VmFilesystem],
    default_cmdline: Option<String>,
    ip_params: &str,
    memory_shared: bool,
    vm_id: u128,
) -> (r: (Vec<FsConfig>, Option<String>, bool))
    ensures
        opt_view(r.1) == boot_cmdline(has_overlaybd, filesystems.len() > 0, opt_view(default_cmdline), ip_params@),
        has_overlaybd ==> r.0.len() == 0 && !r.2,
        !has_overlaybd && filesystems.len() > 0 ==> r.0.len() == 1 && fs_config_of(r.0@[0], filesystems@[0], vm_id)
            && r.2,
        !has_overlaybd && filesystems.len() == 0 ==> r.0.len() == 0 && r.2 == memory_shared,
{
    if has_overlaybd {
        let mut c = owned("console=ttyS0 root=/dev/vda rw net.ifnames=0 biosdevname=0 init=/.qarax-init");
        push_str(&mut c, ip_params);
        (Vec::new(), Some(c), false)
    } else if filesystems.len() > 0 {
        let fs = &filesystems[0];
        let mut socket = owned("/var/lib/qarax/vms/");
        let id = uuid_string(vm_id);
        push_str(&mut socket, id.as_str());
        push_str(&mut socket, "-fs0.sock");
        let bootstrap_path = match &fs.image_ref {
            Some(r) => Some(image_ref_to_rootfs_path(r.as_str())),
            None => None,
        };
        let config = FsConfig {
            tag: fs.tag.clone(),
            socket,
            num_queues: fs.num_queues,
            queue_size: fs.queue_size,
            pci_segment: fs.pci_segment,
            id: Some(owned("fs0")),
            bootstrap_path,
        };
        let mut configs: Vec<FsConfig> = Vec::new();
        configs.push(config);
        let mut c = owned("console=ttyS0 root=rootfs rootfstype=virtiofs rw init=/.qarax-init");
        push_str(&mut c, ip_params);
        (configs, Some(c), true)
    } else {
        let c = match default_cmdline {
            Some(d) => {
                let mut d = d;
                push_str(&mut d, ip_params);
                Some(d)
            },
            None => None,
        };
        (Vec::new(), c, memory_shared)
    }
}

// ---------------------------------------------------------------------------
// Cloud-init, devices, vsock
// ---------------------------------------------------------------------------

/// The cloud-init meta-data: the stored one, else, when user-data is given,
/// one naming the instance and its host name.
pub open spec fn meta_data_of(
    meta_data: Option<String>,
    user_data: Option<String>,
    vm_id: u128,
    vm_name: Seq<char>,
) -> Option<Seq<char>> {
    match meta_data {
        Some(m) => Some(m@),
        None => match user_data {
            Some(_) => Some("instance-id: "@ + uuid_text(vm_id) + "\nlocal-hostname: "@ + vm_name + "\n"@),
            None => None,
        },
    }
}

pub fn cloud_init_meta_data(
    meta_data: &Option<String>,
    user_data: &Option<String>,
    vm_id: u128,
    vm_name: &str,
) -> (r: Option<String>)
    ensures
        opt_view(r) == meta_data_of(*meta_data, *user_data, vm_id, vm_name@),
{
    match meta_data {
        Some(m) => Some(m.clone()),
        None => match user_data {
            Some(_) => {
                let mut t = owned("instance-id: ");
                let id = uuid_string(vm_id);
                push_str(&mut t, id.as_str());
                push_str(&mut t, "\nlocal-hostname: ");
                push_str(&mut t, vm_name);
                push_str(&mut t, "\n");
                Some(t)
            },
            None => None,
        },
    }
}

/// A PCI device passed through to the VM.
#[derive(Debug)]
pub struct VfioDeviceConfig {
    pub id: String,
    pub path: String,
    pub iommu: Option<bool>,
    pub pci_segment: Option<i32>,
}

/// Device `gpu<i>` for the GPU at PCI address `pci`.
pub open spec fn vfio_of(d: VfioDeviceConfig, i: nat, pci: Seq<char>) -> bool {
    &&& d.id@ == "gpu"@ + dec(i)
    &&& d.path@ == "/sys/bus/pci/devices/"@ + pci
    &&& d.iommu == Some(true)
    &&& d.pci_segment is None
}

/// One pass-through device per allocated GPU, in order.
pub fn vfio_devices(pci_addresses: &[String]) -> (r: Vec<VfioDeviceConfig>)
    ensures
        r.len() == pci_addresses.len(),
        forall|i: int| 0 <= i < r.len() ==> vfio_of(#[trigger] r@[i], i as nat, pci_addresses@[i]@),
{
    let mut out: Vec<VfioDeviceConfig> = Vec::new();
    for i in 0..pci_addresses.len()
        invariant
            out.len() == i,
            forall|j: int| 0 <= j < i ==> vfio_of(#[trigger] out@[j], j as nat, pci_addresses@[j]@),
    {
        let mut id = owned("gpu");
        push_u64(&mut id, i as u64);
        let mut path = owned("/sys/bus/pci/devices/");
        push_str(&mut path, pci_addresses[i].as_str());
        out.push(VfioDeviceConfig { id, path, iommu: Some(true), pci_segment: None });
    }
    out
}

/// The vsock device of a sandbox VM that runs commands.
#[derive(Debug)]
pub struct VsockConfig {
    pub cid: Option<u64>,
    pub socket: Option<String>,
    pub iommu: Option<bool>,
    pub pci_segment: Option<i32>,
    pub id: Option<String>,
}

/// The vsock device of a VM: one with id "sandbox-exec" and every other
/// field left to the node, exactly when sandbox exec is enabled.
pub open spec fn vsock_is(r: Option<VsockConfig>, sandbox_exec: bool) -> bool {
    &&& (sandbox_exec <==> r is Some)
    &&& r matches Some(v) ==> v.cid is None && v.socket is None && v.iommu is None && v.pci_segment is None
        && opt_view(v.id) == Some("sandbox-exec"@)
}

/// A VM whose configuration enables sandbox exec gets a vsock device.
pub fn sandbox_vsock(sandbox_exec: bool) -> (r: Option<VsockConfig>)
    ensures
        vsock_is(r, sandbox_exec),
{
    if sandbox_exec {
        Some(VsockConfig { cid: None, socket: None, iommu: None, pci_segment: None, id: Some(owned("sandbox-exec")) })
    } else {
        None
    }
}

// ---------------------------------------------------------------------------
// NUMA placement
// ---------------------------------------------------------------------------

/// A NUMA node of a host and its CPUs (a kernel CPU list such as `0-3,8`).
#[derive(Debug)]
pub struct HostNumaNode {
    pub node_id: i32,
    pub cpu_list: String,
    pub memory_bytes: Option<i64>,
}

/// A vCPU and the host CPUs it may run on.
#[derive(Debug)]
pub struct CpuPinning {
    pub vcpu: i32,
    pub host_cpus: Vec<i32>,
}

/// Where a VM is pinned: the host NUMA nodes, each vCPU's CPUs, and one
/// memory zone per node.
#[derive(Debug)]
pub struct NumaPlacement {
    pub host_numa_node_ids: Vec<i32>,
    pub cpu_pinning: Vec<CpuPinning>,
    pub memory_zone_ids: Vec<String>,
}

/// The non-negative entries (negative means unknown).
pub open spec fn known_nodes(s: Seq<i32>) -> Seq<i32>
    decreases s.len(),
{
    if s.len() == 0 {
        seq![]
    } else {
        known_nodes(s.drop_last()) + if s.last() >= 0 {
            seq![s.last()]
        } else {
            seq![]
        }
    }
}

/// The NUMA nodes to pin to: those of the VM's GPUs, ascending and without
/// repeats, when it has GPUs; else the node its configuration names.
pub open spec fn numa_targets_of(gpu_nodes: Seq<i32>, explicit: Option<i32>) -> Seq<i32> {
    if gpu_nodes.len() > 0 {
        sorted_distinct(known_nodes(gpu_nodes))
    } else {
        match explicit {
            Some(n) => seq![n],
            None => seq![],
        }
    }
}

pub fn numa_targets(gpu_nodes: &[i32], explicit: Option<i32>) -> (r: Vec<i32>)
    ensures
        r@ == numa_targets_of(gpu_nodes@, explicit),
{
    if gpu_nodes.len() > 0 {
        let mut known: Vec<i32> = Vec::new();
        for i in 0..gpu_nodes.len()
            invariant
                known@ == known_nodes(gpu_nodes@.take(i as int)),
        {
            assert(gpu_nodes@.take(i + 1).drop_last() =~= gpu_nodes@.take(i as int));
            if gpu_nodes[i] >= 0 {
                known.push(gpu_nodes[i]);
            }
            assert(known@ =~= known_nodes(gpu_nodes@.take(i + 1)));
        }
        assert(gpu_nodes@.take(gpu_nodes@.len() as int) =~= gpu_nodes@);
        sort_dedup(known.as_slice())
    } else {
        let mut r: Vec<i32> = Vec::new();
        match explicit {
            Some(n) => {
                r.push(n);
            },
            None => {},
        }
        assert(r@ =~= numa_targets_of(gpu_nodes@, explicit));
        r
    }
}

/// The host CPUs of the target nodes, node after node in the host's order.
pub open spec fn target_cpus(nodes: Seq<HostNumaNode>, targets: Seq<i32>) -> Seq<i32>
    decreases nodes.len(),
{
    if nodes.len() == 0 {
        seq![]
    } else {
        target_cpus(nodes.drop_last(), targets) + if targets.contains(nodes.last().node_id) {
            sorted_distinct(cpu_list_values(nodes.last().cpu_list@))
        } else {
            seq![]
        }
    }
}

/// The placement of a VM with `boot_vcpus` vCPUs on the target nodes of a
/// host: none without targets, NUMA information or CPUs to pin to; else
/// every vCPU may use every CPU of the targets.
pub open spec fn placement_is(
    r: Option<NumaPlacement>,
    targets: Seq<i32>,
    nodes: Seq<HostNumaNode>,
    boot_vcpus: i32,
) -> bool {
    if targets.len() == 0 || nodes.len() == 0 || target_cpus(nodes, targets).len() == 0 {
        r is None
    } else {
        r matches Some(p) && {
            &&& p.host_numa_node_ids@ == targets
            &&& p.cpu_pinning.len() == (if boot_vcpus > 0 {
                boot_vcpus as int
            } else {
                0
            })
            &&& forall|v: int|
                0 <= v < p.cpu_pinning.len() ==> (#[trigger] p.cpu_pinning@[v]).vcpu == v
                    && p.cpu_pinning@[v].host_cpus@ == target_cpus(nodes, targets)
            &&& p.memory_zone_ids.len() == targets.len()
            &&& forall|i: int|
                0 <= i < p.memory_zone_ids.len() ==> (#[trigger] p.memory_zone_ids@[i])@ == "zone"@ + dec(i as nat)
        }
    }
}

fn contains_i32(v: &Vec<i32>, x: i32) -> (r: bool)
    ensures
        r == v@.contains(x),
{
    for i in 0..v.len()
        invariant
            forall|j: int| 0 <= j < i ==> v@[j] != x,
    {
        if v[i] == x {
            return true;
        }
    }
    false
}

fn copy_i32s(v: &Vec<i32>) -> (r: Vec<i32>)
    ensures
        r@ == v@,
{
    let mut r: Vec<i32> = Vec::new();
    for i in 0..v.len()
        invariant
            r@ == v@.take(i as int),
    {
        r.push(v[i]);
        assert(v@.take(i + 1) =~= v@.take(i as int).push(v@[i as int]));
    }
    assert(v@.take(v@.len() as int) =~= v@);
    r
}

/// Pins a VM to the CPUs and memory of its target NUMA nodes on its host.
pub fn numa_placement(targets: Vec<i32>, nodes: &[HostNumaNode], boot_vcpus: i32) -> (r: Option<NumaPlacement>)
    requires
        targets.len() <= u32::MAX,
    ensures
        placement_is(r, targets@, nodes@, boot_vcpus),
{
    if targets.len() == 0 || nodes.len() == 0 {
        return None;
    }
    let mut cpus: Vec<i32> = Vec::new();
    for i in 0..nodes.len()
        invariant
            cpus@ == target_cpus(nodes@.take(i as int), targets@),
    {
        assert(nodes@.take(i + 1).drop_last() =~= nodes@.take(i as int));
        if contains_i32(&targets, nodes[i].node_id) {
            let mut node_cpus = expand_cpu_list(nodes[i].cpu_list.as_str());
            cpus.append(&mut node_cpus);
        }
        assert(cpus@ =~= target_cpus(nodes@.take(i + 1), targets@));
    }
    assert(nodes@.take(nodes@.len() as int) =~= nodes@);
    if cpus.len() == 0 {
        return None;
    }
    let mut pinning: Vec<CpuPinning> = Vec::new();
    let mut v: i32 = 0;
    while v < boot_vcpus
        invariant
            0 <= v,
            boot_vcpus > 0 ==> v <= boot_vcpus,
            boot_vcpus <= 0 ==> v == 0,
            pinning.len() == v,
            forall|k: int|
                0 <= k < pinning.len() ==> (#[trigger] pinning@[k]).vcpu == k && pinning@[k].host_cpus@ == cpus@,
        decreases boot_vcpus - v,
    {
        pinning.push(CpuPinning { vcpu: v, host_cpus: copy_i32s(&cpus) });
        v = v + 1;
    }
    let mut zones: Vec<String> = Vec::new();
    for i in 0..targets.len()
        invariant
            zones.len() == i,
            forall|k: int| 0 <= k < i ==> (#[trigger] zones@[k])@ == "zone"@ + dec(k as nat),
    {
        let mut z = owned("zone");
        push_u64(&mut z, i as u64);
        zones.push(z);
    }
    Some(NumaPlacement { host_numa_node_ids: targets, cpu_pinning: pinning, memory_zone_ids: zones })
}

// ---------------------------------------------------------------------------
// Disks
// ---------------------------------------------------------------------------

/// The first object with this id.
pub open spec fn find_object(objects: Seq<StorageObject>, id: u128) -> Option<StorageObject>
    decreases objects.len(),
{
    if objects.len() == 0 {
        None
    } else if objects[0].id == id {
        Some(objects[0])
    } else {
        find_object(objects.drop_first(), id)
    }
}

/// The first pool with this id.
pub open spec fn find_pool(pools: Seq<PoolPlacement>, id: u128) -> Option<StoragePool>
    decreases pools.len(),
{
    if pools.len() == 0 {
        None
    } else if pools[0].pool.id == id {
        Some(pools[0].pool)
    } else {
        find_pool(pools.drop_first(), id)
    }
}

fn lookup_object<'a>(objects: &'a [StorageObject], id: u128) -> (r: Option<&'a StorageObject>)
    ensures
        match r {
            Some(o) => find_object(objects@, id) == Some(*o),
            None => find_object(objects@, id) is None,
        },
{
    let mut i: usize = 0;
    assert(objects@.skip(0) =~= objects@);
    while i < objects.len()
        invariant
            i <= objects.len(),
            find_object(objects@, id) == find_object(objects@.skip(i as int), id),
        decreases objects.len() - i,
    {
        assert(objects@.skip(i as int)[0] == objects@[i as int]);
        assert(objects@.skip(i as int).drop_first() =~= objects@.skip(i + 1));
        if objects[i].id == id {
            return Some(&objects[i]);
        }
        i = i + 1;
    }
    None
}

fn lookup_pool<'a>(pools: &'a [PoolPlacement], id: u128) -> (r: Option<&'a StoragePool>)
    ensures
        match r {
            Some(p) => find_pool(pools@, id) == Some(*p),
            None => find_pool(pools@, id) is None,
        },
{
    let mut i: usize = 0;
    assert(pools@.skip(0) =~= pools@);
    while i < pools.len()
        invariant
            i <= pools.len(),
            find_pool(pools@, id) == find_pool(pools@.skip(i as int), id),
        decreases pools.len() - i,
    {
        assert(pools@.skip(i as int)[0] == pools@[i as int]);
        assert(pools@.skip(i as int).drop_first() =~= pools@.skip(i + 1));
        if pools[i].pool.id == id {
            return Some(&pools[i].pool);
        }
        i = i + 1;
    }
    None
}

/// The upper-layer object of a disk, when it has one that is known.
pub open spec fn disk_upper(d: VmDisk, objects: Seq<StorageObject>) -> Option<StorageObject> {
    match d.upper_storage_object_id {
        Some(u) => find_object(objects, u),
        None => None,
    }
}

/// Each disk backed by a storage object, in order, with its object, the
/// object's pool and its upper-layer object; none when an object or a pool
/// is unknown.
pub open spec fn resolution(disks: Seq<VmDisk>, objects: Seq<StorageObject>, pools: Seq<PoolPlacement>) -> Option<
    Seq<(VmDisk, StorageObject, StoragePool, Option<StorageObject>)>,
>
    decreases disks.len(),
{
    if disks.len() == 0 {
        Some(seq![])
    } else {
        match resolution(disks.drop_last(), objects, pools) {
            None => None,
            Some(prev) => {
                let d = disks.last();
                match d.storage_object_id {
                    None => Some(prev),
                    Some(so) => match find_object(objects, so) {
                        None => None,
                        Some(o) => match find_pool(pools, o.storage_pool_id) {
                            None => None,
                            Some(p) => Some(prev.push((d, o, p, disk_upper(d, objects)))),
                        },
                    },
                }
            },
        }
    }
}

/// Whether one of the resolved disks is on an OverlayBD pool.
pub open spec fn any_overlaybd(res: Seq<(VmDisk, StorageObject, StoragePool, Option<StorageObject>)>) -> bool
    decreases res.len(),
{
    if res.len() == 0 {
        false
    } else {
        any_overlaybd(res.drop_last()) || res.last().2.pool_type is OverlayBd
    }
}

/// An unknown object or pool stays unknown when more disks follow.
proof fn lemma_resolution_fails_onward(
    disks: Seq<VmDisk>,
    objects: Seq<StorageObject>,
    pools: Seq<PoolPlacement>,
    k: int,
)
    requires
        0 <= k <= disks.len(),
        resolution(disks.take(k), objects, pools) is None,
    ensures
        resolution(disks, objects, pools) is None,
    decreases disks.len() - k,
{
    if k == disks.len() {
        assert(disks.take(k) =~= disks);
    } else {
        assert(disks.take(k + 1).drop_last() =~= disks.take(k));
        lemma_resolution_fails_onward(disks, objects, pools, k + 1);
    }
}

/// The disk configurations of a VM's disks backed by storage objects, in
/// order, and whether one of them is an OverlayBD disk (then the VM boots
/// from it); NotFound when a disk's object or its pool is unknown.
pub fn resolve_disks(disks: &[VmDisk], objects: &[StorageObject], pools: &[PoolPlacement]) -> (r: Result<
    (Vec<DiskConfig>, bool),
    Error,
>)
    requires
        forall|i: int| 0 <= i < objects.len() ==> config_wf(#[trigger] objects@[i].config),
    ensures
        r is Err <==> resolution(disks@, objects@, pools@) is None,
        r matches Err(e) ==> e is NotFound,
        r matches Ok((configs, overlaybd)) ==> {
            let res = resolution(disks@, objects@, pools@)->0;
            &&& configs.len() == res.len()
            &&& forall|i: int|
                0 <= i < configs.len() ==> disk_config_from(#[trigger] configs@[i], res[i].0, res[i].1, res[i].2, res[i].3)
            &&& overlaybd == any_overlaybd(res)
        },
{
    let mut configs: Vec<DiskConfig> = Vec::new();
    let mut overlaybd = false;
    for k in 0..disks.len()
        invariant
            forall|i: int| 0 <= i < objects.len() ==> config_wf(#[trigger] objects@[i].config),
            resolution(disks@.take(k as int), objects@, pools@) is Some,
            configs.len() == resolution(disks@.take(k as int), objects@, pools@)->0.len(),
            forall|i: int|
                0 <= i < configs.len() ==> {
                    let res = resolution(disks@.take(k as int), objects@, pools@)->0;
                    disk_config_from(#[trigger] configs@[i], res[i].0, res[i].1, res[i].2, res[i].3)
                },
            overlaybd == any_overlaybd(resolution(disks@.take(k as int), objects@, pools@)->0),
    {
        let ghost prev = resolution(disks@.take(k as int), objects@, pools@)->0;
        assert(disks@.take(k + 1).drop_last() =~= disks@.take(k as int));
        assert(disks@.take(k + 1).last() == disks@[k as int]);
        let disk = &disks[k];
        match disk.storage_object_id {
            Some(so) => {
                let obj = match lookup_object(objects, so) {
                    Some(o) => o,
                    None => {
                        proof {
                            lemma_resolution_fails_onward(disks@, objects@, pools@, k + 1);
                        }
                        return Err(Error::NotFound);
                    },
                };
                let pool = match lookup_pool(pools, obj.storage_pool_id) {
                    Some(p) => p,
                    None => {
                        proof {
                            lemma_resolution_fails_onward(disks@, objects@, pools@, k + 1);
                        }
                        return Err(Error::NotFound);
                    },
                };
                let upper = match disk.upper_storage_object_id {
                    Some(u) => lookup_object(objects, u),
                    None => None,
                };
                proof {
                    lemma_found_object_wf(objects@, so);
                    if let Some(u) = disk.upper_storage_object_id {
                        lemma_found_object_wf(objects@, u);
                    }
                }
                let c = disk_config_for_hotplug(disk, obj, pool, upper);
                let is_obd = match pool.pool_type {
                    StoragePoolType::OverlayBd => true,
                    _ => false,
                };
                let ghost entry = (*disk, *obj, *pool, disk_upper(*disk, objects@));
                let ghost now = prev.push(entry);
                assert(resolution(disks@.take(k + 1), objects@, pools@) == Some(now));
                configs.push(c);
                overlaybd = overlaybd || is_obd;
                assert forall|i: int| 0 <= i < configs.len() implies disk_config_from(
                    #[trigger] configs@[i],
                    now[i].0,
                    now[i].1,
                    now[i].2,
                    now[i].3,
                ) by {
                    if i < prev.len() {
                        assert(now[i] == prev[i]);
                    }
                }
                assert(now.drop_last() =~= prev);
            },
            None => {
                assert(resolution(disks@.take(k + 1), objects@, pools@) == Some(prev));
            },
        }
    }
    assert(disks@.take(disks@.len() as int) =~= disks@);
    Ok((configs, overlaybd))
}

proof fn lemma_found_object_wf(objects: Seq<StorageObject>, id: u128)
    requires
        forall|i: int| 0 <= i < objects.len() ==> config_wf(#[trigger] objects[i].config),
    ensures
        find_object(objects, id) matches Some(o) ==> config_wf(o.config),
    decreases objects.len(),
{
    if objects.len() > 0 && objects[0].id != id {
        let rest = objects.drop_first();
        assert forall|i: int| 0 <= i < rest.len() implies config_wf(#[trigger] rest[i].config) by {
            assert(rest[i] == objects[i + 1]);
        }
        lemma_found_object_wf(rest, id);
    }
}

// ---------------------------------------------------------------------------
// Local pools
// ---------------------------------------------------------------------------

/// The first local pool the VM's host does not have.
pub open spec fn first_missing_local(pools: Seq<PoolPlacement>) -> Option<StoragePool>
    decreases pools.len(),
{
    if pools.len() == 0 {
        None
    } else if pools[0].pool.pool_type is Local && !pools[0].on_host {
        Some(pools[0].pool)
    } else {
        first_missing_local(pools.drop_first())
    }
}

/// Why a VM cannot be created on its host, if it cannot: a local pool
/// holding one of its disks must be attached to that host.
pub open spec fn local_pool_refusal(host_id: Option<u128>, pools: Seq<PoolPlacement>) -> Option<Seq<char>> {
    match host_id {
        Some(h) => match first_missing_local(pools) {
            Some(p) => Some("Host "@ + uuid_text(h) + " is not attached to local storage pool "@ + uuid_text(p.id)),
            None => None,
        },
        None => None,
    }
}

pub fn check_local_pools(host_id: Option<u128>, pools: &[PoolPlacement]) -> (r: Result<(), Error>)
    ensures
        match local_pool_refusal(host_id, pools@) {
            Some(m) => r matches Err(e) && is_unprocessable(e, m),
            None => r is Ok,
        },
{
    let h = match host_id {
        Some(h) => h,
        None => {
            return Ok(());
        },
    };
    let mut i: usize = 0;
    assert(pools@.skip(0) =~= pools@);
    while i < pools.len()
        invariant
            i <= pools.len(),
            host_id == Some(h),
            first_missing_local(pools@) == first_missing_local(pools@.skip(i as int)),
        decreases pools.len() - i,
    {
        assert(pools@.skip(i as int)[0] == pools@[i as int]);
        assert(pools@.skip(i as int).drop_first() =~= pools@.skip(i + 1));
        let p = &pools[i];
        let local = match p.pool.pool_type {
            StoragePoolType::Local => true,
            _ => false,
        };
        if local && !p.on_host {
            assert(first_missing_local(pools@.skip(i as int)) == Some(p.pool));
            let mut m = owned("Host ");
            let a = uuid_string(h);
            push_str(&mut m, a.as_str());
            push_str(&mut m, " is not attached to local storage pool ");
            let b = uuid_string(p.pool.id);
            push_str(&mut m, b.as_str());
            assert(m@ =~= "Host "@ + uuid_text(h) + " is not attached to local storage pool "@ + uuid_text(p.pool.id));
            return Err(Error::UnprocessableEntity(m));
        }
        i = i + 1;
    }
    assert(pools@.skip(i as int).len() == 0);
    Ok(())
}

// ---------------------------------------------------------------------------
// The request
// ---------------------------------------------------------------------------

/// What is stored about a VM that its creation request is built from; the
/// VM's JSON configuration contributes whether sandbox exec is enabled.
#[derive(Debug)]
pub struct Vm {
    pub id: u128,
    pub name: String,
    pub host_id: Option<u128>,
    pub boot_mode: BootMode,
    pub boot_vcpus: i32,
    pub max_vcpus: i32,
    pub memory_size: i64,
    pub memory_hotplug_size: Option<i64>,
    pub memory_shared: bool,
    pub memory_hugepages: bool,
    pub cloud_init_user_data: Option<String>,
    pub cloud_init_meta_data: Option<String>,
    pub cloud_init_network_config: Option<String>,
    pub sandbox_exec: bool,
}

/// What was read about a VM's devices: its NICs with what is known of each
/// NIC's network and its bridge on the VM's host, its disks with the
/// objects and pools backing them (and whether the VM's host has each
/// pool), its filesystems, and the PCI addresses of its GPUs.
#[derive(Debug)]
pub struct StoredDevices {
    pub nics: Vec<crate::devices::NetworkInterface>,
    pub networks: Vec<Option<NetworkInfo>>,
    pub bridges: Vec<Option<String>>,
    pub disks: Vec<VmDisk>,
    pub objects: Vec<StorageObject>,
    pub pools: Vec<PoolPlacement>,
    pub filesystems: Vec<VmFilesystem>,
    pub gpu_pci_addresses: Vec<String>,
}

/// The request that creates a VM on its node.
#[derive(Debug)]
pub struct CreateVmRequest {
    pub vm_id: u128,
    pub boot_vcpus: i32,
    pub max_vcpus: i32,
    pub memory_size: i64,
    pub networks: Vec<NetConfig>,
    pub kernel: Option<String>,
    pub firmware: Option<String>,
    pub initramfs: Option<String>,
    pub cmdline: Option<String>,
    pub fs_configs: Vec<FsConfig>,
    pub memory_shared: bool,
    pub memory_hotplug_size: Option<i64>,
    pub memory_hugepages: bool,
    pub disks: Vec<DiskConfig>,
    pub cloud_init_user_data: Option<String>,
    pub cloud_init_meta_data: Option<String>,
    pub cloud_init_network_config: Option<String>,
    pub devices: Vec<VfioDeviceConfig>,
    pub vsock: Option<VsockConfig>,
    pub numa_placement: Option<NumaPlacement>,
}

pub open spec fn stored_wf(d: StoredDevices) -> bool {
    &&& d.networks.len() == d.nics.len()
    &&& d.bridges.len() == d.nics.len()
    &&& forall|i: int| 0 <= i < d.objects.len() ==> config_wf(#[trigger] d.objects@[i].config)
}

/// Why no request can be built, if none can: the boot payload cannot be
/// resolved, a local pool is missing on the VM's host (an
/// `UnprocessableEntity` with the message), or a disk's object or pool is
/// unknown (`None` as the message: NotFound).
pub open spec fn request_refusal(
    vm: Vm,
    defaults: VmDefaultsSettings,
    source: Option<Result<ResolvedBootSource, String>>,
    d: StoredDevices,
) -> Option<Option<Seq<char>>> {
    if boot_payload_of(vm.boot_mode, defaults, source) is Err {
        Some(Some(boot_payload_of(vm.boot_mode, defaults, source)->Err_0))
    } else if local_pool_refusal(vm.host_id, d.pools@) is Some {
        Some(local_pool_refusal(vm.host_id, d.pools@))
    } else if resolution(d.disks@, d.objects@, d.pools@) is None {
        Some(None)
    } else {
        None
    }
}

/// Whether any NIC uses a vhost-user backend (which needs shared memory).
pub open spec fn any_vhost_user(nets: Seq<NetConfig>) -> bool {
    exists|i: int| 0 <= i < nets.len() && (#[trigger] nets[i]).vhost_user == Some(true)
}

/// What a built request holds.
pub open spec fn request_of(
    r: CreateVmRequest,
    vm: Vm,
    defaults: VmDefaultsSettings,
    source: Option<Result<ResolvedBootSource, String>>,
    d: StoredDevices,
    numa: Option<NumaPlacement>,
) -> bool {
    let payload = boot_payload_of(vm.boot_mode, defaults, source)->Ok_0;
    let res = resolution(d.disks@, d.objects@, d.pools@)->0;
    let overlaybd = any_overlaybd(res);
    let has_fs = d.filesystems.len() > 0;
    let ip = if vm.cloud_init_network_config is Some {
        Seq::<char>::empty()
    } else {
        ip_params_upto(r.networks@, d.networks@, r.networks.len() as nat)
    };
    &&& r.vm_id == vm.id && r.boot_vcpus == vm.boot_vcpus && r.max_vcpus == vm.max_vcpus
    &&& r.memory_size == vm.memory_size && r.memory_hotplug_size == vm.memory_hotplug_size
    &&& r.memory_hugepages == vm.memory_hugepages
    &&& r.networks.len() == d.nics.len()
    &&& forall|i: int|
        0 <= i < r.networks.len() ==> nic_config_of(#[trigger] r.networks@[i], d.nics@[i], d.networks@[i], d.bridges@[i])
    &&& opt_view(r.kernel) == payload.0 && opt_view(r.firmware) == payload.1
    &&& opt_view(r.initramfs) == if overlaybd {
        None
    } else {
        payload.2
    }
    &&& opt_view(r.cmdline) == boot_cmdline(overlaybd, has_fs, payload.3, ip)
    &&& if overlaybd {
        r.fs_configs.len() == 0
    } else if has_fs {
        r.fs_configs.len() == 1 && fs_config_of(r.fs_configs@[0], d.filesystems@[0], vm.id)
    } else {
        r.fs_configs.len() == 0
    }
    &&& r.memory_shared == ((if overlaybd {
        false
    } else if has_fs {
        true
    } else {
        vm.memory_shared
    }) || any_vhost_user(r.networks@))
    &&& r.disks.len() == res.len()
    &&& forall|i: int|
        0 <= i < r.disks.len() ==> disk_config_from(#[trigger] r.disks@[i], res[i].0, res[i].1, res[i].2, res[i].3)
    &&& r.cloud_init_user_data == vm.cloud_init_user_data
    &&& r.cloud_init_network_config == vm.cloud_init_network_config
    &&& opt_view(r.cloud_init_meta_data) == meta_data_of(
        vm.cloud_init_meta_data,
        vm.cloud_init_user_data,
        vm.id,
        vm.name@,
    )
    &&& r.devices.len() == d.gpu_pci_addresses.len()
    &&& forall|i: int| 0 <= i < r.devices.len() ==> vfio_of(#[trigger] r.devices@[i], i as nat, d.gpu_pci_addresses@[i]@)
    &&& vsock_is(r.vsock, vm.sandbox_exec)
    &&& r.numa_placement == numa
}

fn any_vhost(nets: &Vec<NetConfig>) -> (r: bool)
    ensures
        r == any_vhost_user(nets@),
{
    for i in 0..nets.len()
        invariant
            forall|j: int| 0 <= j < i ==> nets@[j].vhost_user != Some(true),
    {
        match nets[i].vhost_user {
            Some(true) => {
                assert(nets@[i as int].vhost_user == Some(true));
                return true;
            },
            _ => {},
        }
    }
    false
}

fn adapted_networks(d: &StoredDevices) -> (r: Vec<NetConfig>)
    requires
        stored_wf(*d),
    ensures
        r.len() == d.nics.len(),
        forall|i: int| 0 <= i < r.len() ==> nic_config_of(#[trigger] r@[i], d.nics@[i], d.networks@[i], d.bridges@[i]),
{
    let base = crate::devices::net_configs_from_db(d.nics.as_slice());
    let mut out: Vec<NetConfig> = Vec::new();
    let mut rest = base;
    let ghost all = rest@;
    let mut i: usize = 0;
    while i < d.nics.len()
        invariant
            stored_wf(*d),
            all.len() == d.nics.len(),
            forall|j: int| 0 <= j < all.len() ==> crate::devices::net_config_of(#[trigger] all[j], d.nics@[j]),
            i <= d.nics.len(),
            out.len() == i,
            rest@ == all.skip(i as int),
            forall|j: int| 0 <= j < i ==> nic_config_of(#[trigger] out@[j], d.nics@[j], d.networks@[j], d.bridges@[j]),
        decreases d.nics.len() - i,
    {
        let c = rest.remove(0);
        assert(c == all[i as int]);
        assert(rest@ =~= all.skip(i + 1));
        let bridge = match &d.bridges[i] {
            Some(b) => Some(b.clone()),
            None => None,
        };
        let a = crate::devices::adapt_net_config(c, d.networks[i].as_ref(), bridge);
        proof {
            lemma_adapted_nic(a, c, d.nics@[i as int], d.networks@[i as int], d.bridges@[i as int]);
        }
        out.push(a);
        i = i + 1;
    }
    out
}

/// Builds the request that creates a VM on its node from what is stored
/// about it; `source` is the outcome of resolving its boot source, when it
/// has one, and `numa` its NUMA placement (`numa_placement`).
pub fn build_create_vm_request(
    vm: &Vm,
    defaults: &VmDefaultsSettings,
    source: Option<Result<ResolvedBootSource, String>>,
    devices: &StoredDevices,
    numa: Option<NumaPlacement>,
) -> (r: Result<CreateVmRequest, Error>)
    requires
        stored_wf(*devices),
    ensures
        match request_refusal(*vm, *defaults, source, *devices) {
            Some(Some(m)) => r matches Err(e) && is_unprocessable(e, m),
            Some(None) => r matches Err(e) && e is NotFound,
            None => r matches Ok(req) && request_of(req, *vm, *defaults, source, *devices, numa),
        },
{
    let ghost src = source;
    let payload = match resolve_boot_payload(vm.boot_mode, defaults, source) {
        Ok(p) => p,
        Err(e) => {
            return Err(e);
        },
    };
    let networks = adapted_networks(devices);
    let ip_all = kernel_ip_params(networks.as_slice(), devices.networks.as_slice());
    match check_local_pools(vm.host_id, devices.pools.as_slice()) {
        Ok(()) => {},
        Err(e) => {
            return Err(e);
        },
    }
    let (disks, overlaybd) = match resolve_disks(
        devices.disks.as_slice(),
        devices.objects.as_slice(),
        devices.pools.as_slice(),
    ) {
        Ok(x) => x,
        Err(e) => {
            return Err(e);
        },
    };
    let ip = if vm.cloud_init_network_config.is_some() {
        String::new()
    } else {
        ip_all
    };
    let (fs_configs, cmdline, layout_shared) = boot_layout(
        overlaybd,
        devices.filesystems.as_slice(),
        payload.default_cmdline,
        ip.as_str(),
        vm.memory_shared,
        vm.id,
    );
    let initramfs = if overlaybd {
        None
    } else {
        payload.initramfs
    };
    let meta = cloud_init_meta_data(&vm.cloud_init_meta_data, &vm.cloud_init_user_data, vm.id, vm.name.as_str());
    let vfio = vfio_devices(devices.gpu_pci_addresses.as_slice());
    let vhost = any_vhost(&networks);
    let user_data = match &vm.cloud_init_user_data {
        Some(u) => Some(u.clone()),
        None => None,
    };
    let net_config = match &vm.cloud_init_network_config {
        Some(u) => Some(u.clone()),
        None => None,
    };
    let req = CreateVmRequest {
        vm_id: vm.id,
        boot_vcpus: vm.boot_vcpus,
        max_vcpus: vm.max_vcpus,
        memory_size: vm.memory_size,
        networks,
        kernel: payload.kernel,
        firmware: payload.firmware,
        initramfs,
        cmdline,
        fs_configs,
        memory_shared: layout_shared || vhost,
        memory_hotplug_size: vm.memory_hotplug_size,
        memory_hugepages: vm.memory_hugepages,
        disks,
        cloud_init_user_data: user_data,
        cloud_init_meta_data: meta,
        cloud_init_network_config: net_config,
        devices: vfio,
        vsock: sandbox_vsock(vm.sandbox_exec),
        numa_placement: numa,
    };
    Ok(req)
}

// ---------------------------------------------------------------------------
// The configuration sent to a migration's destination
// ---------------------------------------------------------------------------

/// Cloud-init data handed to a VM.
#[derive(Debug)]
pub struct CloudInitConfig {
    pub user_data: String,
    pub meta_data: String,
    pub network_config: String,
}

/// What a node is sent to set up a VM. The fields the control plane never
/// sets (CPU topology, KVM Hyper-V, physical address bits, memory
/// mergeable, hugepage size, prefault and THP, RNG, console, rate-limit
/// groups) are left to the node.
#[derive(Debug)]
pub struct NodeVmConfig {
    pub vm_id: u128,
    pub boot_vcpus: i32,
    pub max_vcpus: i32,
    pub memory_size: i64,
    pub memory_hotplug_size: Option<i64>,
    /// `Some(true)` when requested, else unset.
    pub memory_shared: Option<bool>,
    pub memory_hugepages: Option<bool>,
    pub kernel: Option<String>,
    pub cmdline: Option<String>,
    pub initramfs: Option<String>,
    pub firmware: Option<String>,
    pub disks: Vec<DiskConfig>,
    pub networks: Vec<NetConfig>,
    /// The serial console's mode.
    pub serial: crate::model::ConsoleMode,
    pub fs: Vec<FsConfig>,
    pub cloud_init: Option<CloudInitConfig>,
    pub devices: Vec<VfioDeviceConfig>,
    pub vsock: Option<VsockConfig>,
    pub numa_placement: Option<NumaPlacement>,
}

/// A text that is not blank (not only white space).
pub open spec fn non_blank(o: Option<String>) -> Option<Seq<char>> {
    match o {
        Some(s) => if crate::text::trim(s@).len() > 0 {
            Some(s@)
        } else {
            None
        },
        None => None,
    }
}

fn keep_non_empty(o: Option<String>) -> (r: Option<String>)
    ensures
        opt_view(r) == non_empty(o),
{
    match o {
        Some(s) => if s.unicode_len() > 0 {
            Some(s)
        } else {
            None
        },
        None => None,
    }
}

fn keep_non_blank(o: Option<String>) -> (r: Option<String>)
    ensures
        opt_view(r) == non_blank(o),
{
    match o {
        Some(s) => if crate::text::is_blank(s.as_str()) {
            None
        } else {
            Some(s)
        },
        None => None,
    }
}

/// The configuration a migration's destination node is prepared with,
/// from the request that would create the VM: an empty kernel, command line
/// or firmware and a blank initramfs are dropped; memory sharing and
/// hugepages are set only when asked for; the serial console is a PTY;
/// cloud-init is given only with user data (missing meta-data and network
/// configuration are empty); the NUMA placement is left to the destination.
pub fn migration_vm_config(req: CreateVmRequest) -> (c: NodeVmConfig)
    ensures
        c.vm_id == req.vm_id,
        c.boot_vcpus == req.boot_vcpus,
        c.max_vcpus == req.max_vcpus,
        c.memory_size == req.memory_size,
        c.memory_hotplug_size == req.memory_hotplug_size,
        c.memory_shared == (if req.memory_shared {
            Some(true)
        } else {
            None
        }),
        c.memory_hugepages == (if req.memory_hugepages {
            Some(true)
        } else {
            None
        }),
        opt_view(c.kernel) == non_empty(req.kernel),
        opt_view(c.cmdline) == non_empty(req.cmdline),
        opt_view(c.initramfs) == non_blank(req.initramfs),
        opt_view(c.firmware) == non_empty(req.firmware),
        c.disks@ == req.disks@,
        c.networks@ == req.networks@,
        c.serial is Pty,
        c.fs@ == req.fs_configs@,
        req.cloud_init_user_data is None ==> c.cloud_init is None,
        req.cloud_init_user_data matches Some(u) ==> (c.cloud_init matches Some(ci) && ci.user_data@ == u@
            && ci.meta_data@ == crate::vm_request::or_empty(req.cloud_init_meta_data)
            && ci.network_config@ == crate::vm_request::or_empty(req.cloud_init_network_config)),
        c.devices@ == req.devices@,
        c.vsock == req.vsock,
        c.numa_placement is None,
{
    let CreateVmRequest {
        vm_id,
        boot_vcpus,
        max_vcpus,
        memory_size,
        networks,
        kernel,
        firmware,
        initramfs,
        cmdline,
        fs_configs,
        memory_shared,
        memory_hotplug_size,
        memory_hugepages,
        disks,
        cloud_init_user_data,
        cloud_init_meta_data,
        cloud_init_network_config,
        devices,
        vsock,
        numa_placement: _,
    } = req;
    let cloud_init = match cloud_init_user_data {
        Some(user_data) => Some(
            CloudInitConfig {
                user_data,
                meta_data: match cloud_init_meta_data {
                    Some(m) => m,
                    None => String::new(),
                },
                network_config: match cloud_init_network_config {
                    Some(n) => n,
                    None => String::new(),
                },
            },
        ),
        None => None,
    };
    NodeVmConfig {
        vm_id,
        boot_vcpus,
        max_vcpus,
        memory_size,
        memory_hotplug_size,
        memory_shared: if memory_shared {
            Some(true)
        } else {
            None
        },
        memory_hugepages: if memory_hugepages {
            Some(true)
        } else {
            None
        },
        kernel: keep_non_empty(kernel),
        cmdline: keep_non_empty(cmdline),
        initramfs: keep_non_blank(initramfs),
        firmware: keep_non_empty(firmware),
        disks,
        networks,
        serial: crate::model::ConsoleMode::Pty,
        fs: fs_configs,
        cloud_init,
        devices,
        vsock,
        numa_placement: None,
    }
}

} // verus!
