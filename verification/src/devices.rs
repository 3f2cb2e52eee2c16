//! VM devices: naming new disks and NICs, and turning disk and network
//! records into the device configurations sent to the node.
use vstd::prelude::*;

use crate::errors::{is_unprocessable, unprocessable, Error};
use crate::ipv4::{before_slash, subnet_mask_from_cidr, subnet_mask_text};
use crate::model::{StorageObjectType, StoragePoolType};
use crate::storage::{config_text, config_wf, get_path_from_config, StorageObject, StoragePool};
use crate::text::{chars_of, dec, digits_value, lemma_dec, owned, push_char, push_str, push_u64, views};

verus! {

// ---------------------------------------------------------------------------
// Device names
// ---------------------------------------------------------------------------

/// `prefix` followed by the decimal index.
pub open spec fn indexed_name(prefix: Seq<char>, i: nat) -> Seq<char> {
    prefix + dec(i)
}

/// `i` is the least index whose name is not in `used`.
pub open spec fn is_least_free(prefix: Seq<char>, used: Seq<Seq<char>>, i: nat) -> bool {
    &&& !used.contains(indexed_name(prefix, i))
    &&& forall|j: nat| j < i ==> used.contains(#[trigger] indexed_name(prefix, j))
}

proof fn lemma_indexed_name_injective(prefix: Seq<char>, a: nat, b: nat)
    requires
        indexed_name(prefix, a) == indexed_name(prefix, b),
    ensures
        a == b,
{
    let x = indexed_name(prefix, a);
    assert(x.skip(prefix.len() as int) =~= dec(a));
    assert(indexed_name(prefix, b).skip(prefix.len() as int) =~= dec(b));
    lemma_dec(a);
    lemma_dec(b);
}

/// When the names of indices `0..n` are all in `used`, `used` has at least
/// `n` entries.
proof fn lemma_names_fit(prefix: Seq<char>, used: Seq<Seq<char>>, n: nat)
    requires
        forall|j: nat| j < n ==> used.contains(#[trigger] indexed_name(prefix, j)),
    ensures
        n <= used.len(),
    decreases n,
{
    if n > 0 {
        let v = indexed_name(prefix, (n - 1) as nat);
        assert(used.contains(v));
        let k = choose|k: int| 0 <= k < used.len() && used[k] == v;
        let rest = used.remove(k);
        assert forall|j: nat| j < n - 1 implies rest.contains(#[trigger] indexed_name(prefix, j)) by {
            let x = indexed_name(prefix, j);
            assert(used.contains(x));
            let m = choose|m: int| 0 <= m < used.len() && used[m] == x;
            if x == v {
                lemma_indexed_name_injective(prefix, j, (n - 1) as nat);
            }
            if m < k {
                assert(rest[m] == x);
            } else {
                assert(m != k);
                assert(rest[m - 1] == x);
            }
        }
        lemma_names_fit(prefix, rest, (n - 1) as nat);
    }
}

/// The name `prefix{N}` for the least `N` whose name is not taken.
pub fn next_free_name(prefix: &str, used: &Vec<String>) -> (r: String)
    ensures
        exists|i: nat| r@ == indexed_name(prefix@, i) && is_least_free(prefix@, views(used@), i),
{
    let ghost names = views(used@);
    let mut i: u64 = 0;
    loop
        invariant
            names == views(used@),
            i <= used.len(),
            forall|j: nat| j < i ==> names.contains(#[trigger] indexed_name(prefix@, j)),
        decreases used.len() - i,
    {
        let mut candidate = owned(prefix);
        push_u64(&mut candidate, i);
        let mut taken = false;
        let mut k: usize = 0;
        while k < used.len()
            invariant
                k <= used.len(),
                names == views(used@),
                !taken ==> forall|m: int| 0 <= m < k ==> names[m] != candidate@,
                taken ==> names.contains(candidate@),
            decreases used.len() - k,
        {
            if used[k].eq(&candidate) {
                assert(names[k as int] == candidate@);
                taken = true;
            }
            k = k + 1;
        }
        if !taken {
            assert(!names.contains(candidate@));
            assert(is_least_free(prefix@, names, i as nat));
            return candidate;
        }
        proof {
            assert(candidate@ == indexed_name(prefix@, i as nat));
            assert forall|j: nat| j < i + 1 implies names.contains(#[trigger] indexed_name(prefix@, j)) by {
                if j == i {
                }
            }
            lemma_names_fit(prefix@, names, (i + 1) as nat);
        }
        i = i + 1;
    }
}

/// A disk attached to a VM.
#[derive(Debug)]
pub struct VmDisk {
    pub id: u128,
    pub vm_id: u128,
    pub storage_object_id: Option<u128>,
    /// Device name for the hypervisor (e.g. "vda", "rootfs").
    pub logical_name: String,
    /// Device path in the guest.
    pub device_path: String,
    pub boot_order: Option<i32>,
    pub read_only: bool,
    pub direct: bool,
    pub vhost_user: bool,
    pub vhost_socket: Option<String>,
    pub num_queues: i32,
    pub queue_size: i32,
    pub rate_limit_group: Option<String>,
    pub pci_segment: i32,
    pub serial_number: Option<String>,
    /// For OverlayBD disks: the object holding the persistent upper layer.
    pub upper_storage_object_id: Option<u128>,
}

pub open spec fn disk_names(existing: Seq<VmDisk>) -> Seq<Seq<char>> {
    existing.map_values(|d: VmDisk| d.logical_name@)
}

/// Pick a unique disk ID for a new disk given the existing disks on a VM:
/// `disk{N}` for the least `N` not in use.
pub fn next_disk_id(existing: &[VmDisk]) -> (r: String)
    ensures
        exists|i: nat| r@ == indexed_name("disk"@, i) && is_least_free("disk"@, disk_names(existing@), i),
{
    let mut used: Vec<String> = Vec::new();
    for k in 0..existing.len()
        invariant
            views(used@) == disk_names(existing@).take(k as int),
    {
        let ghost before = used@;
        let name = existing[k].logical_name.clone();
        used.push(name);
        assert(used@ == before.push(name));
        assert(views(used@) =~= views(before).push(name@));
        assert(disk_names(existing@).take(k + 1) =~= disk_names(existing@).take(k as int).push(existing@[k as int].logical_name@));
        assert(views(used@) =~= disk_names(existing@).take(k + 1));
    }
    assert(disk_names(existing@).take(existing.len() as int) =~= disk_names(existing@));
    next_free_name("disk", &used)
}

/// A network interface of a VM, as stored.
#[derive(Debug)]
pub struct NetworkInterface {
    pub network_id: Option<u128>,
    pub device_id: String,
    pub tap_name: Option<String>,
    pub mac_address: Option<String>,
    pub host_mac: Option<String>,
    pub ip_address: Option<String>,
    pub mtu: i32,
    pub vhost_user: bool,
    pub vhost_socket: Option<String>,
    pub vhost_mode: Option<String>,
    pub num_queues: i32,
    pub queue_size: i32,
    pub offload_tso: bool,
    pub offload_ufo: bool,
    pub offload_csum: bool,
    pub pci_segment: i32,
    pub iommu: bool,
}

pub open spec fn nic_names(existing: Seq<NetworkInterface>) -> Seq<Seq<char>> {
    existing.map_values(|n: NetworkInterface| n.device_id@)
}

/// Auto-generate the next available NIC device ID (net0, net1, ...).
pub fn next_net_id(existing: &[NetworkInterface]) -> (r: String)
    ensures
        exists|i: nat| r@ == indexed_name("net"@, i) && is_least_free("net"@, nic_names(existing@), i),
{
    let mut used: Vec<String> = Vec::new();
    for k in 0..existing.len()
        invariant
            views(used@) == nic_names(existing@).take(k as int),
    {
        let ghost before = used@;
        let name = existing[k].device_id.clone();
        used.push(name);
        assert(used@ == before.push(name));
        assert(views(used@) =~= views(before).push(name@));
        assert(nic_names(existing@).take(k + 1) =~= nic_names(existing@).take(k as int).push(existing@[k as int].device_id@));
        assert(views(used@) =~= nic_names(existing@).take(k + 1));
    }
    assert(nic_names(existing@).take(existing.len() as int) =~= nic_names(existing@));
    next_free_name("net", &used)
}

// ---------------------------------------------------------------------------
// Image paths
// ---------------------------------------------------------------------------

/// `/`, `:` and `@` replaced by `_`, as the node's image store names images.
pub open spec fn safe_name(s: Seq<char>) -> Seq<char> {
    s.map_values(|c: char| if c == '/' || c == ':' || c == '@' { '_' } else { c })
}

/// The rootfs path of an OCI image: `/var/lib/qarax/images/<safe name>/rootfs`.
pub fn image_ref_to_rootfs_path(image_ref: &str) -> (r: String)
    ensures
        r@ == "/var/lib/qarax/images/"@ + safe_name(image_ref@) + "/rootfs"@,
{
    let v = chars_of(image_ref);
    let mut r = owned("/var/lib/qarax/images/");
    let ghost start = r@;
    for i in 0..v.len()
        invariant
            v@ == image_ref@,
            r@ == start + safe_name(image_ref@).take(i as int),
    {
        let c = v[i];
        let d = if c == '/' || c == ':' || c == '@' {
            '_'
        } else {
            c
        };
        push_char(&mut r, d);
        assert(safe_name(image_ref@).take(i + 1) =~= safe_name(image_ref@).take(i as int).push(d));
    }
    assert(safe_name(image_ref@).take(v.len() as int) =~= safe_name(image_ref@));
    push_str(&mut r, "/rootfs");
    r
}

// ---------------------------------------------------------------------------
// Disk configurations
// ---------------------------------------------------------------------------

/// Disk device configuration sent to the node.
#[derive(Debug)]
pub struct DiskConfig {
    pub id: String,
    pub path: Option<String>,
    pub readonly: Option<bool>,
    pub direct: Option<bool>,
    pub vhost_user: Option<bool>,
    pub vhost_socket: Option<String>,
    pub num_queues: Option<i32>,
    pub queue_size: Option<i32>,
    pub rate_limit_group: Option<String>,
    pub pci_segment: Option<i32>,
    pub serial: Option<String>,
    pub oci_image_ref: Option<String>,
    pub registry_url: Option<String>,
    pub upper_data_path: Option<String>,
    pub upper_index_path: Option<String>,
}

pub open spec fn opt_view(o: Option<String>) -> Option<Seq<char>> {
    match o {
        Some(s) => Some(s@),
        None => None,
    }
}

/// `Some(true)` when set, `None` otherwise.
pub open spec fn flag(b: bool) -> Option<bool> {
    if b {
        Some(true)
    } else {
        None
    }
}

/// The device settings a disk configuration takes over from the disk record.
pub open spec fn carries_disk(c: DiskConfig, disk: VmDisk) -> bool {
    &&& c.id@ == disk.logical_name@
    &&& c.readonly == Some(disk.read_only)
    &&& c.direct == flag(disk.direct)
    &&& c.vhost_user == flag(disk.vhost_user)
    &&& opt_view(c.vhost_socket) == opt_view(disk.vhost_socket)
    &&& c.num_queues == Some(disk.num_queues)
    &&& c.queue_size == Some(disk.queue_size)
    &&& opt_view(c.rate_limit_group) == opt_view(disk.rate_limit_group)
    &&& c.pci_segment == (if disk.pci_segment != 0 { Some(disk.pci_segment) } else { None })
    &&& opt_view(c.serial) == opt_view(disk.serial_number)
}

fn clone_opt(o: &Option<String>) -> (r: Option<String>)
    ensures
        opt_view(r) == opt_view(*o),
{
    match o {
        Some(s) => Some(s.clone()),
        None => None,
    }
}

/// Build a `DiskConfig` from a `VmDisk` plus pre-resolved path/image info.
pub fn disk_to_disk_config(
    disk: &VmDisk,
    path: Option<String>,
    oci_image_ref: Option<String>,
    registry_url: Option<String>,
    upper_data_path: Option<String>,
    upper_index_path: Option<String>,
) -> (r: DiskConfig)
    ensures
        carries_disk(r, *disk),
        r.path == path,
        r.oci_image_ref == oci_image_ref,
        r.registry_url == registry_url,
        r.upper_data_path == upper_data_path,
        r.upper_index_path == upper_index_path,
{
    DiskConfig {
        id: disk.logical_name.clone(),
        path,
        readonly: Some(disk.read_only),
        direct: if disk.direct {
            Some(true)
        } else {
            None
        },
        vhost_user: if disk.vhost_user {
            Some(true)
        } else {
            None
        },
        vhost_socket: clone_opt(&disk.vhost_socket),
        num_queues: Some(disk.num_queues),
        queue_size: Some(disk.queue_size),
        rate_limit_group: clone_opt(&disk.rate_limit_group),
        pci_segment: if disk.pci_segment != 0 {
            Some(disk.pci_segment)
        } else {
            None
        },
        serial: clone_opt(&disk.serial_number),
        oci_image_ref,
        registry_url,
        upper_data_path,
        upper_index_path,
    }
}

/// The upper-layer paths of a persistent OverlayBD disk, read from the
/// upper object's `upper_data` and `upper_index` fields.
pub fn overlaybd_upper_paths(upper_object: Option<&StorageObject>) -> (r: (Option<String>, Option<String>))
    requires
        upper_object matches Some(o) ==> config_wf(o.config),
    ensures
        upper_object is None ==> r.0 is None && r.1 is None,
        upper_object matches Some(o) ==> opt_view(r.0) == config_text(o.config, "upper_data"@) && opt_view(r.1)
            == config_text(o.config, "upper_index"@),
{
    match upper_object {
        None => (None, None),
        Some(obj) => (obj.config.get_str("upper_data"), obj.config.get_str("upper_index")),
    }
}

/// A string field of an object's config, or "" when absent.
fn config_text_or_empty(obj: &StorageObject, key: &str) -> (r: String)
    requires
        config_wf(obj.config),
    ensures
        r@ == (match config_text(obj.config, key@) {
            Some(t) => t,
            None => Seq::empty(),
        }),
{
    match obj.config.get_str(key) {
        Some(s) => s,
        None => String::new(),
    }
}

/// The disk configuration for a disk backed by `obj` in `pool`, with the
/// upper-layer object `upper` of a persistent OverlayBD disk.
pub open spec fn disk_config_from(
    r: DiskConfig,
    disk: VmDisk,
    obj: StorageObject,
    pool: StoragePool,
    upper_object: Option<StorageObject>,
) -> bool {
    &&& carries_disk(r, disk)
    &&& pool.pool_type is OverlayBd ==> {
        &&& r.path is None
        &&& opt_view(r.oci_image_ref) == Some(match config_text(obj.config, "image_ref"@) {
            Some(t) => t,
            None => Seq::empty(),
        })
        &&& opt_view(r.registry_url) == Some(match config_text(obj.config, "registry_url"@) {
            Some(t) => t,
            None => Seq::empty(),
        })
        &&& upper_object is None ==> r.upper_data_path is None && r.upper_index_path is None
        &&& upper_object matches Some(o) ==> opt_view(r.upper_data_path) == config_text(o.config, "upper_data"@)
            && opt_view(r.upper_index_path) == config_text(o.config, "upper_index"@)
    }
    &&& !(pool.pool_type is OverlayBd) ==> {
        &&& opt_view(r.path) == config_text(obj.config, "path"@)
        &&& r.oci_image_ref is None && r.registry_url is None
        &&& r.upper_data_path is None && r.upper_index_path is None
    }
}

/// Build the disk configuration for a disk backed by `obj` in `pool`: an
/// OverlayBD disk names its image, registry and upper layer; any other disk
/// names the object's host path.
pub fn disk_config_for_hotplug(
    disk: &VmDisk,
    obj: &StorageObject,
    pool: &StoragePool,
    upper_object: Option<&StorageObject>,
) -> (r: DiskConfig)
    requires
        config_wf(obj.config),
        upper_object matches Some(o) ==> config_wf(o.config),
    ensures
        disk_config_from(r, *disk, *obj, *pool, match upper_object {
            Some(o) => Some(*o),
            None => None,
        }),
{
    match pool.pool_type {
        StoragePoolType::OverlayBd => {
            let image_ref = config_text_or_empty(obj, "image_ref");
            let registry_url = config_text_or_empty(obj, "registry_url");
            let (upper_data_path, upper_index_path) = overlaybd_upper_paths(upper_object);
            disk_to_disk_config(
                disk,
                None,
                Some(image_ref),
                Some(registry_url),
                upper_data_path,
                upper_index_path,
            )
        },
        _ => {
            let path = get_path_from_config(&obj.config);
            disk_to_disk_config(disk, path, None, None, None, None)
        },
    }
}

/// Where a disk resize is applied: the backing object and its host path.
#[derive(Debug)]
pub struct DiskResizeTarget {
    pub storage_object_id: u128,
    pub path: String,
}

/// Why a disk cannot be resized, if it cannot.
pub open spec fn disk_resize_error(disk: VmDisk, object: StorageObject, pool: StoragePool) -> Option<Seq<char>> {
    if pool.pool_type is OverlayBd {
        if object.object_type is OciImage {
            if disk.upper_storage_object_id is Some {
                Some("persistent OverlayBD disk resize is not supported yet"@)
            } else {
                Some("ephemeral OverlayBD disks cannot be resized"@)
            }
        } else {
            Some("disk resize is not supported for this OverlayBD storage object"@)
        }
    } else if object.object_type is Disk || object.object_type is Snapshot {
        if config_text(object.config, "path"@) is None {
            Some("disk has no resolvable host path"@)
        } else {
            None
        }
    } else {
        Some("disk resize is only supported for disk and snapshot storage objects"@)
    }
}

/// Resolve the object and host path a disk resize applies to: only disk and
/// snapshot objects on path-backed pools can be resized.
pub fn resolve_disk_resize_target(disk: &VmDisk, object: &StorageObject, pool: &StoragePool) -> (r: Result<
    DiskResizeTarget,
    Error,
>)
    requires
        config_wf(object.config),
    ensures
        disk_resize_error(*disk, *object, *pool) matches Some(m) ==> (r matches Err(e) && is_unprocessable(e, m)),
        disk_resize_error(*disk, *object, *pool) is None ==> (r matches Ok(t) && t.storage_object_id == object.id
            && Some(t.path@) == config_text(object.config, "path"@)),
{
    match pool.pool_type {
        StoragePoolType::OverlayBd => match object.object_type {
            StorageObjectType::OciImage => {
                if disk.upper_storage_object_id.is_some() {
                    Err(unprocessable("persistent OverlayBD disk resize is not supported yet"))
                } else {
                    Err(unprocessable("ephemeral OverlayBD disks cannot be resized"))
                }
            },
            _ => Err(unprocessable("disk resize is not supported for this OverlayBD storage object")),
        },
        _ => match object.object_type {
            StorageObjectType::Disk | StorageObjectType::Snapshot => {
                match get_path_from_config(&object.config) {
                    Some(path) => Ok(DiskResizeTarget { storage_object_id: object.id, path }),
                    None => Err(unprocessable("disk has no resolvable host path")),
                }
            },
            _ => Err(unprocessable("disk resize is only supported for disk and snapshot storage objects")),
        },
    }
}

// ---------------------------------------------------------------------------
// Network configurations
// ---------------------------------------------------------------------------

/// vhost-user socket mode of a NIC.
#[derive(Debug, Clone, Copy, PartialEq, Eq, Structural)]
pub enum VhostMode {
    Client,
    Server,
}

/// Network device configuration sent to the node.
#[derive(Debug)]
pub struct NetConfig {
    pub id: String,
    pub tap: Option<String>,
    pub ip: Option<String>,
    pub mask: Option<String>,
    pub mac: Option<String>,
    pub host_mac: Option<String>,
    pub mtu: Option<i32>,
    pub vhost_user: Option<bool>,
    pub vhost_socket: Option<String>,
    pub vhost_mode: Option<VhostMode>,
    pub num_queues: Option<i32>,
    pub queue_size: Option<i32>,
    pub offload_tso: Option<bool>,
    pub offload_ufo: Option<bool>,
    pub offload_csum: Option<bool>,
    pub pci_segment: Option<i32>,
    pub iommu: Option<bool>,
    pub bridge: Option<String>,
}

/// "server" selects server mode; any other mode text selects client mode.
pub open spec fn vhost_mode_of(m: Option<String>) -> Option<VhostMode> {
    match m {
        Some(s) => if s@ == "server"@ {
            Some(VhostMode::Server)
        } else {
            Some(VhostMode::Client)
        },
        None => None,
    }
}

/// What the node is told about a stored NIC: the address without its
/// `/len` suffix, queues only above one, the PCI segment only when not 0,
/// no mask and no bridge yet.
pub open spec fn net_config_of(c: NetConfig, n: NetworkInterface) -> bool {
    &&& c.id@ == n.device_id@
    &&& opt_view(c.tap) == opt_view(n.tap_name)
    &&& opt_view(c.ip) == (match n.ip_address {
        Some(a) => Some(before_slash(a@)),
        None => None,
    })
    &&& c.mask is None
    &&& opt_view(c.mac) == opt_view(n.mac_address)
    &&& opt_view(c.host_mac) == opt_view(n.host_mac)
    &&& c.mtu == Some(n.mtu)
    &&& c.vhost_user == flag(n.vhost_user)
    &&& opt_view(c.vhost_socket) == opt_view(n.vhost_socket)
    &&& c.vhost_mode == vhost_mode_of(n.vhost_mode)
    &&& c.num_queues == (if n.num_queues <= 1 { None } else { Some(n.num_queues) })
    &&& c.queue_size == Some(n.queue_size)
    &&& c.offload_tso == Some(n.offload_tso)
    &&& c.offload_ufo == Some(n.offload_ufo)
    &&& c.offload_csum == Some(n.offload_csum)
    &&& c.pci_segment == (if n.pci_segment != 0 { Some(n.pci_segment) } else { None })
    &&& c.iommu == Some(n.iommu)
    &&& c.bridge is None
}

fn net_config_from_db(n: &NetworkInterface) -> (c: NetConfig)
    ensures
        net_config_of(c, *n),
{
    let ip = match &n.ip_address {
        Some(a) => crate::ipv4::normalize_inet(Some(a.clone())),
        None => None,
    };
    let vhost_mode = match &n.vhost_mode {
        Some(m) => if crate::text::str_eq(m.as_str(), "server") {
            Some(VhostMode::Server)
        } else {
            Some(VhostMode::Client)
        },
        None => None,
    };
    NetConfig {
        id: n.device_id.clone(),
        tap: clone_opt(&n.tap_name),
        ip,
        mask: None,
        mac: clone_opt(&n.mac_address),
        host_mac: clone_opt(&n.host_mac),
        mtu: Some(n.mtu),
        vhost_user: if n.vhost_user {
            Some(true)
        } else {
            None
        },
        vhost_socket: clone_opt(&n.vhost_socket),
        vhost_mode,
        num_queues: if n.num_queues <= 1 {
            None
        } else {
            Some(n.num_queues)
        },
        queue_size: Some(n.queue_size),
        offload_tso: Some(n.offload_tso),
        offload_ufo: Some(n.offload_ufo),
        offload_csum: Some(n.offload_csum),
        pci_segment: if n.pci_segment != 0 {
            Some(n.pci_segment)
        } else {
            None
        },
        iommu: Some(n.iommu),
        bridge: None,
    }
}

/// Convert stored network interfaces to the node's network configurations,
/// one per interface, in order.
pub fn net_configs_from_db(networks: &[NetworkInterface]) -> (r: Vec<NetConfig>)
    ensures
        r.len() == networks.len(),
        forall|i: int| 0 <= i < r.len() ==> net_config_of(#[trigger] r@[i], networks@[i]),
{
    let mut r: Vec<NetConfig> = Vec::new();
    for i in 0..networks.len()
        invariant
            r.len() == i,
            forall|j: int| 0 <= j < i ==> net_config_of(#[trigger] r@[j], networks@[j]),
    {
        r.push(net_config_from_db(&networks[i]));
    }
    r
}

/// What a NIC's network says about how it is wired.
#[derive(Debug)]
pub struct NetworkInfo {
    pub subnet: String,
    pub network_type: Option<String>,
    pub gateway: Option<String>,
    pub dns: Option<String>,
}

pub open spec fn is_passt(info: NetworkInfo) -> bool {
    info.network_type matches Some(t) && t@ == "passt"@
}

/// `r` is `c` adapted to its network and host bridge (see `adapt_net_config`).
pub open spec fn adapted(r: NetConfig, c: NetConfig, network: Option<NetworkInfo>, bridge: Option<String>) -> bool {
    let passt = network matches Some(info) && is_passt(info);
    &&& r.id == c.id
    &&& r.mac == c.mac && r.host_mac == c.host_mac && r.mtu == c.mtu
    &&& r.num_queues == c.num_queues && r.queue_size == c.queue_size
    &&& r.offload_tso == c.offload_tso && r.offload_ufo == c.offload_ufo && r.offload_csum == c.offload_csum
    &&& r.pci_segment == c.pci_segment && r.iommu == c.iommu
    &&& if passt {
        &&& r.vhost_user == Some(true)
        &&& opt_view(r.vhost_socket) == Some("passt"@)
        &&& r.vhost_mode == Some(VhostMode::Client)
        &&& r.tap is None && r.ip is None && r.mask is None
    } else {
        &&& r.vhost_user == c.vhost_user && r.vhost_socket == c.vhost_socket && r.vhost_mode == c.vhost_mode
        &&& r.tap == c.tap && r.ip == c.ip
        &&& opt_view(r.mask) == if network is Some && c.ip is Some && c.mask is None {
            subnet_mask_text(network->0.subnet@)
        } else {
            opt_view(c.mask)
        }
    }
    &&& opt_view(r.bridge) == match bridge {
        Some(b) => Some(b@),
        None => if passt {
            None
        } else {
            opt_view(c.bridge)
        },
    }
}

/// Adapts a NIC configuration to its network on a host: a passt network
/// uses the vhost-user passt backend (no tap, bridge, address or mask);
/// otherwise an address without a mask gets the subnet's mask. A bridge
/// name for the host, when known, is set last.
pub fn adapt_net_config(c: NetConfig, network: Option<&NetworkInfo>, bridge: Option<String>) -> (r: NetConfig)
    ensures
        adapted(r, c, match network {
            Some(n) => Some(*n),
            None => None,
        }, bridge),
{
    let mut c = c;
    match network {
        Some(info) => {
            let passt = match &info.network_type {
                Some(t) => crate::text::str_eq(t.as_str(), "passt"),
                None => false,
            };
            if passt {
                c.vhost_user = Some(true);
                c.vhost_socket = Some(owned("passt"));
                c.vhost_mode = Some(VhostMode::Client);
                c.tap = None;
                c.bridge = None;
                c.ip = None;
                c.mask = None;
            } else if c.ip.is_some() && c.mask.is_none() {
                c.mask = subnet_mask_from_cidr(info.subnet.as_str());
            }
        },
        None => {},
    }
    match bridge {
        Some(b) => {
            c.bridge = Some(b);
        },
        None => {},
    }
    c
}

/// What the node is told about a stored NIC on its network and host: the
/// stored settings (see `net_config_of`) adapted as `adapt_net_config` does.
pub open spec fn nic_config_of(r: NetConfig, n: NetworkInterface, network: Option<NetworkInfo>, bridge: Option<String>) -> bool {
    let passt = network matches Some(info) && is_passt(info);
    &&& r.id@ == n.device_id@
    &&& opt_view(r.mac) == opt_view(n.mac_address)
    &&& opt_view(r.host_mac) == opt_view(n.host_mac)
    &&& r.mtu == Some(n.mtu)
    &&& r.num_queues == (if n.num_queues <= 1 { None } else { Some(n.num_queues) })
    &&& r.queue_size == Some(n.queue_size)
    &&& r.offload_tso == Some(n.offload_tso)
    &&& r.offload_ufo == Some(n.offload_ufo)
    &&& r.offload_csum == Some(n.offload_csum)
    &&& r.pci_segment == (if n.pci_segment != 0 { Some(n.pci_segment) } else { None })
    &&& r.iommu == Some(n.iommu)
    &&& if passt {
        &&& r.vhost_user == Some(true)
        &&& opt_view(r.vhost_socket) == Some("passt"@)
        &&& r.vhost_mode == Some(VhostMode::Client)
        &&& r.tap is None && r.ip is None && r.mask is None
    } else {
        &&& r.vhost_user == flag(n.vhost_user)
        &&& opt_view(r.vhost_socket) == opt_view(n.vhost_socket)
        &&& r.vhost_mode == vhost_mode_of(n.vhost_mode)
        &&& opt_view(r.tap) == opt_view(n.tap_name)
        &&& opt_view(r.ip) == (match n.ip_address {
            Some(a) => Some(before_slash(a@)),
            None => None,
        })
        &&& opt_view(r.mask) == if network is Some && n.ip_address is Some {
            subnet_mask_text(network->0.subnet@)
        } else {
            None
        }
    }
    &&& opt_view(r.bridge) == opt_view(bridge)
}

pub proof fn lemma_adapted_nic(r: NetConfig, c: NetConfig, n: NetworkInterface, network: Option<NetworkInfo>, bridge: Option<String>)
    requires
        net_config_of(c, n),
        adapted(r, c, network, bridge),
    ensures
        nic_config_of(r, n, network, bridge),
{
}

} // verus!
