use qarax::devices::VmDisk;
use qarax::errors::Error;
use qarax::model::{StoragePoolStatus, StoragePoolType, VmStatus};
use qarax::storage::{JsonConfig, StoragePool};
use qarax::vm_ops::{
    check_add_nic, check_attach_disk, check_disk_resizable, check_migrate, check_migration_targets,
    check_new_disk_size, check_remove_disk, check_remove_nic, check_restore, check_start,
    check_local_attachment, ensure_host_matches_architecture, gpu_request, plan_disk_attachment,
    plan_nic_device_id, preferred_snapshot_pool, snapshot_outcome, snapshot_url, validate_vm_resize,
    AcceleratorConfig, PoolPlacement, VmResizeRequest,
};
use qarax::devices::NetworkInterface;
use qarax::model::SnapshotStatus;

fn msg(r: Result<(), Error>) -> String {
    match r {
        Err(Error::UnprocessableEntity(m)) => m,
        other => panic!("unexpected {:?}", other),
    }
}

#[test]
fn start_refused_while_running_paused_or_busy() {
    assert_eq!(msg(check_start(VmStatus::Running)), "VM is already running");
    assert_eq!(msg(check_start(VmStatus::Paused)), "VM is paused; use POST /vms/{vm_id}/resume instead");
    assert_eq!(msg(check_start(VmStatus::Pending)), "VM is pending job completion; wait for the job to finish");
    assert_eq!(msg(check_start(VmStatus::Migrating)), "VM is being migrated; wait for migration to finish");
    for s in [VmStatus::Created, VmStatus::Shutdown, VmStatus::Unknown] {
        assert!(check_start(s).is_ok());
    }
}

#[test]
fn restore_needs_a_stopped_vm() {
    assert_eq!(msg(check_restore(VmStatus::Running)), "VM must be stopped before restoring");
    assert_eq!(msg(check_restore(VmStatus::Pending)), "VM must be stopped before restoring");
    assert!(check_restore(VmStatus::Shutdown).is_ok());
    assert!(check_restore(VmStatus::Migrating).is_ok());
}

#[test]
fn device_changes_depend_on_state() {
    assert!(check_attach_disk(VmStatus::Shutdown).is_ok());
    assert_eq!(
        msg(check_attach_disk(VmStatus::Paused)),
        "Disks can only be attached to VMs in Created, Running, or Shutdown state"
    );
    assert_eq!(
        msg(check_remove_disk(VmStatus::Pending)),
        "Disks can only be removed from VMs in Created, Running, or Shutdown state"
    );
    assert!(check_add_nic(VmStatus::Running).is_ok());
    assert_eq!(msg(check_add_nic(VmStatus::Shutdown)), "NICs can only be added to VMs in Created or Running state");
    assert_eq!(msg(check_remove_nic(VmStatus::Paused)), "NICs can only be removed from VMs in Created or Running state");
}

#[test]
fn migrate_needs_running_or_paused() {
    assert!(check_migrate(VmStatus::Paused).is_ok());
    assert_eq!(
        msg(check_migrate(VmStatus::Shutdown)),
        "VM must be running or paused to migrate (current status: shutdown)"
    );
}

#[test]
fn resize_request_validation() {
    let req = |v: Option<i32>, r: Option<i64>| VmResizeRequest { desired_vcpus: v, desired_ram: r };
    let mib = 1024 * 1024;
    assert_eq!(
        msg(validate_vm_resize(&req(None, None), VmStatus::Running, 1, 4, 512 * mib, Some(512 * mib))),
        "At least one of desired_vcpus or desired_ram must be provided"
    );
    assert_eq!(
        msg(validate_vm_resize(&req(Some(2), None), VmStatus::Shutdown, 1, 4, 512 * mib, None)),
        "VM must be running to resize CPU or memory"
    );
    assert_eq!(
        msg(validate_vm_resize(&req(Some(5), None), VmStatus::Running, 1, 4, 512 * mib, None)),
        "desired_vcpus 5 is out of range [1, 4]"
    );
    assert_eq!(
        msg(validate_vm_resize(&req(None, Some(2048 * mib)), VmStatus::Running, 1, 4, 512 * mib, Some(512 * mib))),
        "desired_ram 2147483648 is out of range [536870912, 1073741824]"
    );
    assert_eq!(
        msg(validate_vm_resize(&req(None, Some(600 * mib)), VmStatus::Running, 1, 4, 512 * mib, Some(512 * mib))),
        "desired_ram 629145600 requires a hotplug addition of 92274688 bytes, which is not a multiple of 134217728 bytes"
    );
    assert!(validate_vm_resize(&req(Some(4), Some(640 * mib)), VmStatus::Running, 1, 4, 512 * mib, Some(512 * mib)).is_ok());
}

fn disk(vhost_user: bool, object: Option<u128>) -> VmDisk {
    VmDisk {
        id: 1,
        vm_id: 2,
        storage_object_id: object,
        logical_name: "disk0".to_string(),
        device_path: "/dev/disk0".to_string(),
        boot_order: None,
        read_only: false,
        direct: false,
        vhost_user,
        vhost_socket: None,
        num_queues: 1,
        queue_size: 128,
        rate_limit_group: None,
        pci_segment: 0,
        serial_number: None,
        upper_storage_object_id: None,
    }
}

#[test]
fn disk_resize_checks() {
    match check_disk_resizable(VmStatus::Running, &disk(false, Some(9))) {
        Err(Error::UnprocessableEntity(m)) => assert_eq!(m, "VM must be stopped (Created or Shutdown) to resize a disk"),
        other => panic!("unexpected {:?}", other),
    }
    match check_disk_resizable(VmStatus::Created, &disk(true, Some(9))) {
        Err(Error::UnprocessableEntity(m)) => assert_eq!(m, "vhost-user disks cannot be resized"),
        other => panic!("unexpected {:?}", other),
    }
    match check_disk_resizable(VmStatus::Created, &disk(false, None)) {
        Err(Error::UnprocessableEntity(m)) => assert_eq!(m, "disk has no backing storage object"),
        other => panic!("unexpected {:?}", other),
    }
    assert_eq!(check_disk_resizable(VmStatus::Shutdown, &disk(false, Some(9))).unwrap(), 9);
    assert_eq!(
        msg(check_new_disk_size(1024, 2048)),
        "new_size_bytes 1024 must be greater than current size 2048"
    );
    assert_eq!(
        msg(check_new_disk_size(3000000, 2048)),
        "new_size_bytes 3000000 must be a multiple of 1 MiB (1048576)"
    );
    assert!(check_new_disk_size(2097152, 1048576).is_ok());
}

#[test]
fn host_architecture_must_match() {
    assert!(ensure_host_matches_architecture(None, "x86_64").is_ok());
    assert!(ensure_host_matches_architecture(Some("x86_64"), "x86_64").is_ok());
    assert_eq!(
        msg(ensure_host_matches_architecture(Some("aarch64"), "x86_64")),
        "selected host architecture aarch64 does not match VM architecture x86_64"
    );
}

#[test]
fn gpu_request_copies_accelerator_config() {
    assert!(gpu_request(None).is_none());
    let accel = AcceleratorConfig {
        gpu_count: 2,
        gpu_vendor: Some("nvidia".to_string()),
        gpu_model: None,
        min_vram_bytes: Some(1024),
    };
    let g = gpu_request(Some(&accel)).unwrap();
    assert_eq!(g.count, 2);
    assert_eq!(g.vendor.as_deref(), Some("nvidia"));
    assert_eq!(g.model, None);
    assert_eq!(g.min_vram_bytes, Some(1024));
}

fn pool(id: u128, name: &str, pool_type: StoragePoolType) -> StoragePool {
    StoragePool {
        id,
        name: name.to_string(),
        pool_type,
        status: StoragePoolStatus::Active,
        capacity_bytes: None,
        allocated_bytes: None,
        config: JsonConfig { is_object: true, fields: vec![] },
    }
}

#[test]
fn migration_targets_checks_hosts_and_pools() {
    let dest: u128 = 0x67e5504410b1426f9247bb680e5fe0c8;
    assert_eq!(msg(check_migration_targets(1, 1, &[], &[])), "Source and destination hosts are the same");
    let local = PoolPlacement { pool: pool(3, "fast", StoragePoolType::Local), on_host: true };
    assert_eq!(
        msg(check_migration_targets(1, dest, &[local], &[])),
        "live migration is not supported for pool 'fast' (type: Local)"
    );
    let nfs_missing = PoolPlacement { pool: pool(4, "shared", StoragePoolType::Nfs), on_host: false };
    assert_eq!(
        msg(check_migration_targets(1, dest, &[nfs_missing], &[])),
        "destination host 67e55044-10b1-426f-9247-bb680e5fe0c8 does not have pool 'shared' (Nfs) attached"
    );
    let upper_local = PoolPlacement { pool: pool(5, "scratch", StoragePoolType::Local), on_host: true };
    assert_eq!(
        msg(check_migration_targets(1, dest, &[], &[upper_local])),
        "live migration is not supported: persistent upper layer is on local pool 'scratch'"
    );
    let upper_missing = PoolPlacement { pool: pool(6, "up", StoragePoolType::Nfs), on_host: false };
    assert_eq!(
        msg(check_migration_targets(1, dest, &[], &[upper_missing])),
        "destination host 67e55044-10b1-426f-9247-bb680e5fe0c8 does not have upper layer pool 'up' attached"
    );
    let ok = PoolPlacement { pool: pool(7, "obd", StoragePoolType::OverlayBd), on_host: true };
    assert!(check_migration_targets(1, dest, &[ok], &[]).is_ok());
}

fn attached(name: &str, object: u128, boot_order: Option<i32>) -> VmDisk {
    let mut d = disk(false, Some(object));
    d.logical_name = name.to_string();
    d.device_path = format!("/dev/{}", name);
    d.boot_order = boot_order;
    d
}

#[test]
fn attaching_a_disk_twice_is_a_conflict() {
    let existing = vec![attached("disk0", 0x67e5504410b1426f9247bb680e5fe0c8, Some(0))];
    match plan_disk_attachment(&existing, 0x67e5504410b1426f9247bb680e5fe0c8, None, None) {
        Err(Error::Conflict(m)) => {
            assert_eq!(m, "Storage object 67e55044-10b1-426f-9247-bb680e5fe0c8 is already attached to this VM")
        }
        other => panic!("unexpected {:?}", other),
    }
}

#[test]
fn attached_disk_gets_next_name_and_boot_order() {
    let existing = vec![attached("disk0", 1, Some(0)), attached("disk2", 2, Some(3)), attached("disk1", 3, None)];
    let p = plan_disk_attachment(&existing, 9, None, None).unwrap();
    assert_eq!(p.logical_name, "disk3");
    assert_eq!(p.device_path, "/dev/disk3");
    assert_eq!(p.boot_order, 4);
    let q = plan_disk_attachment(&existing, 9, Some("data".to_string()), Some(7)).unwrap();
    assert_eq!(q.logical_name, "data");
    assert_eq!(q.device_path, "/dev/data");
    assert_eq!(q.boot_order, 7);
    let first = plan_disk_attachment(&[], 9, None, None).unwrap();
    assert_eq!(first.logical_name, "disk0");
    assert_eq!(first.boot_order, 0);
}

#[test]
fn local_disks_need_the_pool_on_the_host() {
    assert!(check_local_attachment(StoragePoolType::Nfs, None, 1, false).is_ok());
    assert!(check_local_attachment(StoragePoolType::Local, Some(1), 2, true).is_ok());
    assert_eq!(
        msg(check_local_attachment(StoragePoolType::Local, None, 2, true)),
        "Cannot attach a local disk to a VM with no assigned host"
    );
    assert_eq!(
        msg(check_local_attachment(StoragePoolType::Local, Some(0x67e5504410b1426f9247bb680e5fe0c8), 0x10, false)),
        "VM's host 67e55044-10b1-426f-9247-bb680e5fe0c8 is not attached to local storage pool 00000000-0000-0000-0000-000000000010"
    );
}

fn nic(device: &str) -> NetworkInterface {
    NetworkInterface {
        network_id: None,
        device_id: device.to_string(),
        tap_name: None,
        mac_address: None,
        host_mac: None,
        ip_address: None,
        mtu: 1500,
        vhost_user: false,
        vhost_socket: None,
        vhost_mode: None,
        num_queues: 1,
        queue_size: 256,
        offload_tso: true,
        offload_ufo: true,
        offload_csum: true,
        pci_segment: 0,
        iommu: false,
    }
}

#[test]
fn nic_device_ids() {
    let existing = vec![nic("net0"), nic("uplink")];
    assert_eq!(plan_nic_device_id(&existing, String::new()).unwrap(), "net1");
    assert_eq!(plan_nic_device_id(&existing, "net5".to_string()).unwrap(), "net5");
    match plan_nic_device_id(&existing, "uplink".to_string()) {
        Err(Error::Conflict(m)) => assert_eq!(m, "NIC device ID 'uplink' is already in use on this VM"),
        other => panic!("unexpected {:?}", other),
    }
}

#[test]
fn snapshot_helpers() {
    assert_eq!(snapshot_url("/var/lib/qarax/snapshots/abc"), "file:///var/lib/qarax/snapshots/abc");
    let (s, r) = snapshot_outcome(true, true);
    assert!(matches!(s, SnapshotStatus::Ready) && r.is_ok());
    let (s, r) = snapshot_outcome(true, false);
    assert!(matches!(s, SnapshotStatus::Ready) && matches!(r, Err(Error::InternalServerError)));
    let (s, r) = snapshot_outcome(false, true);
    assert!(matches!(s, SnapshotStatus::Failed) && matches!(r, Err(Error::InternalServerError)));
    let pools = vec![None, Some(pool(1, "obd", StoragePoolType::OverlayBd)), Some(pool(2, "nfs", StoragePoolType::Nfs))];
    assert_eq!(preferred_snapshot_pool(None, &pools), Some(2));
    assert_eq!(preferred_snapshot_pool(Some(5), &pools), Some(5));
    assert_eq!(preferred_snapshot_pool(None, &pools[..2]), None);
}
