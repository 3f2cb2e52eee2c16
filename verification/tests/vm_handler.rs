use qarax::devices::{next_disk_id, overlaybd_upper_paths, resolve_disk_resize_target, VmDisk};
use qarax::errors::Error;
use qarax::model::{BootMode, StorageObjectType, StoragePoolStatus, StoragePoolType};
use qarax::storage::{ConfigField, JsonConfig, StorageObject, StoragePool};

fn make_disk(logical_name: &str) -> VmDisk {
    VmDisk {
        id: 1,
        vm_id: 2,
        storage_object_id: None,
        logical_name: logical_name.to_string(),
        device_path: format!("/dev/{}", logical_name),
        boot_order: None,
        read_only: false,
        direct: false,
        vhost_user: false,
        vhost_socket: None,
        num_queues: 1,
        queue_size: 128,
        rate_limit_group: None,
        pci_segment: 0,
        serial_number: None,
        upper_storage_object_id: None,
    }
}

fn config(pairs: &[(&str, &str)]) -> JsonConfig {
    JsonConfig {
        is_object: true,
        fields: pairs
            .iter()
            .map(|(k, v)| ConfigField { key: k.to_string(), text: Some(v.to_string()), number: None })
            .collect(),
    }
}

fn make_storage_object(object_type: StorageObjectType, config: JsonConfig) -> StorageObject {
    StorageObject { id: 77, name: "obj".to_string(), storage_pool_id: 88, object_type, size_bytes: 1024, config }
}

fn make_storage_pool(pool_type: StoragePoolType) -> StoragePool {
    StoragePool {
        id: 88,
        name: "pool".to_string(),
        pool_type,
        status: StoragePoolStatus::Active,
        capacity_bytes: None,
        allocated_bytes: None,
        config: config(&[]),
    }
}

#[test]
fn next_disk_id_empty() {
    assert_eq!(next_disk_id(&[]), "disk0");
}

#[test]
fn next_disk_id_skips_existing() {
    let existing = vec![make_disk("disk0"), make_disk("disk1")];
    assert_eq!(next_disk_id(&existing), "disk2");
}

#[test]
fn next_disk_id_fills_gap() {
    let existing = vec![make_disk("disk0"), make_disk("disk2")];
    assert_eq!(next_disk_id(&existing), "disk1");
}

#[test]
fn next_disk_id_ignores_non_disk_names() {
    let existing = vec![make_disk("vda"), make_disk("rootfs")];
    assert_eq!(next_disk_id(&existing), "disk0");
}

#[test]
fn boot_mode_default_is_kernel() {
    let mode: Option<BootMode> = None;
    assert_eq!(mode.unwrap_or(BootMode::Kernel), BootMode::Kernel);
}

#[test]
fn overlaybd_upper_paths_reads_config() {
    let upper_object = make_storage_object(
        StorageObjectType::OverlaybdUpper,
        config(&[("upper_data", "/var/lib/qarax/pools/upper.data"), ("upper_index", "/var/lib/qarax/pools/upper.index")]),
    );
    let (upper_data_path, upper_index_path) = overlaybd_upper_paths(Some(&upper_object));
    assert_eq!(upper_data_path.as_deref(), Some("/var/lib/qarax/pools/upper.data"));
    assert_eq!(upper_index_path.as_deref(), Some("/var/lib/qarax/pools/upper.index"));
}

#[test]
fn resolve_disk_resize_target_accepts_local_disk() {
    let disk = make_disk("disk0");
    let object = make_storage_object(StorageObjectType::Disk, config(&[("path", "/var/lib/qarax/disk.raw")]));
    let pool = make_storage_pool(StoragePoolType::Local);
    let target = resolve_disk_resize_target(&disk, &object, &pool).unwrap();
    assert_eq!(target.storage_object_id, object.id);
    assert_eq!(target.path, "/var/lib/qarax/disk.raw");
}

#[test]
fn resolve_disk_resize_target_rejects_persistent_overlaybd() {
    let mut disk = make_disk("disk0");
    disk.upper_storage_object_id = Some(5);
    let object = make_storage_object(
        StorageObjectType::OciImage,
        config(&[("image_ref", "registry:5000/test/busybox:latest"), ("registry_url", "http://registry:5000")]),
    );
    let pool = make_storage_pool(StoragePoolType::OverlayBd);
    let err = resolve_disk_resize_target(&disk, &object, &pool).unwrap_err();
    assert!(
        matches!(err, Error::UnprocessableEntity(message) if message == "persistent OverlayBD disk resize is not supported yet")
    );
}

fn resize_message(disk: &VmDisk, object: &StorageObject, pool: &StoragePool) -> String {
    match resolve_disk_resize_target(disk, object, pool) {
        Err(Error::UnprocessableEntity(m)) => m,
        other => panic!("unexpected {:?}", other),
    }
}

#[test]
fn resolve_disk_resize_target_other_refusals() {
    let disk = make_disk("disk0");
    let image = make_storage_object(StorageObjectType::OciImage, config(&[]));
    assert_eq!(
        resize_message(&disk, &image, &make_storage_pool(StoragePoolType::OverlayBd)),
        "ephemeral OverlayBD disks cannot be resized"
    );
    let plain = make_storage_object(StorageObjectType::Disk, config(&[]));
    assert_eq!(
        resize_message(&disk, &plain, &make_storage_pool(StoragePoolType::OverlayBd)),
        "disk resize is not supported for this OverlayBD storage object"
    );
    assert_eq!(
        resize_message(&disk, &plain, &make_storage_pool(StoragePoolType::Nfs)),
        "disk has no resolvable host path"
    );
    let iso = make_storage_object(StorageObjectType::Iso, config(&[("path", "/x.iso")]));
    assert_eq!(
        resize_message(&disk, &iso, &make_storage_pool(StoragePoolType::Local)),
        "disk resize is only supported for disk and snapshot storage objects"
    );
}
