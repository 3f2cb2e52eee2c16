use qarax::errors::Error;
use qarax::model::{StorageObjectType, StoragePoolStatus, StoragePoolType, TransferType};
use qarax::storage::{
    blank_disk_outcome, disk_destination, disk_download_accepted, disk_download_description, disk_download_outcome,
    disk_object, DiskDownloadEffect,
    database_backup_name, get_path_from_config, infer_transfer_type, plan_create_disk, resolve_new_object, CreateDiskRequest,
    root_disk_requirements, BlockPoolConfig, ConfigField, JsonConfig, OciImageConfig, OverlayBdPoolConfig,
    OverlaybdUpperConfig, StorageObject, StoragePool,
};

fn config(pairs: &[(&str, &str)]) -> JsonConfig {
    JsonConfig {
        is_object: true,
        fields: pairs
            .iter()
            .map(|(k, v)| ConfigField { key: k.to_string(), text: Some(v.to_string()), number: None })
            .collect(),
    }
}

fn pool(pool_type: StoragePoolType, status: StoragePoolStatus, capacity: Option<i64>, allocated: Option<i64>) -> StoragePool {
    StoragePool {
        id: 0x10,
        name: "p".to_string(),
        pool_type,
        status,
        capacity_bytes: capacity,
        allocated_bytes: allocated,
        config: config(&[]),
    }
}

fn message<T: std::fmt::Debug>(r: Result<T, Error>) -> String {
    match r {
        Err(Error::UnprocessableEntity(m)) => m,
        other => panic!("unexpected {:?}", other),
    }
}

#[test]
fn shared_pool_types() {
    assert!(!StoragePoolType::Local.is_shared());
    assert!(StoragePoolType::Nfs.is_shared());
    assert!(StoragePoolType::OverlayBd.supports_live_migration());
    assert!(StoragePoolType::Block.supports_live_migration());
    assert!(!StoragePoolType::Local.supports_live_migration());
}

#[test]
fn typed_configs_read_string_fields() {
    let c = config(&[("image_ref", "r/a:1"), ("registry_url", "http://r")]);
    let oci = OciImageConfig::from_value(&c).unwrap();
    assert_eq!(oci.image_ref, "r/a:1");
    assert_eq!(oci.registry_url, "http://r");
    assert!(OciImageConfig::from_value(&config(&[("image_ref", "x")])).is_none());
    assert!(OverlaybdUpperConfig::from_value(&config(&[("upper_data", "d"), ("upper_index", "i")])).is_some());
    assert_eq!(OverlayBdPoolConfig::from_value(&config(&[("url", "http://reg")])).unwrap().url, "http://reg");
    assert!(OverlayBdPoolConfig::from_value(&config(&[])).is_none());
    let b = BlockPoolConfig::from_value(&config(&[("portal", "10.0.0.1:3260"), ("iqn", "iqn.x")])).unwrap();
    assert_eq!(b.portal, "10.0.0.1:3260");
    assert_eq!(get_path_from_config(&config(&[("path", "/p")])).as_deref(), Some("/p"));
    let not_object = JsonConfig { is_object: false, fields: vec![] };
    assert!(get_path_from_config(&not_object).is_none());
}

#[test]
fn transfer_type_follows_scheme() {
    assert_eq!(infer_transfer_type("https://example.com/img.qcow2"), TransferType::Download);
    assert_eq!(infer_transfer_type("http://x"), TransferType::Download);
    assert_eq!(infer_transfer_type("/var/lib/img"), TransferType::LocalCopy);
    assert_eq!(infer_transfer_type("ftp://x"), TransferType::LocalCopy);
}

#[test]
fn database_backup_names() {
    assert_eq!(database_backup_name(Some("nightly")), "nightly");
    let generated = database_backup_name(None);
    assert_eq!(generated.len(), 24);
    assert!(generated.starts_with("database-backup-"));
    assert!(generated[16..].chars().all(|c| c.is_ascii_hexdigit()));
}

#[test]
fn disk_creation_checks() {
    let active = pool(StoragePoolType::Local, StoragePoolStatus::Active, Some(1000), Some(400));
    assert_eq!(message(plan_create_disk(&disk_req(Some(0), false), &active)), "size_bytes must be greater than 0");
    assert_eq!(message(plan_create_disk(&disk_req(None, false), &active)), "size_bytes is required when source_url is not provided");
    assert_eq!(plan_create_disk(&disk_req(None, true), &active).unwrap(), 0);
    let obd = pool(StoragePoolType::OverlayBd, StoragePoolStatus::Active, None, None);
    assert_eq!(message(plan_create_disk(&disk_req(Some(10), false), &obd)), "Disks can only be created in Local or NFS pools");
    let inactive = pool(StoragePoolType::Nfs, StoragePoolStatus::Inactive, None, None);
    assert_eq!(message(plan_create_disk(&disk_req(Some(10), false), &inactive)), "Storage pool is not active");
    assert_eq!(
        message(plan_create_disk(&disk_req(Some(700), false), &active)),
        "Insufficient pool capacity: requested 700 bytes but only 600 available"
    );
    assert_eq!(plan_create_disk(&disk_req(Some(700), true), &active).unwrap(), 700);
    assert_eq!(plan_create_disk(&disk_req(Some(600), false), &active).unwrap(), 600);
}

#[test]
fn root_disk_scheduling_requirements() {
    let object = |t: StorageObjectType, size: i64| StorageObject {
        id: 1,
        name: "o".to_string(),
        storage_pool_id: 0x10,
        object_type: t,
        size_bytes: size,
        config: config(&[]),
    };
    let local = pool(StoragePoolType::Local, StoragePoolStatus::Active, None, None);
    assert_eq!(root_disk_requirements(&object(StorageObjectType::Disk, 5), &local).unwrap(), (5, Some(0x10)));
    assert_eq!(root_disk_requirements(&object(StorageObjectType::Snapshot, -3), &local).unwrap(), (0, Some(0x10)));
    let obd = pool(StoragePoolType::OverlayBd, StoragePoolStatus::Active, None, None);
    assert_eq!(root_disk_requirements(&object(StorageObjectType::OciImage, 9), &obd).unwrap(), (9, None));
    assert_eq!(
        message(root_disk_requirements(&object(StorageObjectType::Iso, 9), &local)),
        "root_disk_object_id must reference a disk-like storage object"
    );
}

fn fields(c: &JsonConfig) -> Vec<(String, Option<String>, Option<i64>)> {
    c.fields.iter().map(|f| (f.key.clone(), f.text.clone(), f.number)).collect()
}

#[test]
fn new_object_paths_derive_from_pool_layout() {
    let pool_id: u128 = 0xaa;
    let id: u128 = 0x67e5504410b1426f9247bb680e5fe0c8;
    let mut local = pool(StoragePoolType::Local, StoragePoolStatus::Active, None, None);
    local.config = config(&[("path", "/srv/pool")]);
    let c = resolve_new_object(StorageObjectType::Disk, &config(&[]), Some(&local), pool_id, id).unwrap();
    assert_eq!(
        fields(&c),
        vec![("path".to_string(), Some("/srv/pool/67e55044-10b1-426f-9247-bb680e5fe0c8".to_string()), None)]
    );
    let nfs = pool(StoragePoolType::Nfs, StoragePoolStatus::Active, None, None);
    let c = resolve_new_object(StorageObjectType::DatabaseBackup, &config(&[]), Some(&nfs), pool_id, id).unwrap();
    assert_eq!(
        fields(&c),
        vec![(
            "path".to_string(),
            Some("/var/lib/qarax/pools/00000000-0000-0000-0000-0000000000aa/67e55044-10b1-426f-9247-bb680e5fe0c8.dump".to_string()),
            None
        )]
    );
    let c = resolve_new_object(StorageObjectType::OverlaybdUpper, &config(&[]), Some(&local), pool_id, id).unwrap();
    assert_eq!(
        fields(&c),
        vec![
            ("upper_data".to_string(), Some("/srv/pool/67e55044-10b1-426f-9247-bb680e5fe0c8.upper.data".to_string()), None),
            ("upper_index".to_string(), Some("/srv/pool/67e55044-10b1-426f-9247-bb680e5fe0c8.upper.index".to_string()), None),
        ]
    );
    assert!(resolve_new_object(StorageObjectType::Disk, &config(&[("path", "/given")]), Some(&local), pool_id, id).is_none());
    assert!(resolve_new_object(StorageObjectType::Disk, &config(&[]), None, pool_id, id).is_none());
    assert!(resolve_new_object(StorageObjectType::Iso, &config(&[]), Some(&local), pool_id, id).is_none());
}

#[test]
fn block_disks_get_portal_and_iqn() {
    let mut block = pool(StoragePoolType::Block, StoragePoolStatus::Active, None, None);
    block.config = config(&[("portal", "10.0.0.9:3260"), ("iqn", "iqn.2024-01.io.qarax:t")]);
    let request = JsonConfig {
        is_object: true,
        fields: vec![ConfigField { key: "lun".to_string(), text: None, number: Some(3) }],
    };
    let c = resolve_new_object(StorageObjectType::Disk, &request, Some(&block), 1, 2).unwrap();
    assert_eq!(
        fields(&c),
        vec![
            ("portal".to_string(), Some("10.0.0.9:3260".to_string()), None),
            ("iqn".to_string(), Some("iqn.2024-01.io.qarax:t".to_string()), None),
            ("lun".to_string(), None, Some(3)),
        ]
    );
    let local = pool(StoragePoolType::Local, StoragePoolStatus::Active, None, None);
    assert!(resolve_new_object(StorageObjectType::Disk, &request, Some(&local), 1, 2).is_none());
}

fn disk_req(size_bytes: Option<i64>, from_url: bool) -> CreateDiskRequest {
    CreateDiskRequest {
        name: "data".to_string(),
        size_bytes,
        source_url: if from_url { Some("https://images.example/jammy.qcow2".to_string()) } else { None },
        preallocate: false,
    }
}

#[test]
fn disk_creation_answers() {
    let o = disk_object(&disk_req(Some(4096), false), 0x10, 4096);
    assert_eq!(o.name, "data");
    assert_eq!(o.storage_pool_id, Some(0x10));
    assert!(matches!(o.object_type, StorageObjectType::Disk));
    assert_eq!(o.size_bytes, 4096);
    assert!(o.config.is_object && o.config.fields.is_empty());
    assert_eq!(disk_destination(&config(&[("path", "/srv/p/d.raw")])).unwrap(), "/srv/p/d.raw");
    assert!(matches!(disk_destination(&config(&[])), Err(Error::InternalServerError)));
    assert_eq!(
        disk_download_description("data", "https://img/x.qcow2"),
        "Creating disk data from https://img/x.qcow2"
    );
    let a = disk_download_accepted(0x5, 0x6);
    assert_eq!((a.status, a.storage_object_id, a.job_id), (202, 0x5, Some(0x6)));
    let (ok, del) = blank_disk_outcome(0x5, Ok(()));
    let ok = ok.unwrap();
    assert_eq!((ok.status, ok.job_id, del), (201, None, None));
    let (err, del) = blank_disk_outcome(0x5, Err("no space".to_string()));
    assert_eq!(message(err), "Failed to create disk on node: no space");
    assert_eq!(del, Some(0x5));
    match disk_download_outcome(0x5, Ok(77)).as_slice() {
        [DiskDownloadEffect::SetObjectSize(77), DiskDownloadEffect::MarkCompleted { storage_object_id: 0x5, bytes_written: 77 }] => {}
        other => panic!("unexpected {:?}", other),
    }
    match disk_download_outcome(0x5, Err("404".to_string())).as_slice() {
        [DiskDownloadEffect::MarkFailed(m), DiskDownloadEffect::DeleteObject(0x5)] => {
            assert_eq!(m, "Disk creation failed: 404")
        }
        other => panic!("unexpected {:?}", other),
    }
}
