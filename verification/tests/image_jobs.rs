use qarax::devices::VmDisk;
use qarax::errors::Error;
use qarax::image_jobs::{
    check_pool_host, import_description, import_object, pull_description, ImportToPoolRequest, ImageAction, ImageEffect, ImageJob,
    ImageOutcome, ImageStage, PoolImportAction, PoolImportEffect, PoolImportJob, PoolImportStage,
};
use qarax::model::HostStatus;
use qarax::model::{StorageObjectType, StoragePoolStatus, StoragePoolType, VmStatus};
use qarax::storage::{ConfigField, JsonConfig, StoragePool};

const VM: u128 = 0x67e5504410b1426f9247bb680e5fe0c8;

fn overlaybd_pool(url: Option<&str>) -> StoragePool {
    let fields = match url {
        Some(u) => vec![ConfigField { key: "url".to_string(), text: Some(u.to_string()), number: None }],
        None => vec![],
    };
    StoragePool {
        id: 0x77,
        name: "obd".to_string(),
        pool_type: StoragePoolType::OverlayBd,
        status: StoragePoolStatus::Active,
        capacity_bytes: None,
        allocated_bytes: None,
        config: JsonConfig { is_object: true, fields },
    }
}

fn disk(name: &str) -> VmDisk {
    VmDisk {
        id: 1,
        vm_id: VM,
        storage_object_id: None,
        logical_name: name.to_string(),
        device_path: format!("/dev/{}", name),
        boot_order: None,
        read_only: false,
        direct: false,
        vhost_user: false,
        vhost_socket: None,
        num_queues: 1,
        queue_size: 128,
        rate_limit_group: None,
        pci_segment: 0,
        serial_number: None,
        upper_storage_object_id: None,
    }
}

#[test]
fn virtiofs_image_job_runs_to_completion() {
    let mut job = ImageJob::new(VM, "docker.io/library/alpine:3".to_string(), None, None);
    assert!(matches!(job.action(), Some(ImageAction::MarkJobRunning)));
    assert!(job.advance(ImageOutcome::Done).is_empty());
    match job.action() {
        Some(ImageAction::PullImage(r)) => assert_eq!(r, "docker.io/library/alpine:3"),
        other => panic!("unexpected {:?}", other),
    }
    let e = job.advance(ImageOutcome::Pulled("sha256:abc".to_string()));
    assert!(matches!(e.as_slice(), [ImageEffect::SetProgress(50)]));
    match job.action() {
        Some(ImageAction::PersistFilesystem(f)) => {
            assert_eq!(f.vm_id, VM);
            assert_eq!(f.tag, "rootfs");
            assert_eq!(f.num_queues, Some(1));
            assert_eq!(f.queue_size, Some(1024));
            assert_eq!(f.pci_segment, None);
            assert_eq!(f.image_ref.as_deref(), Some("docker.io/library/alpine:3"));
            assert_eq!(f.image_digest.as_deref(), Some("sha256:abc"));
        }
        other => panic!("unexpected {:?}", other),
    }
    // A failure to record the filesystem does not fail the job.
    let e = job.advance(ImageOutcome::Failed("db down".to_string()));
    match e.as_slice() {
        [ImageEffect::SetVmStatus(VmStatus::Created), ImageEffect::MarkCompleted(d)] => assert_eq!(d, "sha256:abc"),
        other => panic!("unexpected {:?}", other),
    }
    assert_eq!(job.stage, ImageStage::Finished);
    assert!(job.action().is_none());
}

#[test]
fn failed_pull_leaves_vm_unknown() {
    let mut job = ImageJob::new(VM, "img".to_string(), None, None);
    job.advance(ImageOutcome::Done);
    let e = job.advance(ImageOutcome::Failed("not found".to_string()));
    match e.as_slice() {
        [ImageEffect::MarkFailed(m), ImageEffect::SetVmStatus(VmStatus::Unknown)] => {
            assert_eq!(m, "Failed to pull OCI image: not found")
        }
        other => panic!("unexpected {:?}", other),
    }
}

#[test]
fn overlaybd_pool_without_registry_fails_the_job() {
    let pool = overlaybd_pool(None);
    let mut job = ImageJob::new(VM, "img".to_string(), Some(&pool), None);
    let e = job.advance(ImageOutcome::Done);
    match e.as_slice() {
        [ImageEffect::MarkFailed(m), ImageEffect::SetVmStatus(VmStatus::Unknown)] => {
            assert_eq!(m, "OverlayBD pool config missing 'url' field")
        }
        other => panic!("unexpected {:?}", other),
    }
    assert_eq!(job.stage, ImageStage::Finished);
}

#[test]
fn overlaybd_image_job_with_upper_layer() {
    let pool = overlaybd_pool(Some("http://localhost:5000"));
    let mut job = ImageJob::new(VM, "docker.io/library/ubuntu:24.04".to_string(), Some(&pool), Some(0x88));
    assert!(job.advance(ImageOutcome::Done).is_empty());
    match job.action() {
        Some(ImageAction::ImportImage { image_ref, registry_url }) => {
            assert_eq!(image_ref, "docker.io/library/ubuntu:24.04");
            assert_eq!(registry_url, "http://localhost:5000");
        }
        other => panic!("unexpected {:?}", other),
    }
    // An outcome of the wrong kind changes nothing.
    assert!(job.advance(ImageOutcome::ObjectCreated(5)).is_empty());
    assert_eq!(job.stage, ImageStage::Import);
    let e = job.advance(ImageOutcome::Imported {
        image_ref: "localhost:5000/ubuntu:24.04".to_string(),
        digest: String::new(),
    });
    assert!(matches!(e.as_slice(), [ImageEffect::SetProgress(50)]));
    match job.action() {
        Some(ImageAction::CreateObject(o)) => {
            assert_eq!(o.name, "overlaybd-67e55044-10b1-426f-9247-bb680e5fe0c8");
            assert_eq!(o.storage_pool_id, Some(0x77));
            assert!(matches!(o.object_type, StorageObjectType::OciImage));
            assert_eq!(o.size_bytes, 0);
            assert!(o.config.is_object);
            assert_eq!(o.config.fields.len(), 3);
            assert_eq!(o.config.fields[0].key, "image_ref");
            assert_eq!(o.config.fields[0].text.as_deref(), Some("localhost:5000/ubuntu:24.04"));
            assert_eq!(o.config.fields[1].text.as_deref(), Some("http://localhost:5000"));
            assert_eq!(o.config.fields[2].key, "digest");
            assert_eq!(o.config.fields[2].text, None);
        }
        other => panic!("unexpected {:?}", other),
    }
    assert!(job.advance(ImageOutcome::ObjectCreated(0x100)).is_empty());
    assert!(matches!(job.action(), Some(ImageAction::ListDisks)));
    assert!(job.advance(ImageOutcome::DisksListed(vec![disk("disk0"), disk("disk2")])).is_empty());
    match job.action() {
        Some(ImageAction::CreateObject(o)) => {
            assert_eq!(o.name, "overlaybd-upper-67e55044-10b1-426f-9247-bb680e5fe0c8");
            assert_eq!(o.storage_pool_id, Some(0x88));
            assert!(matches!(o.object_type, StorageObjectType::OverlaybdUpper));
            assert!(o.config.is_object && o.config.fields.is_empty());
        }
        other => panic!("unexpected {:?}", other),
    }
    assert!(job.advance(ImageOutcome::ObjectCreated(0x101)).is_empty());
    match job.action() {
        Some(ImageAction::CreateDisk(d)) => {
            assert_eq!(d.vm_id, VM);
            assert_eq!(d.storage_object_id, 0x100);
            assert_eq!(d.logical_name, "disk1");
            assert_eq!(d.device_path, "/dev/disk1");
            assert_eq!(d.boot_order, 0);
            assert!(!d.read_only);
            assert_eq!(d.upper_storage_object_id, Some(0x101));
        }
        other => panic!("unexpected {:?}", other),
    }
    let e = job.advance(ImageOutcome::Failed("duplicate".to_string()));
    match e.as_slice() {
        [ImageEffect::DeleteObject(0x100), ImageEffect::DeleteObject(0x101), ImageEffect::MarkFailed(m), ImageEffect::SetVmStatus(VmStatus::Unknown)] => {
            assert_eq!(m, "Failed to persist OverlayBD disk record: duplicate")
        }
        other => panic!("unexpected {:?}", other),
    }
}

#[test]
fn overlaybd_upper_failure_deletes_the_image_object() {
    let pool = overlaybd_pool(Some("http://r"));
    let mut job = ImageJob::new(VM, "img".to_string(), Some(&pool), Some(0x88));
    job.advance(ImageOutcome::Done);
    job.advance(ImageOutcome::Imported { image_ref: "r/img".to_string(), digest: "sha256:1".to_string() });
    job.advance(ImageOutcome::ObjectCreated(0x200));
    job.advance(ImageOutcome::DisksListed(vec![]));
    let e = job.advance(ImageOutcome::Failed("full".to_string()));
    match e.as_slice() {
        [ImageEffect::DeleteObject(0x200), ImageEffect::MarkFailed(m), ImageEffect::SetVmStatus(VmStatus::Unknown)] => {
            assert_eq!(m, "Failed to create OverlaybdUpper storage object: full")
        }
        other => panic!("unexpected {:?}", other),
    }
}

#[test]
fn overlaybd_without_upper_completes_with_digest() {
    let pool = overlaybd_pool(Some("http://r"));
    let mut job = ImageJob::new(VM, "img".to_string(), Some(&pool), None);
    job.advance(ImageOutcome::Done);
    job.advance(ImageOutcome::Imported { image_ref: "r/img".to_string(), digest: "sha256:1".to_string() });
    match job.action() {
        Some(ImageAction::CreateObject(o)) => assert_eq!(o.config.fields[2].text.as_deref(), Some("sha256:1")),
        other => panic!("unexpected {:?}", other),
    }
    job.advance(ImageOutcome::ObjectCreated(0x200));
    job.advance(ImageOutcome::DisksListed(vec![]));
    match job.action() {
        Some(ImageAction::CreateDisk(d)) => {
            assert_eq!(d.logical_name, "disk0");
            assert_eq!(d.upper_storage_object_id, None);
        }
        other => panic!("unexpected {:?}", other),
    }
    let e = job.advance(ImageOutcome::Done);
    match e.as_slice() {
        [ImageEffect::SetVmStatus(VmStatus::Created), ImageEffect::MarkCompleted(d)] => assert_eq!(d, "sha256:1"),
        other => panic!("unexpected {:?}", other),
    }
}

#[test]
fn image_job_descriptions_and_import_object() {
    assert_eq!(pull_description("alpine:3"), "Pulling image alpine:3");
    assert_eq!(import_description("alpine:3", 0x77), "Importing alpine:3 into pool 00000000-0000-0000-0000-000000000077");
    let o = import_object(ImportToPoolRequest { name: "alpine".to_string(), image_ref: "alpine:3".to_string() }, 0x77);
    assert_eq!(o.name, "alpine");
    assert_eq!(o.storage_pool_id, Some(0x77));
    assert!(matches!(o.object_type, StorageObjectType::OciImage));
    assert_eq!(o.config.fields.len(), 1);
    assert_eq!(o.config.fields[0].key, "image_ref");
    assert_eq!(o.config.fields[0].text.as_deref(), Some("alpine:3"));
}

#[test]
fn pool_work_needs_an_up_host() {
    match check_pool_host(None) {
        Err(Error::UnprocessableEntity(m)) => assert_eq!(m, "No host attached to this storage pool"),
        other => panic!("unexpected {:?}", other),
    }
    match check_pool_host(Some(HostStatus::Down)) {
        Err(Error::UnprocessableEntity(m)) => assert_eq!(m, "No UP host attached to this storage pool"),
        other => panic!("unexpected {:?}", other),
    }
    assert!(check_pool_host(Some(HostStatus::Up)).is_ok());
}

#[test]
fn pool_import_job_success_and_failure() {
    let pool = overlaybd_pool(Some("http://r:5000"));
    let mut job = PoolImportJob::new(0x300, "alpine:3".to_string(), &pool.config);
    assert!(matches!(job.action(), Some(PoolImportAction::MarkJobRunning)));
    assert!(job.advance(ImageOutcome::Done).is_empty());
    match job.action() {
        Some(PoolImportAction::ImportImage { image_ref, registry_url }) => {
            assert_eq!(image_ref, "alpine:3");
            assert_eq!(registry_url, "http://r:5000");
        }
        other => panic!("unexpected {:?}", other),
    }
    let e = job.advance(ImageOutcome::Imported { image_ref: "r:5000/alpine:3".to_string(), digest: "sha256:9".to_string() });
    match e.as_slice() {
        [PoolImportEffect::UpdateObjectConfig(c), PoolImportEffect::MarkCompleted { image_ref, digest, storage_object_id }] => {
            assert_eq!(c.fields[0].text.as_deref(), Some("r:5000/alpine:3"));
            assert_eq!(c.fields[1].key, "digest");
            assert_eq!(c.fields[2].text.as_deref(), Some("http://r:5000"));
            assert_eq!(image_ref, "r:5000/alpine:3");
            assert_eq!(digest, "sha256:9");
            assert_eq!(*storage_object_id, 0x300);
        }
        other => panic!("unexpected {:?}", other),
    }
    assert_eq!(job.stage, PoolImportStage::Finished);

    let mut failing = PoolImportJob::new(0x301, "alpine:3".to_string(), &pool.config);
    failing.advance(ImageOutcome::Done);
    let e = failing.advance(ImageOutcome::Failed("unreachable".to_string()));
    match e.as_slice() {
        [PoolImportEffect::MarkFailed(m), PoolImportEffect::DeleteObject(0x301)] => {
            assert_eq!(m, "Failed to import OverlayBD image: unreachable")
        }
        other => panic!("unexpected {:?}", other),
    }

    let bare = overlaybd_pool(None);
    let mut no_registry = PoolImportJob::new(0x302, "alpine:3".to_string(), &bare.config);
    let e = no_registry.advance(ImageOutcome::Done);
    match e.as_slice() {
        [PoolImportEffect::MarkFailed(m)] => assert_eq!(m, "OverlayBD pool config missing 'url' field"),
        other => panic!("unexpected {:?}", other),
    }
}
