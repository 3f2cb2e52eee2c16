use qarax::devices::{NetworkInterface, VmDisk};
use qarax::errors::Error;
use qarax::model::{BootMode, Hypervisor};
use qarax::model::{StoragePoolStatus, StoragePoolType};
use qarax::storage::{JsonConfig, StoragePool};
use qarax::vm_create::{
    check_image_boot, check_persistent_upper_pool, inferred_network, merge_config, resolve_create_request, InstanceType, JsonValue, NewVm,
    template_root_disk, PoolLookup, VmTemplate,
};

fn new_vm() -> NewVm {
    NewVm {
        name: "web".to_string(),
        tags: None,
        vm_template_id: None,
        instance_type_id: None,
        hypervisor: None,
        architecture: None,
        boot_vcpus: None,
        max_vcpus: None,
        cpu_topology: None,
        kvm_hyperv: None,
        memory_size: None,
        memory_hotplug_size: None,
        memory_mergeable: None,
        memory_shared: None,
        memory_hugepages: None,
        memory_hugepage_size: None,
        memory_prefault: None,
        memory_thp: None,
        boot_source_id: None,
        root_disk_object_id: None,
        boot_mode: None,
        description: None,
        image_ref: None,
        cloud_init_user_data: None,
        cloud_init_meta_data: None,
        cloud_init_network_config: None,
        network_id: None,
        networks: None,
        security_group_ids: None,
        accelerator_config: None,
        numa_config: None,
        persistent_upper_pool_id: None,
        config: JsonValue::Object(vec![]),
    }
}

fn instance_type() -> InstanceType {
    InstanceType {
        id: 1,
        name: "small".to_string(),
        description: None,
        architecture: Some("x86_64".to_string()),
        boot_vcpus: 2,
        max_vcpus: 4,
        cpu_topology: None,
        kvm_hyperv: None,
        memory_size: 2048,
        memory_hotplug_size: Some(1024),
        memory_mergeable: None,
        memory_shared: None,
        memory_hugepages: Some(true),
        memory_hugepage_size: None,
        memory_prefault: None,
        memory_thp: None,
        accelerator_config: JsonValue::Object(vec![]),
        numa_config: Some(JsonValue::Null),
    }
}

fn template() -> VmTemplate {
    VmTemplate {
        id: 2,
        name: "base".to_string(),
        description: Some("from template".to_string()),
        hypervisor: Some(Hypervisor::Firecracker),
        boot_vcpus: Some(1),
        max_vcpus: Some(1),
        cpu_topology: None,
        kvm_hyperv: Some(true),
        memory_size: Some(512),
        memory_hotplug_size: None,
        memory_mergeable: None,
        memory_shared: None,
        memory_hugepages: Some(false),
        memory_hugepage_size: None,
        memory_prefault: None,
        memory_thp: None,
        boot_source_id: None,
        root_disk_object_id: None,
        boot_mode: Some(BootMode::Firmware),
        image_ref: None,
        cloud_init_user_data: None,
        cloud_init_meta_data: None,
        cloud_init_network_config: None,
        network_id: Some(9),
        networks: None,
        config: JsonValue::Object(vec![
            ("ha_enabled".to_string(), "true".to_string()),
            ("sandbox_exec".to_string(), "false".to_string()),
        ]),
    }
}

fn message(r: Result<qarax::vm_create::ResolvedNewVm, Error>) -> String {
    match r {
        Err(Error::UnprocessableEntity(m)) => m,
        Err(other) => panic!("unexpected {:?}", other),
        Ok(_) => panic!("unexpected success"),
    }
}

#[test]
fn request_needs_sizes_and_hypervisor() {
    assert_eq!(
        message(resolve_create_request(new_vm(), None, None, known_architecture)),
        "boot_vcpus is required unless provided by the selected instance type or VM template"
    );
    let r = NewVm { boot_vcpus: Some(4), max_vcpus: Some(2), ..new_vm() };
    assert_eq!(message(resolve_create_request(r, None, None, known_architecture)), "max_vcpus must be greater than or equal to boot_vcpus");
    let r = NewVm { boot_vcpus: Some(1), ..new_vm() };
    assert_eq!(
        message(resolve_create_request(r, None, None, known_architecture)),
        "hypervisor is required unless provided by the selected VM template"
    );
    let r = NewVm { boot_vcpus: Some(1), hypervisor: Some(Hypervisor::CloudHv), ..new_vm() };
    assert_eq!(
        message(resolve_create_request(r, None, None, known_architecture)),
        "memory_size is required unless provided by the selected instance type or VM template"
    );
}

#[test]
fn request_beats_instance_type_beats_template() {
    let r = NewVm { memory_size: Some(4096), ..new_vm() };
    let v = resolve_create_request(r, Some(instance_type()), Some(template()), known_architecture).unwrap();
    assert_eq!(v.boot_vcpus, 2);
    assert_eq!(v.max_vcpus, 4);
    assert_eq!(v.memory_size, 4096);
    assert_eq!(v.memory_hotplug_size, Some(1024));
    assert_eq!(v.memory_hugepages, Some(true));
    assert_eq!(v.kvm_hyperv, Some(true));
    assert_eq!(v.hypervisor, Hypervisor::Firecracker);
    assert_eq!(v.boot_mode, Some(BootMode::Firmware));
    assert_eq!(v.architecture.as_deref(), Some("x86_64"));
    assert_eq!(v.description.as_deref(), Some("from template"));
    assert_eq!(v.network_id, Some(9));
    assert!(v.accelerator_config.is_none());
    assert!(v.numa_config.is_none());
    assert!(v.tags.is_empty());
}

#[test]
fn max_vcpus_is_raised_to_boot_unless_requested() {
    let r = NewVm { boot_vcpus: Some(3), ..new_vm() };
    let v = resolve_create_request(r, None, Some(template()), known_architecture).unwrap();
    assert_eq!(v.boot_vcpus, 3);
    assert_eq!(v.max_vcpus, 3);
}

#[test]
fn template_config_is_merged_under_request_config() {
    let r = NewVm {
        config: JsonValue::Object(vec![("sandbox_exec".to_string(), "true".to_string())]),
        ..new_vm()
    };
    let v = resolve_create_request(r, None, Some(template()), known_architecture).unwrap();
    match v.config {
        JsonValue::Object(entries) => assert_eq!(
            entries,
            vec![
                ("ha_enabled".to_string(), "true".to_string()),
                ("sandbox_exec".to_string(), "true".to_string())
            ]
        ),
        other => panic!("unexpected {:?}", other),
    }
    assert!(matches!(
        merge_config(JsonValue::Object(vec![("a".to_string(), "1".to_string())]), JsonValue::Null),
        JsonValue::Object(e) if e.is_empty()
    ));
    assert!(matches!(
        merge_config(JsonValue::Null, JsonValue::Other("3".to_string())),
        JsonValue::Other(t) if t == "3"
    ));
}

#[test]
fn instance_type_accelerator_only_when_not_empty() {
    let mut it = instance_type();
    it.accelerator_config = JsonValue::Object(vec![("gpu_count".to_string(), "1".to_string())]);
    it.numa_config = Some(JsonValue::Object(vec![("numa_node".to_string(), "0".to_string())]));
    let v = resolve_create_request(NewVm { hypervisor: Some(Hypervisor::CloudHv), ..new_vm() }, Some(it), None, known_architecture).unwrap();
    assert!(matches!(v.accelerator_config, Some(JsonValue::Object(ref e)) if e.len() == 1));
    assert!(matches!(v.numa_config, Some(JsonValue::Object(_))));
}

fn defaults(firmware: Option<&str>) -> qarax::config::VmDefaultsSettings {
    qarax::config::VmDefaultsSettings {
        kernel: "/var/lib/qarax/vmlinux".to_string(),
        firmware: firmware.map(|s| s.to_string()),
        initramfs: None,
        cmdline: "console=ttyS0".to_string(),
    }
}

fn refusal(r: Result<(), Error>) -> String {
    match r {
        Err(Error::UnprocessableEntity(m)) => m,
        other => panic!("unexpected {:?}", other),
    }
}

#[test]
fn image_boot_checks() {
    assert!(check_image_boot(BootMode::Kernel, &defaults(None), None).is_ok());
    assert!(check_image_boot(BootMode::Kernel, &defaults(None), Some((5, true))).is_ok());
    assert_eq!(
        refusal(check_image_boot(BootMode::Kernel, &defaults(None), Some((0x67e5504410b1426f9247bb680e5fe0c8, false)))),
        "Invalid boot_source_id: 67e55044-10b1-426f-9247-bb680e5fe0c8"
    );
    assert!(check_image_boot(BootMode::Firmware, &defaults(Some("/fw/CLOUDHV.fd")), None).is_ok());
    assert_eq!(
        refusal(check_image_boot(BootMode::Firmware, &defaults(Some("")), None)),
        "firmware boot mode requires a firmware path (set vm_defaults.firmware or VM_FIRMWARE env var)"
    );
}

#[test]
fn persistent_upper_pool_checks() {
    let id: u128 = 0x67e5504410b1426f9247bb680e5fe0c8;
    let pool = |pool_type, status| {
        PoolLookup::Found(StoragePool {
            id,
            name: "up".to_string(),
            pool_type,
            status,
            capacity_bytes: None,
            allocated_bytes: None,
            config: JsonConfig { is_object: true, fields: vec![] },
        })
    };
    assert_eq!(
        refusal(check_persistent_upper_pool(id, &PoolLookup::NotFound, Some(true))),
        "persistent_upper_pool_id 67e55044-10b1-426f-9247-bb680e5fe0c8 not found"
    );
    assert!(matches!(
        check_persistent_upper_pool(id, &PoolLookup::Failed, Some(true)),
        Err(Error::InternalServerError)
    ));
    assert_eq!(
        refusal(check_persistent_upper_pool(id, &pool(StoragePoolType::Nfs, StoragePoolStatus::Inactive), Some(true))),
        "persistent_upper_pool_id 67e55044-10b1-426f-9247-bb680e5fe0c8 is not active"
    );
    assert_eq!(
        refusal(check_persistent_upper_pool(id, &pool(StoragePoolType::OverlayBd, StoragePoolStatus::Active), Some(true))),
        "persistent_upper_pool_id must be a Local or NFS pool"
    );
    assert_eq!(
        refusal(check_persistent_upper_pool(id, &pool(StoragePoolType::Local, StoragePoolStatus::Active), Some(false))),
        "persistent_upper_pool_id 67e55044-10b1-426f-9247-bb680e5fe0c8 is not attached to the selected host"
    );
    assert!(matches!(
        check_persistent_upper_pool(id, &pool(StoragePoolType::Local, StoragePoolStatus::Active), None),
        Err(Error::InternalServerError)
    ));
    assert!(check_persistent_upper_pool(id, &pool(StoragePoolType::Nfs, StoragePoolStatus::Active), Some(true)).is_ok());
}

fn disk(object: u128, boot_order: Option<i32>) -> VmDisk {
    VmDisk {
        id: object,
        vm_id: 1,
        storage_object_id: Some(object),
        logical_name: format!("disk{}", object),
        device_path: format!("/dev/disk{}", object),
        boot_order,
        read_only: false,
        direct: false,
        vhost_user: false,
        vhost_socket: None,
        num_queues: 1,
        queue_size: 128,
        rate_limit_group: None,
        pci_segment: 0,
        serial_number: None,
        upper_storage_object_id: None,
    }
}

fn iface(network_id: Option<u128>) -> NetworkInterface {
    NetworkInterface {
        network_id,
        device_id: "net0".to_string(),
        tap_name: None,
        mac_address: None,
        host_mac: None,
        ip_address: None,
        mtu: 1500,
        vhost_user: false,
        vhost_socket: None,
        vhost_mode: None,
        num_queues: 1,
        queue_size: 256,
        offload_tso: true,
        offload_ufo: true,
        offload_csum: true,
        pci_segment: 0,
        iommu: false,
    }
}

#[test]
fn template_from_vm_picks_root_disk_and_network() {
    assert_eq!(template_root_disk(&[disk(1, Some(1)), disk(2, Some(0))]), Some(2));
    assert_eq!(template_root_disk(&[disk(3, None), disk(4, Some(2))]), Some(3));
    assert_eq!(template_root_disk(&[]), None);
    assert_eq!(inferred_network(&[iface(Some(9))]), Some(9));
    assert_eq!(inferred_network(&[iface(Some(9)), iface(Some(8))]), None);
    assert_eq!(inferred_network(&[]), None);
}

/// A stand-in for the architecture normaliser: it knows two names.
fn known_architecture(a: String) -> Option<String> {
    if a == "x86_64" || a == "aarch64" {
        Some(a)
    } else {
        None
    }
}

#[test]
fn architecture_is_normalised_or_dropped() {
    let v = resolve_create_request(
        NewVm {
            hypervisor: Some(Hypervisor::CloudHv),
            architecture: Some("aarch64".to_string()),
            boot_vcpus: Some(1),
            memory_size: Some(512),
            ..new_vm()
        },
        None,
        None,
        known_architecture,
    )
    .unwrap();
    assert_eq!(v.architecture.as_deref(), Some("aarch64"));
    let v = resolve_create_request(
        NewVm {
            hypervisor: Some(Hypervisor::CloudHv),
            architecture: Some("sparc".to_string()),
            boot_vcpus: Some(1),
            memory_size: Some(512),
            ..new_vm()
        },
        None,
        None,
        known_architecture,
    )
    .unwrap();
    assert_eq!(v.architecture, None);
}
