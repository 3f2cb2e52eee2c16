use qarax::config::VmDefaultsSettings;
use qarax::devices::{NetworkInfo, NetworkInterface, VmDisk};
use qarax::errors::Error;
use qarax::model::{BootMode, StorageObjectType, StoragePoolStatus, StoragePoolType};
use qarax::storage::{ConfigField, JsonConfig, StorageObject, StoragePool};
use qarax::vm_ops::PoolPlacement;
use qarax::vm_request::{
    build_create_vm_request, check_local_pools, cloud_init_meta_data, kernel_ip_params, numa_placement,
    numa_targets, resolve_boot_payload, resolve_disks, sandbox_vsock, vfio_devices, HostNumaNode,
    ResolvedBootSource, StoredDevices, Vm, VmFilesystem,
};

const VM_ID: u128 = 0x67e5504410b1426f9247bb680e5fe0c8;

fn defaults() -> VmDefaultsSettings {
    VmDefaultsSettings {
        kernel: "/var/lib/qarax/vmlinux".to_string(),
        firmware: None,
        initramfs: Some(String::new()),
        cmdline: "console=ttyS0".to_string(),
    }
}

fn text_config(pairs: &[(&str, &str)]) -> JsonConfig {
    JsonConfig {
        is_object: true,
        fields: pairs
            .iter()
            .map(|(k, v)| ConfigField { key: k.to_string(), text: Some(v.to_string()), number: None })
            .collect(),
    }
}

fn vm() -> Vm {
    Vm {
        id: VM_ID,
        name: "web".to_string(),
        host_id: Some(1),
        boot_mode: BootMode::Kernel,
        boot_vcpus: 2,
        max_vcpus: 4,
        memory_size: 1 << 30,
        memory_hotplug_size: None,
        memory_shared: false,
        memory_hugepages: false,
        cloud_init_user_data: None,
        cloud_init_meta_data: None,
        cloud_init_network_config: None,
        sandbox_exec: false,
    }
}

fn nic(device: &str, ip: Option<&str>, network: Option<u128>) -> NetworkInterface {
    NetworkInterface {
        network_id: network,
        device_id: device.to_string(),
        tap_name: None,
        mac_address: None,
        host_mac: None,
        ip_address: ip.map(|s| s.to_string()),
        mtu: 1500,
        vhost_user: false,
        vhost_socket: None,
        vhost_mode: None,
        num_queues: 1,
        queue_size: 256,
        offload_tso: true,
        offload_ufo: true,
        offload_csum: true,
        pci_segment: 0,
        iommu: false,
    }
}

fn pool(id: u128, pool_type: StoragePoolType, on_host: bool) -> PoolPlacement {
    PoolPlacement {
        pool: StoragePool {
            id,
            name: "p".to_string(),
            pool_type,
            status: StoragePoolStatus::Active,
            capacity_bytes: None,
            allocated_bytes: None,
            config: text_config(&[]),
        },
        on_host,
    }
}

fn disk(name: &str, object: Option<u128>) -> VmDisk {
    VmDisk {
        id: 1,
        vm_id: VM_ID,
        storage_object_id: object,
        logical_name: name.to_string(),
        device_path: format!("/dev/{}", name),
        boot_order: Some(0),
        read_only: false,
        direct: false,
        vhost_user: false,
        vhost_socket: None,
        num_queues: 1,
        queue_size: 128,
        rate_limit_group: None,
        pci_segment: 0,
        serial_number: None,
        upper_storage_object_id: None,
    }
}

fn object(id: u128, pool: u128, object_type: StorageObjectType, config: JsonConfig) -> StorageObject {
    StorageObject { id, name: "o".to_string(), storage_pool_id: pool, object_type, size_bytes: 0, config }
}

fn devices() -> StoredDevices {
    StoredDevices {
        nics: vec![],
        networks: vec![],
        bridges: vec![],
        disks: vec![],
        objects: vec![],
        pools: vec![],
        filesystems: vec![],
        gpu_pci_addresses: vec![],
    }
}

#[test]
fn boot_payload_resolution() {
    let p = resolve_boot_payload(BootMode::Kernel, &defaults(), None).unwrap();
    assert_eq!(p.kernel.as_deref(), Some("/var/lib/qarax/vmlinux"));
    assert_eq!(p.initramfs, None);
    assert_eq!(p.default_cmdline.as_deref(), Some("console=ttyS0"));
    match resolve_boot_payload(BootMode::Firmware, &defaults(), None) {
        Err(Error::UnprocessableEntity(m)) => assert_eq!(
            m,
            "firmware boot mode requires a firmware path (set vm_defaults.firmware or VM_FIRMWARE env var)"
        ),
        other => panic!("unexpected {:?}", other.map(|_| ())),
    }
    let mut d = defaults();
    d.firmware = Some("/fw.bin".to_string());
    let p = resolve_boot_payload(BootMode::Firmware, &d, None).unwrap();
    assert_eq!(p.firmware.as_deref(), Some("/fw.bin"));
    assert!(p.kernel.is_none() && p.default_cmdline.is_none());
    let source = ResolvedBootSource {
        kernel_path: "/k".to_string(),
        kernel_params: "quiet".to_string(),
        initramfs_path: Some("/i".to_string()),
    };
    let p = resolve_boot_payload(BootMode::Kernel, &defaults(), Some(Ok(source))).unwrap();
    assert_eq!(p.kernel.as_deref(), Some("/k"));
    assert_eq!(p.initramfs.as_deref(), Some("/i"));
    match resolve_boot_payload(BootMode::Kernel, &defaults(), Some(Err("not found".to_string()))) {
        Err(Error::UnprocessableEntity(m)) => assert_eq!(m, "Invalid boot_source_id: not found"),
        other => panic!("unexpected {:?}", other.map(|_| ())),
    }
}

#[test]
fn static_addresses_go_on_the_kernel_command_line() {
    let mut d = devices();
    d.nics = vec![nic("net0", Some("10.0.0.5/32"), Some(7)), nic("net1", Some("10.1.0.9"), Some(8))];
    d.networks = vec![
        Some(NetworkInfo {
            subnet: "10.0.0.0/24".to_string(),
            network_type: Some("bridge".to_string()),
            gateway: Some("10.0.0.1".to_string()),
            dns: Some("10.0.0.53".to_string()),
        }),
        Some(NetworkInfo {
            subnet: "10.1.0.0/16".to_string(),
            network_type: Some("passt".to_string()),
            gateway: None,
            dns: None,
        }),
    ];
    d.bridges = vec![Some("qbr0".to_string()), None];
    let r = build_create_vm_request(&vm(), &defaults(), None, &d, None).unwrap();
    assert_eq!(
        r.cmdline.as_deref(),
        Some("console=ttyS0 ip=10.0.0.5::10.0.0.1:255.255.255.0::eth0:off:10.0.0.53")
    );
    assert_eq!(r.networks[0].mask.as_deref(), Some("255.255.255.0"));
    assert_eq!(r.networks[0].bridge.as_deref(), Some("qbr0"));
    assert_eq!(r.networks[1].vhost_socket.as_deref(), Some("passt"));
    assert!(r.networks[1].ip.is_none());
    assert!(r.memory_shared);
    assert_eq!(kernel_ip_params(&r.networks, &d.networks), " ip=10.0.0.5::10.0.0.1:255.255.255.0::eth0:off:10.0.0.53");

    let mut with_cloud_init = vm();
    with_cloud_init.cloud_init_network_config = Some("version: 2".to_string());
    let r = build_create_vm_request(&with_cloud_init, &defaults(), None, &d, None).unwrap();
    assert_eq!(r.cmdline.as_deref(), Some("console=ttyS0"));
}

#[test]
fn overlaybd_root_disk_boots_through_injected_init() {
    let mut d = devices();
    d.disks = vec![disk("disk0", Some(50)), disk("scratch", None)];
    d.objects = vec![object(
        50,
        60,
        StorageObjectType::OciImage,
        text_config(&[("image_ref", "reg/app:1"), ("registry_url", "http://reg:5000")]),
    )];
    d.pools = vec![pool(60, StoragePoolType::OverlayBd, true)];
    let mut v = vm();
    v.memory_shared = true;
    let mut dflt = defaults();
    dflt.initramfs = Some("/initrd".to_string());
    let r = build_create_vm_request(&v, &dflt, None, &d, None).unwrap();
    assert_eq!(
        r.cmdline.as_deref(),
        Some("console=ttyS0 root=/dev/vda rw net.ifnames=0 biosdevname=0 init=/.qarax-init")
    );
    assert!(r.initramfs.is_none());
    assert!(!r.memory_shared);
    assert_eq!(r.disks.len(), 1);
    assert_eq!(r.disks[0].oci_image_ref.as_deref(), Some("reg/app:1"));
    assert_eq!(r.disks[0].registry_url.as_deref(), Some("http://reg:5000"));
}

#[test]
fn virtiofs_root_needs_shared_memory() {
    let mut d = devices();
    d.filesystems = vec![VmFilesystem {
        tag: "rootfs".to_string(),
        num_queues: 1,
        queue_size: 1024,
        pci_segment: 0,
        image_ref: Some("docker.io/library/ubuntu:22.04".to_string()),
    }];
    let r = build_create_vm_request(&vm(), &defaults(), None, &d, None).unwrap();
    assert_eq!(r.cmdline.as_deref(), Some("console=ttyS0 root=rootfs rootfstype=virtiofs rw init=/.qarax-init"));
    assert!(r.memory_shared);
    assert_eq!(r.fs_configs.len(), 1);
    assert_eq!(r.fs_configs[0].socket, "/var/lib/qarax/vms/67e55044-10b1-426f-9247-bb680e5fe0c8-fs0.sock");
    assert_eq!(
        r.fs_configs[0].bootstrap_path.as_deref(),
        Some("/var/lib/qarax/images/docker.io_library_ubuntu_22.04/rootfs")
    );
    assert_eq!(r.fs_configs[0].id.as_deref(), Some("fs0"));
}

#[test]
fn missing_objects_and_local_pools_are_refused() {
    let mut d = devices();
    d.disks = vec![disk("disk0", Some(50))];
    match build_create_vm_request(&vm(), &defaults(), None, &d, None) {
        Err(Error::NotFound) => {}
        other => panic!("unexpected {:?}", other.map(|_| ())),
    }
    assert!(resolve_disks(&d.disks, &[], &[]).is_err());
    d.objects = vec![object(50, 60, StorageObjectType::Disk, text_config(&[("path", "/d.raw")]))];
    d.pools = vec![pool(60, StoragePoolType::Local, false)];
    match build_create_vm_request(&vm(), &defaults(), None, &d, None) {
        Err(Error::UnprocessableEntity(m)) => assert_eq!(
            m,
            "Host 00000000-0000-0000-0000-000000000001 is not attached to local storage pool 00000000-0000-0000-0000-00000000003c"
        ),
        other => panic!("unexpected {:?}", other.map(|_| ())),
    }
    assert!(check_local_pools(None, &d.pools).is_ok());
    d.pools = vec![pool(60, StoragePoolType::Local, true)];
    let r = build_create_vm_request(&vm(), &defaults(), None, &d, None).unwrap();
    assert_eq!(r.disks[0].path.as_deref(), Some("/d.raw"));
}

#[test]
fn meta_data_devices_and_vsock() {
    assert_eq!(cloud_init_meta_data(&Some("given".to_string()), &None, VM_ID, "web").as_deref(), Some("given"));
    assert_eq!(cloud_init_meta_data(&None, &None, VM_ID, "web"), None);
    assert_eq!(
        cloud_init_meta_data(&None, &Some("#cloud-config".to_string()), VM_ID, "web").as_deref(),
        Some("instance-id: 67e55044-10b1-426f-9247-bb680e5fe0c8\nlocal-hostname: web\n")
    );
    let devices = vfio_devices(&["0000:00:01.0".to_string(), "0000:81:00.0".to_string()]);
    assert_eq!(devices[1].id, "gpu1");
    assert_eq!(devices[1].path, "/sys/bus/pci/devices/0000:81:00.0");
    assert_eq!(devices[0].iommu, Some(true));
    assert!(sandbox_vsock(false).is_none());
    assert_eq!(sandbox_vsock(true).unwrap().id.as_deref(), Some("sandbox-exec"));
}

#[test]
fn numa_placement_pins_vcpus_to_target_nodes() {
    assert_eq!(numa_targets(&[1, -1, 0, 1], Some(3)), vec![0, 1]);
    assert_eq!(numa_targets(&[], Some(3)), vec![3]);
    assert_eq!(numa_targets(&[], None), Vec::<i32>::new());
    let nodes = vec![
        HostNumaNode { node_id: 0, cpu_list: "0-1".to_string(), memory_bytes: None },
        HostNumaNode { node_id: 1, cpu_list: "2,3".to_string(), memory_bytes: None },
    ];
    let p = numa_placement(vec![1], &nodes, 2).unwrap();
    assert_eq!(p.host_numa_node_ids, vec![1]);
    assert_eq!(p.cpu_pinning.len(), 2);
    assert_eq!(p.cpu_pinning[1].vcpu, 1);
    assert_eq!(p.cpu_pinning[1].host_cpus, vec![2, 3]);
    assert_eq!(p.memory_zone_ids, vec!["zone0".to_string()]);
    assert!(numa_placement(vec![], &nodes, 2).is_none());
    assert!(numa_placement(vec![5], &nodes, 2).is_none());
    assert!(numa_placement(vec![0], &[], 2).is_none());
}

fn create_request(user_data: Option<&str>) -> qarax::vm_request::CreateVmRequest {
    qarax::vm_request::CreateVmRequest {
        vm_id: 0x42,
        boot_vcpus: 2,
        max_vcpus: 4,
        memory_size: 1 << 30,
        networks: vec![],
        kernel: Some(String::new()),
        firmware: Some("/fw/CLOUDHV.fd".to_string()),
        initramfs: Some("  ".to_string()),
        cmdline: Some("console=ttyS0".to_string()),
        fs_configs: vec![],
        memory_shared: true,
        memory_hotplug_size: Some(1 << 29),
        memory_hugepages: false,
        disks: vec![],
        cloud_init_user_data: user_data.map(|s| s.to_string()),
        cloud_init_meta_data: None,
        cloud_init_network_config: Some("version: 2".to_string()),
        devices: vec![],
        vsock: None,
        numa_placement: None,
    }
}

#[test]
fn migration_config_drops_empty_payload_and_numa() {
    let c = qarax::vm_request::migration_vm_config(create_request(Some("#cloud-config")));
    assert_eq!(c.vm_id, 0x42);
    assert_eq!((c.boot_vcpus, c.max_vcpus, c.memory_size), (2, 4, 1 << 30));
    assert_eq!(c.memory_hotplug_size, Some(1 << 29));
    assert_eq!(c.memory_shared, Some(true));
    assert_eq!(c.memory_hugepages, None);
    assert_eq!(c.kernel, None);
    assert_eq!(c.initramfs, None);
    assert_eq!(c.cmdline.as_deref(), Some("console=ttyS0"));
    assert_eq!(c.firmware.as_deref(), Some("/fw/CLOUDHV.fd"));
    assert!(matches!(c.serial, qarax::model::ConsoleMode::Pty));
    let ci = c.cloud_init.unwrap();
    assert_eq!(ci.user_data, "#cloud-config");
    assert_eq!(ci.meta_data, "");
    assert_eq!(ci.network_config, "version: 2");
    assert!(c.numa_placement.is_none());
    let none = qarax::vm_request::migration_vm_config(create_request(None));
    assert!(none.cloud_init.is_none());
}
