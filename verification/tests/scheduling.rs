use qarax::errors::Error;
use qarax::scheduling::{check_root_disk_host, chosen_host, evacuation_request, new_vm_request, vm_architecture};

fn refusal<T: std::fmt::Debug>(r: Result<T, Error>) -> String {
    match r {
        Err(Error::UnprocessableEntity(m)) => m,
        other => panic!("unexpected {:?}", other),
    }
}

#[test]
fn root_disk_host_attachment() {
    assert!(check_root_disk_host(0x5, None, false).is_ok());
    assert!(check_root_disk_host(0x5, Some(0x9), true).is_ok());
    assert_eq!(
        refusal(check_root_disk_host(0x67e5504410b1426f9247bb680e5fe0c8, Some(0x9), false)),
        "selected host is not attached to the storage pool backing root_disk_object_id 67e55044-10b1-426f-9247-bb680e5fe0c8"
    );
}

#[test]
fn scheduling_requests() {
    assert_eq!(vm_architecture(Some("aarch64".to_string()), "x86_64", known_architecture), "aarch64");
    assert_eq!(vm_architecture(Some("sparc".to_string()), "x86_64", known_architecture), "x86_64");
    assert_eq!(vm_architecture(None, "x86_64", known_architecture), "x86_64");
    let r = new_vm_request(1 << 30, 2, (5, Some(9)), "x86_64".to_string(), None);
    assert_eq!((r.memory_bytes, r.vcpus, r.disk_bytes, r.storage_pool_id), (1 << 30, 2, 5, Some(9)));
    assert_eq!(r.architecture.as_deref(), Some("x86_64"));
    assert!(r.required_network_ids.is_empty() && r.gpu.is_none());
    let e = evacuation_request(2 << 30, 4, None, &[Some(7), None, Some(3), Some(7)]);
    assert_eq!(e.disk_bytes, 0);
    let mut nets = e.required_network_ids.clone();
    nets.sort();
    assert_eq!(nets, vec![3, 7]);
    assert_eq!(chosen_host(Some(4u8)).unwrap(), 4);
    assert_eq!(
        refusal(chosen_host::<u8>(None)),
        "no hosts in UP state with sufficient resources available for scheduling"
    );
}

/// A stand-in for the architecture normaliser: it knows two names.
fn known_architecture(a: String) -> Option<String> {
    if a == "x86_64" || a == "aarch64" {
        Some(a)
    } else {
        None
    }
}
