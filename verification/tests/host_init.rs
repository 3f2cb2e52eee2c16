use qarax::host_init::{numa_discoveries, numa_discovery, pools_to_join, NodeNumaNode};
use qarax::model::{StoragePoolStatus, StoragePoolType};
use qarax::storage::{JsonConfig, StoragePool};

#[test]
fn reported_numa_nodes_become_records() {
    let n = NodeNumaNode { id: 1, cpus: vec![8, 9, 10, 11], memory_bytes: 34359738368, distances: vec![21, 10] };
    let d = numa_discovery(&n);
    assert_eq!(d.node_id, 1);
    assert_eq!(d.cpu_list, "8,9,10,11");
    assert_eq!(d.memory_bytes, Some(34359738368));
    assert_eq!(d.distances, vec![21, 10]);
    let none = NodeNumaNode { id: 0, cpus: vec![], memory_bytes: 0, distances: vec![] };
    let all = numa_discoveries(&[none, n]);
    assert_eq!(all.len(), 2);
    assert_eq!(all[0].cpu_list, "");
    assert_eq!(all[0].memory_bytes, None);
    assert_eq!(all[1].cpu_list, "8,9,10,11");
}

fn pool(id: u128, pool_type: StoragePoolType) -> StoragePool {
    StoragePool {
        id,
        name: format!("p{}", id),
        pool_type,
        status: StoragePoolStatus::Active,
        capacity_bytes: None,
        allocated_bytes: None,
        config: JsonConfig { is_object: true, fields: vec![] },
    }
}

#[test]
fn host_joins_only_new_shared_pools() {
    let existing = vec![pool(1, StoragePoolType::Local), pool(2, StoragePoolType::Nfs)];
    let all = vec![
        pool(1, StoragePoolType::Local),
        pool(2, StoragePoolType::Nfs),
        pool(3, StoragePoolType::OverlayBd),
        pool(4, StoragePoolType::Local),
        pool(5, StoragePoolType::Block),
    ];
    assert_eq!(pools_to_join(&existing, &all), vec![2, 4]);
    assert!(pools_to_join(&all, &all).is_empty());
}
