//! What a host's initialisation derives from what its node reports and from
//! the pools on record: the NUMA nodes recorded for the host, and the shared
//! pools it still has to join.
use vstd::prelude::*;

use crate::storage::StoragePool;
use crate::text::{dec_int, i64_to_string, join, join_strings, views};

verus! {

/// A NUMA node as the node reports it.
#[derive(Debug)]
pub struct NodeNumaNode {
    pub id: i32,
    pub cpus: Vec<i32>,
    pub memory_bytes: i64,
    pub distances: Vec<i32>,
}

/// A NUMA node as it is recorded for its host.
#[derive(Debug)]
pub struct NumaNodeDiscovery {
    pub node_id: i32,
    pub cpu_list: String,
    pub memory_bytes: Option<i64>,
    pub distances: Vec<i32>,
}

/// The CPUs as a comma-separated list of their numbers, in the order given.
pub open spec fn cpu_list_text(cpus: Seq<i32>) -> Seq<char> {
    join(cpus.map_values(|c: i32| dec_int(c as int)), ","@)
}

/// The record of a reported NUMA node: a memory size only when one was
/// reported (a size of zero or less means none).
pub open spec fn discovery_of(n: NodeNumaNode, d: NumaNodeDiscovery) -> bool {
    &&& d.node_id == n.id
    &&& d.cpu_list@ == cpu_list_text(n.cpus@)
    &&& d.memory_bytes == (if n.memory_bytes > 0 {
        Some(n.memory_bytes)
    } else {
        None
    })
    &&& d.distances@ == n.distances@
}

fn copy_i32s(v: &Vec<i32>) -> (r: Vec<i32>)
    ensures
        r@ == v@,
{
    let mut r: Vec<i32> = Vec::new();
    for i in 0..v.len()
        invariant
            r@ == v@.take(i as int),
    {
        r.push(v[i]);
        assert(r@ =~= v@.take(i + 1));
    }
    assert(v@.take(v.len() as int) =~= v@);
    r
}

/// The record of one reported NUMA node.
pub fn numa_discovery(n: &NodeNumaNode) -> (d: NumaNodeDiscovery)
    ensures
        discovery_of(*n, d),
{
    let mut parts: Vec<String> = Vec::new();
    for i in 0..n.cpus.len()
        invariant
            views(parts@) == n.cpus@.take(i as int).map_values(|c: i32| dec_int(c as int)),
    {
        let ghost before = parts@;
        let t = i64_to_string(n.cpus[i] as i64);
        parts.push(t);
        assert(views(parts@) =~= views(before).push(t@));
        assert(n.cpus@.take(i + 1).map_values(|c: i32| dec_int(c as int)) =~= n.cpus@.take(i as int).map_values(
            |c: i32| dec_int(c as int),
        ).push(dec_int(n.cpus@[i as int] as int)));
    }
    assert(n.cpus@.take(n.cpus.len() as int) =~= n.cpus@);
    let cpu_list = join_strings(&parts, ",");
    NumaNodeDiscovery {
        node_id: n.id,
        cpu_list,
        memory_bytes: if n.memory_bytes > 0 {
            Some(n.memory_bytes)
        } else {
            None
        },
        distances: copy_i32s(&n.distances),
    }
}

/// The records of all reported NUMA nodes, in order.
pub fn numa_discoveries(nodes: &[NodeNumaNode]) -> (r: Vec<NumaNodeDiscovery>)
    ensures
        r.len() == nodes.len(),
        forall|i: int| 0 <= i < nodes.len() ==> discovery_of(nodes@[i], #[trigger] r@[i]),
{
    let mut r: Vec<NumaNodeDiscovery> = Vec::new();
    for i in 0..nodes.len()
        invariant
            r.len() == i,
            forall|k: int| 0 <= k < i ==> discovery_of(nodes@[k], #[trigger] r@[k]),
    {
        r.push(numa_discovery(&nodes[i]));
    }
    r
}

/// The ids of a list of pools.
pub open spec fn pool_ids(pools: Seq<StoragePool>) -> Seq<u128> {
    pools.map_values(|p: StoragePool| p.id)
}

/// Whether a host that is in the pools `joined` still has to join `p`: a
/// shared pool it is not in.
pub open spec fn to_join(p: StoragePool, joined: Seq<u128>) -> bool {
    p.pool_type.spec_is_shared() && !joined.contains(p.id)
}

/// The positions in `all`, ascending, of the shared pools that the host,
/// already in the pools `existing`, has not joined.
pub fn pools_to_join(existing: &[StoragePool], all: &[StoragePool]) -> (r: Vec<usize>)
    ensures
        forall|k: int| 0 <= k < r.len() ==> r@[k] < all.len() && to_join(all@[r@[k] as int], pool_ids(existing@)),
        forall|k: int, l: int| 0 <= k < l < r.len() ==> r@[k] < r@[l],
        forall|i: int| 0 <= i < all.len() && to_join(all@[i], pool_ids(existing@)) ==> r@.contains(i as usize),
{
    let ghost ids = pool_ids(existing@);
    let mut r: Vec<usize> = Vec::new();
    for i in 0..all.len()
        invariant
            ids == pool_ids(existing@),
            forall|k: int| 0 <= k < r.len() ==> r@[k] < i && to_join(all@[r@[k] as int], ids),
            forall|k: int, l: int| 0 <= k < l < r.len() ==> r@[k] < r@[l],
            forall|j: int| 0 <= j < i && to_join(all@[j], ids) ==> r@.contains(j as usize),
    {
        let mut joined = false;
        for k in 0..existing.len()
            invariant
                ids == pool_ids(existing@),
                ids.len() == existing.len(),
                i < all.len(),
                joined <==> exists|m: int| 0 <= m < k && ids[m] == all@[i as int].id,
        {
            assert(ids[k as int] == existing@[k as int].id);
            if existing[k].id == all[i].id {
                joined = true;
            }
        }
        proof {
            if ids.contains(all@[i as int].id) {
                let m = choose|m: int| 0 <= m < ids.len() && ids[m] == all@[i as int].id;
                assert(0 <= m < existing.len());
            }
        }
        if all[i].pool_type.is_shared() && !joined {
            let ghost before = r@;
            r.push(i);
            assert(r@[r.len() - 1] == i);
            assert forall|j: int| 0 <= j < i + 1 && to_join(all@[j], ids) implies r@.contains(j as usize) by {
                if j < i {
                    let w = choose|w: int| 0 <= w < before.len() && before[w] == j as usize;
                    assert(r@[w] == j as usize);
                }
            }
        }
    }
    r
}

} // verus!
