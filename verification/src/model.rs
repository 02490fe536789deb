//! The mathematical model of the registry.
//!
//! Each entity of the ledger has a ghost counterpart built from `Seq`, `nat`
//! and plain values, and every mutation entry point is described by a
//! transition function over these models. The executable registry in
//! `registry` is verified to follow these transitions exactly.

use vstd::prelude::*;

verus! {

/// The kind of compute a node provides.
#[derive(Clone, Copy, PartialEq, Eq, Structural, Debug)]
pub enum NodeKind {
    Gpu,
    Cpu,
}

/// The category of work a cluster performs.
#[derive(Clone, Copy, PartialEq, Eq, Structural, Debug)]
pub enum ClusterCategory {
    Ray,
    MegaRay,
}

/// The processor family a cluster offers, or a task requests.
#[derive(Clone, Copy, PartialEq, Eq, Structural, Debug)]
pub enum ProcessorFamily {
    Gtx,
    GeforceGtx,
    Nvidia,
}

/// Why an operation was rejected. A rejected operation leaves the registry
/// exactly as it was.
#[derive(Clone, Copy, PartialEq, Eq, Structural, Debug)]
pub enum RegistryError {
    /// The referenced cluster, task, or node identity does not exist.
    NotFound,
    /// The task was already completed; completion is a one-way transition.
    AlreadyCompleted,
}

/// The reward rate configured at initialization. No operation consults it
/// after that; it is kept as explicit, currently inert, configuration.
pub const DEFAULT_REWARD_PER_COMPUTE_UNIT: u64 = 100;

/// Model of a compute provider. `reputation_score`, `uptime` and
/// `last_active` are recorded but maintained by no operation.
pub struct NodeModel {
    pub addr: Seq<char>,
    pub node_type: NodeKind,
    pub tasks_completed: nat,
    pub compute_time_contributed: nat,
    pub reputation_score: u64,
    pub uptime: u64,
    pub last_active: u64,
}

/// Model of a registered cluster. Tasks submitted to a cluster are owned by
/// the network's global task list; the cluster records only their global
/// indices in `task_ids`. The node collection is initialized empty and no
/// operation populates it.
pub struct ClusterModel {
    pub head_node_id: Option<u64>,
    pub cluster_type: ClusterCategory,
    pub cluster_processor: ProcessorFamily,
    pub nodes: Seq<NodeModel>,
    pub location: Seq<char>,
    pub task_ids: Seq<u64>,
}

/// Model of a unit of requested work. `completed` and `completed_by` move
/// together: a task is completed exactly when a completer is recorded.
pub struct TaskModel {
    pub creator: Seq<char>,
    pub cluster_processor: ProcessorFamily,
    pub cluster_type: ClusterCategory,
    pub reward_amount: u64,
    pub completed: bool,
    pub completed_by: Option<Seq<char>>,
}

/// Model of the whole aggregate: all clusters, a flat list of all nodes, a
/// flat list of all tasks, and the two global counters.
pub struct NetworkModel {
    pub clusters: Seq<ClusterModel>,
    pub nodes: Seq<NodeModel>,
    pub tasks: Seq<TaskModel>,
    pub total_compute_time: nat,
    pub reward_per_compute_unit: u64,
}

impl NetworkModel {
    /// Well-formedness of the aggregate: every task index recorded by a
    /// cluster refers to a live entry of the global task list, and a task is
    /// completed exactly when a completer is recorded.
    pub open spec fn wf(self) -> bool {
        &&& forall|c: int, k: int|
            0 <= c < self.clusters.len() && 0 <= k < self.clusters[c].task_ids.len()
                ==> (#[trigger] self.clusters[c].task_ids[k]) < self.tasks.len()
        &&& forall|t: int|
            0 <= t < self.tasks.len()
                ==> ((#[trigger] self.tasks[t]).completed <==> self.tasks[t].completed_by is Some)
    }
}

/// The empty registry: no clusters, nodes or tasks, zero cumulative compute
/// time, and the default reward rate.
pub open spec fn initial_network() -> NetworkModel {
    NetworkModel {
        clusters: Seq::empty(),
        nodes: Seq::empty(),
        tasks: Seq::empty(),
        total_compute_time: 0,
        reward_per_compute_unit: DEFAULT_REWARD_PER_COMPUTE_UNIT,
    }
}

/// A freshly registered cluster: no head node, empty node collection, no
/// recorded tasks.
pub open spec fn new_cluster(
    cluster_type: ClusterCategory,
    cluster_processor: ProcessorFamily,
    location: Seq<char>,
) -> ClusterModel {
    ClusterModel {
        head_node_id: None,
        cluster_type,
        cluster_processor,
        nodes: Seq::empty(),
        location,
        task_ids: Seq::empty(),
    }
}

/// Registering a cluster appends it to the cluster collection and touches
/// nothing else. Every input is accepted.
pub open spec fn register_cluster_spec(
    pre: NetworkModel,
    cluster_type: ClusterCategory,
    cluster_processor: ProcessorFamily,
    location: Seq<char>,
) -> NetworkModel {
    NetworkModel {
        clusters: pre.clusters.push(new_cluster(cluster_type, cluster_processor, location)),
        ..pre
    }
}

/// A freshly seeded node: all cumulative counters start at zero.
pub open spec fn new_node(addr: Seq<char>, node_type: NodeKind) -> NodeModel {
    NodeModel {
        addr,
        node_type,
        tasks_completed: 0,
        compute_time_contributed: 0,
        reputation_score: 0,
        uptime: 0,
        last_active: 0,
    }
}

/// Registering a node appends it to the flat node collection and touches
/// nothing else.
pub open spec fn register_node_spec(
    pre: NetworkModel,
    addr: Seq<char>,
    node_type: NodeKind,
) -> NetworkModel {
    NetworkModel { nodes: pre.nodes.push(new_node(addr, node_type)), ..pre }
}

/// A freshly submitted task: incomplete, with no completer recorded.
pub open spec fn new_task(
    creator: Seq<char>,
    cluster_processor: ProcessorFamily,
    cluster_type: ClusterCategory,
    reward_amount: u64,
) -> TaskModel {
    TaskModel {
        creator,
        cluster_processor,
        cluster_type,
        reward_amount,
        completed: false,
        completed_by: None,
    }
}

/// Task submission succeeds exactly when the cluster index resolves.
pub open spec fn submit_task_allowed(pre: NetworkModel, cluster_id: u64) -> bool {
    cluster_id < pre.clusters.len()
}

/// Submitting a task appends it to the global task list and records its new
/// global index in the target cluster's `task_ids`.
pub open spec fn submit_task_spec(
    pre: NetworkModel,
    creator: Seq<char>,
    cluster_id: u64,
    cluster_processor: ProcessorFamily,
    cluster_type: ClusterCategory,
    reward: u64,
) -> NetworkModel {
    let c = pre.clusters[cluster_id as int];
    let new_index = pre.tasks.len() as u64;
    NetworkModel {
        tasks: pre.tasks.push(new_task(creator, cluster_processor, cluster_type, reward)),
        clusters: pre.clusters.update(
            cluster_id as int,
            ClusterModel { task_ids: c.task_ids.push(new_index), ..c },
        ),
        ..pre
    }
}

/// Whether some node of the flat collection carries the given address.
pub open spec fn has_node_with_addr(nodes: Seq<NodeModel>, addr: Seq<char>) -> bool {
    exists|i: int| 0 <= i < nodes.len() && (#[trigger] nodes[i]).addr == addr
}

/// The position of the first node carrying the given address, or
/// `nodes.len()` when none does.
pub open spec fn first_node_with_addr(nodes: Seq<NodeModel>, addr: Seq<char>) -> int
    decreases nodes.len(),
{
    if nodes.len() == 0 {
        0
    } else if nodes[0].addr == addr {
        0
    } else {
        1 + first_node_with_addr(nodes.drop_first(), addr)
    }
}

/// `first_node_with_addr` indeed names the first match: it stays in bounds
/// exactly when a match exists, lands on a node with the given address, and
/// no earlier node carries it.
pub proof fn lemma_first_node_with_addr(nodes: Seq<NodeModel>, addr: Seq<char>)
    ensures
        0 <= first_node_with_addr(nodes, addr) <= nodes.len(),
        has_node_with_addr(nodes, addr) <==> first_node_with_addr(nodes, addr) < nodes.len(),
        first_node_with_addr(nodes, addr) < nodes.len()
            ==> nodes[first_node_with_addr(nodes, addr)].addr == addr,
        forall|j: int|
            0 <= j < first_node_with_addr(nodes, addr) ==> (#[trigger] nodes[j]).addr != addr,
    decreases nodes.len(),
{
    if nodes.len() == 0 {
        assert(!has_node_with_addr(nodes, addr));
    } else if nodes[0].addr == addr {
        assert(has_node_with_addr(nodes, addr));
    } else {
        let rest = nodes.drop_first();
        lemma_first_node_with_addr(rest, addr);
        assert(forall|k: int| 0 <= k < rest.len() ==> rest[k] == nodes[k + 1]);
        if has_node_with_addr(nodes, addr) {
            let w = choose|i: int|
                0 <= i < nodes.len() && (#[trigger] nodes[i]).addr == addr;
            assert(w != 0);
            assert(rest[w - 1] == nodes[w]);
            assert(has_node_with_addr(rest, addr));
        }
        if has_node_with_addr(rest, addr) {
            let w = choose|i: int| 0 <= i < rest.len() && (#[trigger] rest[i]).addr == addr;
            assert(nodes[w + 1] == rest[w]);
            assert(has_node_with_addr(nodes, addr));
        }
        assert forall|j: int|
            0 <= j < first_node_with_addr(nodes, addr) implies (#[trigger] nodes[j]).addr
            != addr by {
            if j > 0 {
                assert(nodes[j] == rest[j - 1]);
            }
        }
    }
}

/// The error, if any, that completing `task_index` as `signer` meets, in the
/// order the checks are made: an unresolved task index, then an already
/// completed task, then an unknown completer identity.
pub open spec fn complete_task_err(
    pre: NetworkModel,
    signer: Seq<char>,
    task_index: u64,
) -> Option<RegistryError> {
    if pre.tasks.len() <= task_index {
        Some(RegistryError::NotFound)
    } else if pre.tasks[task_index as int].completed {
        Some(RegistryError::AlreadyCompleted)
    } else if !has_node_with_addr(pre.nodes, signer) {
        Some(RegistryError::NotFound)
    } else {
        None
    }
}

/// A successful completion, as one atomic step: the first node carrying the
/// signer's address has its counters bumped, the task is marked completed by
/// the signer, and the global compute-time total grows by the contribution.
pub open spec fn complete_task_spec(
    pre: NetworkModel,
    signer: Seq<char>,
    task_index: u64,
    compute_time: u64,
) -> NetworkModel {
    let i = first_node_with_addr(pre.nodes, signer);
    let n = pre.nodes[i];
    let t = pre.tasks[task_index as int];
    NetworkModel {
        nodes: pre.nodes.update(
            i,
            NodeModel {
                tasks_completed: n.tasks_completed + 1,
                compute_time_contributed: n.compute_time_contributed + compute_time as nat,
                ..n
            },
        ),
        tasks: pre.tasks.update(
            task_index as int,
            TaskModel { completed: true, completed_by: Some(signer), ..t },
        ),
        total_compute_time: pre.total_compute_time + compute_time as nat,
        ..pre
    }
}

/// What the cluster-index query returns: the full ordered sequence of valid
/// cluster indices.
pub open spec fn clusters_id_spec(pre: NetworkModel) -> Seq<u64> {
    Seq::new(pre.clusters.len(), |i: int| i as u64)
}

/// What the tasks-by-creator query returns: the global indices of the tasks
/// created by `creator`, in ascending order.
pub open spec fn tasks_by_creator(tasks: Seq<TaskModel>, creator: Seq<char>) -> Seq<u64>
    decreases tasks.len(),
{
    if tasks.len() == 0 {
        Seq::empty()
    } else {
        let prefix = tasks_by_creator(tasks.drop_last(), creator);
        if tasks.last().creator == creator {
            prefix.push((tasks.len() - 1) as u64)
        } else {
            prefix
        }
    }
}

} // verus!
