//! The executable registry, verified against the model in `model`.
//!
//! The host environment that surrounds the registry supplies the caller
//! identity and keeps the aggregate alive between calls; every mutation entry
//! point here takes the caller identity as a plain argument. Each mutation
//! either applies fully — its result equals the model transition applied to
//! the prior state — or returns an error and leaves the registry unchanged.

use vstd::prelude::*;

use crate::model::ClusterCategory;
use crate::model::ClusterModel;
use crate::model::DEFAULT_REWARD_PER_COMPUTE_UNIT;
use crate::model::NetworkModel;
use crate::model::NodeKind;
use crate::model::NodeModel;
use crate::model::ProcessorFamily;
use crate::model::RegistryError;
use crate::model::TaskModel;
use crate::model::clusters_id_spec;
use crate::model::complete_task_err;
use crate::model::complete_task_spec;
use crate::model::first_node_with_addr;
use crate::model::has_node_with_addr;
use crate::model::initial_network;
use crate::model::lemma_first_node_with_addr;
use crate::model::new_cluster;
use crate::model::new_node;
use crate::model::register_cluster_spec;
use crate::model::register_node_spec;
use crate::model::submit_task_allowed;
use crate::model::submit_task_spec;
use crate::model::tasks_by_creator;

verus! {

/// A compute provider: an identity with cumulative contribution counters.
/// `reputation_score`, `uptime` and `last_active` are recorded but maintained
/// by no operation.
pub struct Node {
    pub addr: String,
    pub node_type: NodeKind,
    pub tasks_completed: u64,
    pub compute_time_contributed: u64,
    pub reputation_score: u64,
    pub uptime: u64,
    pub last_active: u64,
}

impl View for Node {
    type V = NodeModel;

    open spec fn view(&self) -> NodeModel {
        NodeModel {
            addr: self.addr@,
            node_type: self.node_type,
            tasks_completed: self.tasks_completed as nat,
            compute_time_contributed: self.compute_time_contributed as nat,
            reputation_score: self.reputation_score,
            uptime: self.uptime,
            last_active: self.last_active,
        }
    }
}

/// A registered group of nodes. Tasks submitted to a cluster live in the
/// network's global task list; the cluster records their global indices in
/// `task_ids`. The node collection starts empty and no operation populates
/// it; `head_node_id` is never set.
pub struct Cluster {
    pub head_node_id: Option<u64>,
    pub cluster_type: ClusterCategory,
    pub cluster_processor: ProcessorFamily,
    pub nodes: Vec<Node>,
    pub location: String,
    pub task_ids: Vec<u64>,
}

impl View for Cluster {
    type V = ClusterModel;

    open spec fn view(&self) -> ClusterModel {
        ClusterModel {
            head_node_id: self.head_node_id,
            cluster_type: self.cluster_type,
            cluster_processor: self.cluster_processor,
            nodes: self.nodes@.map_values(|n: Node| n@),
            location: self.location@,
            task_ids: self.task_ids@,
        }
    }
}

/// A unit of requested work, created by a caller and completed by at most
/// one node.
pub struct Task {
    pub creator: String,
    pub cluster_processor: ProcessorFamily,
    pub cluster_type: ClusterCategory,
    pub reward_amount: u64,
    pub completed: bool,
    pub completed_by: Option<String>,
}

impl View for Task {
    type V = TaskModel;

    open spec fn view(&self) -> TaskModel {
        TaskModel {
            creator: self.creator@,
            cluster_processor: self.cluster_processor,
            cluster_type: self.cluster_type,
            reward_amount: self.reward_amount,
            completed: self.completed,
            completed_by: match self.completed_by {
                Some(s) => Some(s@),
                None => None,
            },
        }
    }
}

/// The aggregate root: all clusters, the flat node collection, the flat task
/// collection, and the two global counters.
pub struct Network {
    pub clusters: Vec<Cluster>,
    pub nodes: Vec<Node>,
    pub tasks: Vec<Task>,
    pub total_compute_time: u64,
    pub reward_per_compute_unit: u64,
}

impl View for Network {
    type V = NetworkModel;

    open spec fn view(&self) -> NetworkModel {
        NetworkModel {
            clusters: self.clusters@.map_values(|c: Cluster| c@),
            nodes: self.nodes@.map_values(|n: Node| n@),
            tasks: self.tasks@.map_values(|t: Task| t@),
            total_compute_time: self.total_compute_time as nat,
            reward_per_compute_unit: self.reward_per_compute_unit,
        }
    }
}

/// The registry as the host sees it: one aggregate, mutated one call at a
/// time.
pub struct Contract {
    pub network: Network,
}

impl View for Contract {
    type V = NetworkModel;

    open spec fn view(&self) -> NetworkModel {
        self.network@
    }
}

/// An empty network, as both `Default::default` and `init` build it.
fn empty_network() -> (n: Network)
    ensures
        n@ == initial_network(),
{
    let n = Network {
        clusters: Vec::new(),
        nodes: Vec::new(),
        tasks: Vec::new(),
        total_compute_time: 0,
        reward_per_compute_unit: DEFAULT_REWARD_PER_COMPUTE_UNIT,
    };
    proof {
        assert(n@.clusters =~= initial_network().clusters);
        assert(n@.nodes =~= initial_network().nodes);
        assert(n@.tasks =~= initial_network().tasks);
    }
    n
}

impl Default for Contract {
    /// A fresh registry holds the empty network.
    fn default() -> (c: Contract)
        ensures
            c@ == initial_network(),
            c@.wf(),
    {
        Contract { network: empty_network() }
    }
}

impl Contract {
    /// Resets the registry to the empty state, discarding any prior
    /// clusters, nodes and tasks. Idempotent; no error conditions.
    pub fn init(&mut self)
        ensures
            final(self)@ == initial_network(),
            final(self)@.wf(),
    {
        self.network = empty_network();
    }

    /// Registers a new cluster and returns its index. Every input is
    /// accepted. The caller identity is not recorded: cluster ownership is
    /// not part of this ledger's contract.
    pub fn register_cluster(
        &mut self,
        cluster_type: ClusterCategory,
        cluster_processor: ProcessorFamily,
        location: String,
    ) -> (idx: u64)
        requires
            old(self)@.wf(),
        ensures
            final(self)@ == register_cluster_spec(
                old(self)@,
                cluster_type,
                cluster_processor,
                location@,
            ),
            final(self)@.wf(),
            idx == old(self)@.clusters.len(),
    {
        let idx = self.network.clusters.len() as u64;
        let cluster = Cluster {
            head_node_id: None,
            cluster_type,
            cluster_processor,
            nodes: Vec::new(),
            location,
            task_ids: Vec::new(),
        };
        proof {
            assert(cluster@.nodes =~= Seq::<NodeModel>::empty());
            assert(cluster@.task_ids =~= Seq::<u64>::empty());
        }
        self.network.clusters.push(cluster);
        proof {
            assert(self@.clusters =~= old(self)@.clusters.push(
                new_cluster(cluster_type, cluster_processor, location@),
            ));
            assert(self@.nodes =~= old(self)@.nodes);
            assert(self@.tasks =~= old(self)@.tasks);
        }
        idx
    }

    /// Seeds a node with the given address into the flat node collection and
    /// returns its index. Every input is accepted; the node's cumulative
    /// counters start at zero.
    pub fn register_node(&mut self, addr: String, node_type: NodeKind) -> (idx: u64)
        requires
            old(self)@.wf(),
        ensures
            final(self)@ == register_node_spec(old(self)@, addr@, node_type),
            final(self)@.wf(),
            idx == old(self)@.nodes.len(),
    {
        let idx = self.network.nodes.len() as u64;
        let node = Node {
            addr,
            node_type,
            tasks_completed: 0,
            compute_time_contributed: 0,
            reputation_score: 0,
            uptime: 0,
            last_active: 0,
        };
        self.network.nodes.push(node);
        proof {
            assert(self@.nodes =~= old(self)@.nodes.push(new_node(addr@, node_type)));
            assert(self@.clusters =~= old(self)@.clusters);
            assert(self@.tasks =~= old(self)@.tasks);
        }
        idx
    }

    /// Submits a task to the cluster at `cluster_id` and returns the task's
    /// new global index. Fails with `NotFound`, leaving the registry
    /// unchanged, exactly when the cluster index does not resolve.
    pub fn submit_task(
        &mut self,
        signer: String,
        cluster_id: u64,
        cluster_processor: ProcessorFamily,
        cluster_type: ClusterCategory,
        reward: u64,
    ) -> (r: Result<u64, RegistryError>)
        requires
            old(self)@.wf(),
        ensures
            final(self)@.wf(),
            match r {
                Ok(idx) => submit_task_allowed(old(self)@, cluster_id)
                    && idx == old(self)@.tasks.len()
                    && final(self)@ == submit_task_spec(
                    old(self)@,
                    signer@,
                    cluster_id,
                    cluster_processor,
                    cluster_type,
                    reward,
                ),
                Err(e) => e == RegistryError::NotFound && !submit_task_allowed(
                    old(self)@,
                    cluster_id,
                ) && final(self)@ == old(self)@,
            },
    {
        if cluster_id >= self.network.clusters.len() as u64 {
            return Err(RegistryError::NotFound);
        }
        let idx = self.network.tasks.len() as u64;
        let task = Task {
            creator: signer,
            cluster_processor,
            cluster_type,
            reward_amount: reward,
            completed: false,
            completed_by: None,
        };
        self.network.tasks.push(task);
        let cid = cluster_id as usize;
        let cluster = &mut self.network.clusters[cid];
        cluster.task_ids.push(idx);
        proof {
            let post = submit_task_spec(
                old(self)@,
                signer@,
                cluster_id,
                cluster_processor,
                cluster_type,
                reward,
            );
            assert(self@.tasks =~= post.tasks);
            assert(self@.clusters[cid as int].task_ids =~= post.clusters[cid as int].task_ids);
            assert(self@.clusters =~= post.clusters);
            assert(self@.nodes =~= post.nodes);
            assert(self@ == post);
        }
        Ok(idx)
    }

    /// Marks the task at `task_index` completed by the caller and credits
    /// the contribution, all-or-nothing: the first node carrying the
    /// caller's address has `tasks_completed` bumped by one and
    /// `compute_time_contributed` by `compute_time`, the task records the
    /// completer, and the global compute-time total grows by `compute_time`.
    /// Fails, leaving the registry unchanged: with `NotFound` when the task
    /// index does not resolve, `AlreadyCompleted` when the task was already
    /// completed, and `NotFound` when no registered node carries the
    /// caller's address.
    pub fn complete_task(
        &mut self,
        signer: String,
        task_index: u64,
        compute_time: u64,
    ) -> (r: Result<(), RegistryError>)
        requires
            old(self)@.wf(),
            old(self)@.total_compute_time + compute_time <= u64::MAX,
            forall|i: int|
                0 <= i < old(self)@.nodes.len() ==> (#[trigger] old(
                    self,
                )@.nodes[i]).tasks_completed + 1 <= u64::MAX && old(
                    self,
                )@.nodes[i].compute_time_contributed + compute_time <= u64::MAX,
        ensures
            final(self)@.wf(),
            match r {
                Ok(_) => complete_task_err(old(self)@, signer@, task_index) is None
                    && final(self)@ == complete_task_spec(
                    old(self)@,
                    signer@,
                    task_index,
                    compute_time,
                ),
                Err(e) => complete_task_err(old(self)@, signer@, task_index) == Some(e)
                    && final(self)@ == old(self)@,
            },
    {
        if task_index >= self.network.tasks.len() as u64 {
            return Err(RegistryError::NotFound);
        }
        let ti = task_index as usize;
        if self.network.tasks[ti].completed {
            return Err(RegistryError::AlreadyCompleted);
        }
        let n_nodes = self.network.nodes.len();
        let mut i: usize = 0;
        let mut found: bool = false;
        while !found && i < n_nodes
            invariant
                0 <= i <= n_nodes,
                n_nodes == self@.nodes.len(),
                forall|j: int| 0 <= j < i ==> (#[trigger] self@.nodes[j]).addr != signer@,
                found ==> i < n_nodes && self@.nodes[i as int].addr == signer@,
            decreases n_nodes - i + (if found { 0int } else { 1int }),
        {
            if self.network.nodes[i].addr == signer {
                found = true;
            } else {
                i += 1;
            }
        }
        proof {
            lemma_first_node_with_addr(self@.nodes, signer@);
        }
        if !found {
            proof {
                assert(!has_node_with_addr(self@.nodes, signer@));
            }
            return Err(RegistryError::NotFound);
        }
        proof {
            assert(first_node_with_addr(self@.nodes, signer@) == i as int);
        }
        let node = &mut self.network.nodes[i];
        node.tasks_completed = node.tasks_completed + 1;
        node.compute_time_contributed = node.compute_time_contributed + compute_time;
        let task = &mut self.network.tasks[ti];
        task.completed = true;
        task.completed_by = Some(signer);
        self.network.total_compute_time = self.network.total_compute_time + compute_time;
        proof {
            let post = complete_task_spec(old(self)@, signer@, task_index, compute_time);
            assert(self@.nodes =~= post.nodes);
            assert(self@.tasks =~= post.tasks);
            assert(self@.clusters =~= post.clusters);
            assert(self@ == post);
        }
        Ok(())
    }

    /// Looks up the task at `task_index` and returns its creator, completion
    /// flag, and completer identity, if any. Fails with `NotFound` exactly
    /// when the index does not resolve.
    pub fn query_task_info(&self, task_index: u64) -> (r: Result<
        (String, bool, Option<String>),
        RegistryError,
    >)
        ensures
            match r {
                Ok(info) => task_index < self@.tasks.len() && info.0@ == self@.tasks[task_index
                    as int].creator && info.1 == self@.tasks[task_index as int].completed
                    && (match info.2 {
                    Some(s) => self@.tasks[task_index as int].completed_by == Some(s@),
                    None => self@.tasks[task_index as int].completed_by is None,
                }),
                Err(e) => e == RegistryError::NotFound && task_index >= self@.tasks.len(),
            },
    {
        if task_index >= self.network.tasks.len() as u64 {
            return Err(RegistryError::NotFound);
        }
        let ti = task_index as usize;
        let task = &self.network.tasks[ti];
        let completed_by = match &task.completed_by {
            Some(s) => Some(s.clone()),
            None => None,
        };
        Ok((task.creator.clone(), task.completed, completed_by))
    }

    /// Returns the full ordered sequence of valid cluster indices,
    /// `0..cluster count`.
    pub fn query_clusters_id(&self) -> (r: Vec<u64>)
        ensures
            r@ == clusters_id_spec(self@),
    {
        let n = self.network.clusters.len();
        let mut r: Vec<u64> = Vec::new();
        let mut i: usize = 0;
        while i < n
            invariant
                0 <= i <= n,
                n == self@.clusters.len(),
                r@.len() == i,
                forall|k: int| 0 <= k < i ==> r@[k] == k as u64,
            decreases n - i,
        {
            r.push(i as u64);
            i += 1;
        }
        proof {
            assert(r@ =~= clusters_id_spec(self@));
        }
        r
    }

    /// Returns the list of global task indices recorded by the cluster at
    /// `cluster_id`. Fails with `NotFound` exactly when the cluster index
    /// does not resolve.
    pub fn query_cluster_tasks(&self, cluster_id: u64) -> (r: Result<Vec<u64>, RegistryError>)
        ensures
            match r {
                Ok(ids) => cluster_id < self@.clusters.len() && ids@ == self@.clusters[cluster_id
                    as int].task_ids,
                Err(e) => e == RegistryError::NotFound && cluster_id >= self@.clusters.len(),
            },
    {
        if cluster_id >= self.network.clusters.len() as u64 {
            return Err(RegistryError::NotFound);
        }
        let cid = cluster_id as usize;
        let ids = &self.network.clusters[cid].task_ids;
        let n = ids.len();
        let mut r: Vec<u64> = Vec::new();
        let mut i: usize = 0;
        while i < n
            invariant
                0 <= i <= n,
                n == ids@.len(),
                r@ =~= ids@.take(i as int),
            decreases n - i,
        {
            r.push(ids[i]);
            i += 1;
        }
        proof {
            assert(r@ =~= self@.clusters[cluster_id as int].task_ids);
        }
        Ok(r)
    }

    /// Returns the global indices of every task created by `account_id`, in
    /// ascending order; empty for an identity that created none.
    pub fn query_tasks(&self, account_id: String) -> (r: Vec<u64>)
        ensures
            r@ == tasks_by_creator(self@.tasks, account_id@),
    {
        let n = self.network.tasks.len();
        let mut r: Vec<u64> = Vec::new();
        let mut i: usize = 0;
        while i < n
            invariant
                0 <= i <= n,
                n == self@.tasks.len(),
                r@ == tasks_by_creator(self@.tasks.take(i as int), account_id@),
            decreases n - i,
        {
            let matched = self.network.tasks[i].creator == account_id;
            if matched {
                r.push(i as u64);
            }
            proof {
                let taken = self@.tasks.take(i + 1);
                assert(taken.drop_last() =~= self@.tasks.take(i as int));
                assert(taken.last() == self@.tasks[i as int]);
            }
            i += 1;
        }
        proof {
            assert(self@.tasks.take(n as int) =~= self@.tasks);
        }
        r
    }
}

} // verus!
