//! Laws of the registry: properties relating several operations, proved
//! over the transition functions of `model`.

use vstd::prelude::*;

use crate::model::ClusterCategory;
use crate::model::NetworkModel;
use crate::model::ProcessorFamily;
use crate::model::RegistryError;
use crate::model::TaskModel;
use crate::model::clusters_id_spec;
use crate::model::complete_task_err;
use crate::model::complete_task_spec;
use crate::model::first_node_with_addr;
use crate::model::lemma_first_node_with_addr;
use crate::model::register_cluster_spec;
use crate::model::tasks_by_creator;

verus! {

/// A well-formed registry never shows a torn completion: a task is marked
/// completed exactly when a completer is recorded.
pub proof fn lemma_no_torn_completion(m: NetworkModel, t: int)
    requires
        m.wf(),
        0 <= t < m.tasks.len(),
    ensures
        m.tasks[t].completed <==> m.tasks[t].completed_by is Some,
{
}

/// Completing the same task twice always fails the second time with
/// `AlreadyCompleted`, whoever makes the second attempt; and a successful
/// completion bumps the counters of exactly the first node carrying the
/// signer's address, exactly once, leaving every other node untouched.
pub proof fn lemma_complete_task_repeated(
    pre: NetworkModel,
    signer1: Seq<char>,
    ct1: u64,
    signer2: Seq<char>,
    task_index: u64,
)
    requires
        complete_task_err(pre, signer1, task_index) is None,
    ensures
        complete_task_err(
            complete_task_spec(pre, signer1, task_index, ct1),
            signer2,
            task_index,
        ) == Some(RegistryError::AlreadyCompleted),
        complete_task_spec(
            pre,
            signer1,
            task_index,
            ct1,
        ).nodes[first_node_with_addr(pre.nodes, signer1)].tasks_completed == pre.nodes[first_node_with_addr(
            pre.nodes,
            signer1,
        )].tasks_completed + 1,
        complete_task_spec(
            pre,
            signer1,
            task_index,
            ct1,
        ).nodes[first_node_with_addr(pre.nodes, signer1)].compute_time_contributed == pre.nodes[first_node_with_addr(
            pre.nodes,
            signer1,
        )].compute_time_contributed + ct1,
        forall|j: int|
            0 <= j < pre.nodes.len() && j != first_node_with_addr(pre.nodes, signer1)
                ==> complete_task_spec(pre, signer1, task_index, ct1).nodes[j] == pre.nodes[j],
        complete_task_spec(pre, signer1, task_index, ct1).total_compute_time
            == pre.total_compute_time + ct1,
{
    lemma_first_node_with_addr(pre.nodes, signer1);
    let post = complete_task_spec(pre, signer1, task_index, ct1);
    assert(post.tasks[task_index as int].completed);
}

/// Registering a cluster and then querying the cluster indices yields a
/// sequence exactly one longer, whose new element — its maximum — equals the
/// prior cluster count.
pub proof fn lemma_register_cluster_then_query_clusters_id(
    pre: NetworkModel,
    cluster_type: ClusterCategory,
    cluster_processor: ProcessorFamily,
    location: Seq<char>,
)
    requires
        pre.clusters.len() < u64::MAX,
    ensures
        clusters_id_spec(register_cluster_spec(pre, cluster_type, cluster_processor, location)).len()
            == clusters_id_spec(pre).len() + 1,
        clusters_id_spec(
            register_cluster_spec(pre, cluster_type, cluster_processor, location),
        ).last() == pre.clusters.len() as u64,
        forall|k: int|
            0 <= k < clusters_id_spec(
                register_cluster_spec(pre, cluster_type, cluster_processor, location),
            ).len() ==> clusters_id_spec(
                register_cluster_spec(pre, cluster_type, cluster_processor, location),
            )[k] <= pre.clusters.len() as u64,
{
}

/// `tasks_by_creator` returns exactly the indices of the tasks created by
/// `creator`: every listed index names such a task, every such task is
/// listed, the listing is strictly ascending, and an identity that created
/// no task gets the empty listing.
pub proof fn lemma_tasks_by_creator(tasks: Seq<TaskModel>, creator: Seq<char>)
    requires
        tasks.len() <= u64::MAX,
    ensures
        forall|k: int|
            0 <= k < tasks_by_creator(tasks, creator).len() ==> (#[trigger] tasks_by_creator(
                tasks,
                creator,
            )[k]) < tasks.len() && tasks[tasks_by_creator(tasks, creator)[k] as int].creator
                == creator,
        forall|t: int|
            0 <= t < tasks.len() && (#[trigger] tasks[t]).creator == creator
                ==> tasks_by_creator(tasks, creator).contains(t as u64),
        forall|k1: int, k2: int|
            0 <= k1 < k2 < tasks_by_creator(tasks, creator).len()
                ==> (#[trigger] tasks_by_creator(tasks, creator)[k1]) < (#[trigger] tasks_by_creator(
                tasks,
                creator,
            )[k2]),
        (forall|t: int| 0 <= t < tasks.len() ==> (#[trigger] tasks[t]).creator != creator)
            ==> tasks_by_creator(tasks, creator).len() == 0,
    decreases tasks.len(),
{
    if tasks.len() == 0 {
    } else {
        let prefix_tasks = tasks.drop_last();
        lemma_tasks_by_creator(prefix_tasks, creator);
        let prefix = tasks_by_creator(prefix_tasks, creator);
        let whole = tasks_by_creator(tasks, creator);
        assert(forall|t: int| 0 <= t < prefix_tasks.len() ==> prefix_tasks[t] == tasks[t]);
        assert forall|t: int|
            0 <= t < tasks.len() && (#[trigger] tasks[t]).creator == creator implies whole.contains(
            t as u64,
        ) by {
            if t < tasks.len() - 1 {
                assert(prefix.contains(t as u64));
                let k = choose|k: int| 0 <= k < prefix.len() && prefix[k] == t as u64;
                assert(whole[k] == t as u64);
            } else {
                assert(tasks.last().creator == creator);
                assert(whole.last() == t as u64);
            }
        }
    }
}

} // verus!
