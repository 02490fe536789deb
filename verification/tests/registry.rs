use compute_registry::model::ClusterCategory;
use compute_registry::model::NodeKind;
use compute_registry::model::ProcessorFamily;
use compute_registry::model::RegistryError;
use compute_registry::registry::Contract;

#[test]
fn fresh_registry_is_empty() {
    let c = Contract::default();
    assert_eq!(c.network.clusters.len(), 0);
    assert_eq!(c.network.nodes.len(), 0);
    assert_eq!(c.network.tasks.len(), 0);
    assert_eq!(c.network.total_compute_time, 0);
    assert_eq!(c.network.reward_per_compute_unit, 100);
    assert_eq!(c.query_clusters_id(), Vec::<u64>::new());
    assert_eq!(c.query_tasks(String::from("alice")), Vec::<u64>::new());
}

#[test]
fn register_cluster_grows_query_clusters_id_by_one() {
    let mut c = Contract::default();
    for round in 0..4u64 {
        let before = c.query_clusters_id();
        let idx = c.register_cluster(
            ClusterCategory::Ray,
            ProcessorFamily::Gtx,
            String::from("us-east"),
        );
        let after = c.query_clusters_id();
        assert_eq!(after.len(), before.len() + 1);
        assert_eq!(idx, round);
        // The new maximum of the index sequence equals the prior length.
        assert_eq!(after.iter().copied().max(), Some(before.len() as u64));
    }
    assert_eq!(c.query_clusters_id(), vec![0, 1, 2, 3]);
}

#[test]
fn submit_task_unknown_cluster_is_not_found() {
    let mut c = Contract::default();
    for _ in 0..5 {
        c.register_cluster(
            ClusterCategory::MegaRay,
            ProcessorFamily::Nvidia,
            String::from("eu-west"),
        );
    }
    // Five clusters registered: index 5 does not resolve.
    let r = c.submit_task(
        String::from("alice"),
        5,
        ProcessorFamily::Nvidia,
        ClusterCategory::MegaRay,
        1000,
    );
    assert_eq!(r, Err(RegistryError::NotFound));
    assert_eq!(c.network.tasks.len(), 0);
}

#[test]
fn submit_complete_scenario() {
    let mut c = Contract::default();
    let cluster = c.register_cluster(
        ClusterCategory::Ray,
        ProcessorFamily::Gtx,
        String::from("us-east"),
    );
    assert_eq!(cluster, 0);
    assert_eq!(c.query_clusters_id(), vec![0]);

    let task = c.submit_task(
        String::from("alice"),
        0,
        ProcessorFamily::Gtx,
        ClusterCategory::Ray,
        1000,
    );
    assert_eq!(task, Ok(0));
    assert_eq!(c.query_cluster_tasks(0), Ok(vec![0]));

    // No node carries bob's identity yet: completion is rejected whole.
    let rejected = c.complete_task(String::from("bob"), 0, 50);
    assert_eq!(rejected, Err(RegistryError::NotFound));
    assert_eq!(c.network.total_compute_time, 0);
    let info = c.query_task_info(0).unwrap();
    assert_eq!(info.0, String::from("alice"));
    assert!(!info.1);
    assert_eq!(info.2, None);

    // Seeding a node with that identity makes the retry succeed.
    let node = c.register_node(String::from("bob"), NodeKind::Gpu);
    assert_eq!(node, 0);
    let done = c.complete_task(String::from("bob"), 0, 50);
    assert_eq!(done, Ok(()));
    assert_eq!(c.network.nodes[0].tasks_completed, 1);
    assert_eq!(c.network.nodes[0].compute_time_contributed, 50);
    assert_eq!(c.network.total_compute_time, 50);
    let info = c.query_task_info(0).unwrap();
    assert_eq!(info.0, String::from("alice"));
    assert!(info.1);
    assert_eq!(info.2, Some(String::from("bob")));
}

#[test]
fn complete_task_twice_is_already_completed() {
    let mut c = Contract::default();
    c.register_cluster(ClusterCategory::Ray, ProcessorFamily::Gtx, String::from("us-east"));
    c.submit_task(
        String::from("alice"),
        0,
        ProcessorFamily::Gtx,
        ClusterCategory::Ray,
        10,
    )
    .unwrap();
    c.register_node(String::from("bob"), NodeKind::Cpu);
    c.register_node(String::from("carol"), NodeKind::Cpu);

    assert_eq!(c.complete_task(String::from("bob"), 0, 7), Ok(()));
    // The second attempt fails whoever makes it, and counters stay put.
    assert_eq!(
        c.complete_task(String::from("bob"), 0, 7),
        Err(RegistryError::AlreadyCompleted)
    );
    assert_eq!(
        c.complete_task(String::from("carol"), 0, 3),
        Err(RegistryError::AlreadyCompleted)
    );
    assert_eq!(c.network.nodes[0].tasks_completed, 1);
    assert_eq!(c.network.nodes[0].compute_time_contributed, 7);
    assert_eq!(c.network.nodes[1].tasks_completed, 0);
    assert_eq!(c.network.total_compute_time, 7);
}

#[test]
fn complete_task_unknown_index_is_not_found() {
    let mut c = Contract::default();
    c.register_node(String::from("bob"), NodeKind::Gpu);
    assert_eq!(c.complete_task(String::from("bob"), 0, 1), Err(RegistryError::NotFound));
}

#[test]
fn complete_task_credits_first_matching_node() {
    let mut c = Contract::default();
    c.register_cluster(ClusterCategory::Ray, ProcessorFamily::Gtx, String::from("x"));
    c.submit_task(String::from("a"), 0, ProcessorFamily::Gtx, ClusterCategory::Ray, 1)
        .unwrap();
    c.register_node(String::from("dup"), NodeKind::Gpu);
    c.register_node(String::from("dup"), NodeKind::Cpu);
    assert_eq!(c.complete_task(String::from("dup"), 0, 9), Ok(()));
    assert_eq!(c.network.nodes[0].tasks_completed, 1);
    assert_eq!(c.network.nodes[0].compute_time_contributed, 9);
    assert_eq!(c.network.nodes[1].tasks_completed, 0);
    assert_eq!(c.network.nodes[1].compute_time_contributed, 0);
}

#[test]
fn query_tasks_lists_exactly_the_creators_tasks_in_order() {
    let mut c = Contract::default();
    c.register_cluster(ClusterCategory::Ray, ProcessorFamily::Gtx, String::from("us"));
    c.register_cluster(ClusterCategory::MegaRay, ProcessorFamily::Nvidia, String::from("eu"));
    let creators = ["alice", "bob", "alice", "alice", "bob"];
    for (k, who) in creators.iter().enumerate() {
        let r = c.submit_task(
            String::from(*who),
            (k % 2) as u64,
            ProcessorFamily::Gtx,
            ClusterCategory::Ray,
            k as u64,
        );
        assert_eq!(r, Ok(k as u64));
    }
    assert_eq!(c.query_tasks(String::from("alice")), vec![0, 2, 3]);
    assert_eq!(c.query_tasks(String::from("bob")), vec![1, 4]);
    assert_eq!(c.query_tasks(String::from("carol")), Vec::<u64>::new());
    assert_eq!(c.query_cluster_tasks(0), Ok(vec![0, 2, 4]));
    assert_eq!(c.query_cluster_tasks(1), Ok(vec![1, 3]));
    assert_eq!(c.query_cluster_tasks(2), Err(RegistryError::NotFound));
}

#[test]
fn query_task_info_unknown_index_is_not_found() {
    let c = Contract::default();
    assert_eq!(c.query_task_info(0), Err(RegistryError::NotFound));
}

#[test]
fn init_discards_all_prior_state() {
    let mut c = Contract::default();
    c.register_cluster(ClusterCategory::Ray, ProcessorFamily::Gtx, String::from("us"));
    c.submit_task(String::from("alice"), 0, ProcessorFamily::Gtx, ClusterCategory::Ray, 5)
        .unwrap();
    c.register_node(String::from("bob"), NodeKind::Gpu);
    c.complete_task(String::from("bob"), 0, 40).unwrap();
    assert_eq!(c.network.total_compute_time, 40);

    c.init();
    assert_eq!(c.network.clusters.len(), 0);
    assert_eq!(c.network.nodes.len(), 0);
    assert_eq!(c.network.tasks.len(), 0);
    assert_eq!(c.network.total_compute_time, 0);
    assert_eq!(c.network.reward_per_compute_unit, 100);
    assert_eq!(c.query_clusters_id(), Vec::<u64>::new());
    assert_eq!(c.query_task_info(0), Err(RegistryError::NotFound));
}

#[test]
fn register_cluster_records_its_inputs() {
    let mut c = Contract::default();
    c.register_cluster(
        ClusterCategory::MegaRay,
        ProcessorFamily::GeforceGtx,
        String::from("ap-south"),
    );
    let cl = &c.network.clusters[0];
    assert_eq!(cl.head_node_id, None);
    assert_eq!(cl.cluster_type, ClusterCategory::MegaRay);
    assert_eq!(cl.cluster_processor, ProcessorFamily::GeforceGtx);
    assert_eq!(cl.location, String::from("ap-south"));
    assert_eq!(cl.nodes.len(), 0);
    assert_eq!(cl.task_ids.len(), 0);
}

#[test]
fn submit_task_records_its_inputs() {
    let mut c = Contract::default();
    c.register_cluster(ClusterCategory::Ray, ProcessorFamily::Gtx, String::from("us"));
    c.submit_task(
        String::from("alice"),
        0,
        ProcessorFamily::Nvidia,
        ClusterCategory::MegaRay,
        1234,
    )
    .unwrap();
    let t = &c.network.tasks[0];
    assert_eq!(t.creator, String::from("alice"));
    assert_eq!(t.cluster_processor, ProcessorFamily::Nvidia);
    assert_eq!(t.cluster_type, ClusterCategory::MegaRay);
    assert_eq!(t.reward_amount, 1234);
    assert!(!t.completed);
    assert_eq!(t.completed_by, None);
}
