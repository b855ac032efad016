use enki::device::{queues_to_retrieve, select_physical_device, select_queue_family, DeviceCandidate, QueueRequestShape};

fn dev(discrete: bool, families: Vec<u32>) -> DeviceCandidate {
    DeviceCandidate { is_discrete: discrete, queue_family_flags: families }
}

#[test]
fn discrete_compute_device_is_preferred() {
    let cands = vec![dev(false, vec![3]), dev(true, vec![1]), dev(true, vec![1, 2])];
    assert_eq!(select_physical_device(&cands), Ok(2));
    let cands = vec![dev(true, vec![1]), dev(false, vec![4, 3])];
    assert_eq!(select_physical_device(&cands), Ok(1));
    let cands = vec![dev(true, vec![1]), dev(false, vec![4])];
    assert_eq!(
        select_physical_device(&cands),
        Err("[ComputeEngine] No physical device with GPGPU/Compute support found".to_string())
    );
}

#[test]
fn queue_family_choice() {
    let families = vec![4, 2, 3];
    assert_eq!(select_queue_family(&families, false), Ok(1));
    assert_eq!(select_queue_family(&families, true), Ok(2));
    assert_eq!(select_queue_family(&vec![4, 2], true), Ok(1));
    assert_eq!(
        select_queue_family(&vec![1, 4], true),
        Err("[ComputeEngine] No queue family with Compute + Graphics support found".to_string())
    );
    assert_eq!(
        select_queue_family(&vec![1, 4], false),
        Err("[ComputeEngine] No queue family with Compute support found".to_string())
    );
}

#[test]
fn queues_follow_requests() {
    let reqs = vec![
        QueueRequestShape { family_index: 2, queue_count: 2 },
        QueueRequestShape { family_index: 0, queue_count: 0 },
        QueueRequestShape { family_index: 5, queue_count: 1 },
    ];
    assert_eq!(queues_to_retrieve(&reqs), vec![(2, 0), (2, 1), (5, 0)]);
}
