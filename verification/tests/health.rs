use gateway::status::{
    get_status, report_status, GatewayStatus, StatusResponse, SVC_DEGRADED_THRESHOLD,
};
use tokio::sync::mpsc::channel;

const QUEUE_SIZE: usize = 2048;

#[test]
fn responses_as_json() {
    assert_eq!(
        StatusResponse::healthy().to_json(),
        b"{\"status\":\"healthy\"}".to_vec()
    );
    assert_eq!(
        StatusResponse::degraded().to_json(),
        b"{\"status\":\"degraded\"}".to_vec()
    );
    assert_eq!(
        StatusResponse::unhealthy().to_json(),
        b"{\"status\":\"unhealthy\"}".to_vec()
    );
}

#[test]
fn responses_hold_their_status() {
    assert_eq!(StatusResponse::healthy().status(), GatewayStatus::Healthy);
    assert_eq!(StatusResponse::degraded().status(), GatewayStatus::Degraded);
    assert_eq!(
        StatusResponse::unhealthy().status(),
        GatewayStatus::Unhealthy
    );
    assert_eq!(GatewayStatus::Healthy.as_str(), "healthy");
}

#[test]
fn thresholds() {
    assert_eq!(SVC_DEGRADED_THRESHOLD, 128);

    let reply = report_status(false, QUEUE_SIZE, QUEUE_SIZE, QUEUE_SIZE);
    assert_eq!(reply.code, 200);
    assert_eq!(reply.body, StatusResponse::healthy().to_json());

    let reply = report_status(false, 1920, 1920, QUEUE_SIZE);
    assert_eq!(reply.code, 200);
    assert_eq!(reply.body, StatusResponse::healthy().to_json());

    let reply = report_status(false, 1919, 1919, QUEUE_SIZE);
    assert_eq!(reply.code, 200);
    assert_eq!(reply.body, StatusResponse::degraded().to_json());

    let reply = report_status(false, 0, QUEUE_SIZE, QUEUE_SIZE);
    assert_eq!(reply.code, 500);
    assert_eq!(reply.body, StatusResponse::unhealthy().to_json());

    let reply = report_status(true, QUEUE_SIZE, QUEUE_SIZE, QUEUE_SIZE);
    assert_eq!(reply.code, 500);
    assert_eq!(reply.body, StatusResponse::unhealthy().to_json());
}

#[test]
fn a_queue_that_fills_up_between_two_looks_is_degraded() {
    let reply = report_status(false, 1, 0, QUEUE_SIZE);
    assert_eq!(reply.code, 200);
    assert_eq!(reply.body, StatusResponse::degraded().to_json());
}

#[test]
fn a_smallest_queue_is_never_degraded() {
    let reply = report_status(false, 1, 1, SVC_DEGRADED_THRESHOLD);
    assert_eq!(reply.body, StatusResponse::healthy().to_json());
}

#[test]
fn more_room_is_never_worse() {
    let mut worst: Option<usize> = None;
    for capacity in 0..=QUEUE_SIZE {
        let reply = report_status(false, capacity, capacity, QUEUE_SIZE);
        let severity = [
            StatusResponse::healthy(),
            StatusResponse::degraded(),
            StatusResponse::unhealthy(),
        ]
        .iter()
        .position(|response| response.to_json() == reply.body)
        .unwrap();
        if let Some(before) = worst {
            assert!(severity <= before);
        }
        worst = Some(severity);
    }
    assert_eq!(worst, Some(0));
}

#[test]
fn a_real_queue() {
    let (sender, mut receiver) = channel::<u32>(QUEUE_SIZE);
    let healthy = StatusResponse::healthy().to_json();
    let degraded = StatusResponse::degraded().to_json();
    let unhealthy = StatusResponse::unhealthy().to_json();

    for task in 0..128 {
        sender.try_send(task).unwrap();
    }
    assert_eq!(get_status(&sender, QUEUE_SIZE).body, healthy);

    sender.try_send(128).unwrap();
    assert_eq!(get_status(&sender, QUEUE_SIZE).body, degraded);

    for task in 129..2048 {
        sender.try_send(task).unwrap();
    }
    assert_eq!(get_status(&sender, QUEUE_SIZE).body, unhealthy);
    assert_eq!(get_status(&sender, QUEUE_SIZE).code, 500);

    receiver.try_recv().unwrap();
    assert_eq!(get_status(&sender, QUEUE_SIZE).body, degraded);
    assert_eq!(get_status(&sender, QUEUE_SIZE).code, 200);

    receiver.close();
    assert_eq!(get_status(&sender, QUEUE_SIZE).body, unhealthy);
}

#[test]
fn looking_leaves_the_queue_as_it_is() {
    let (sender, _receiver) = channel::<u32>(3);
    sender.try_send(1).unwrap();

    let first = get_status(&sender, QUEUE_SIZE);
    assert_eq!(sender.capacity(), 2);
    assert!(!sender.is_closed());
    assert_eq!(get_status(&sender, QUEUE_SIZE), first);
}
