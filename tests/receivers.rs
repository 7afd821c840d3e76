use obws::responses::{Identified, RequestResponse, Status};
use obws::{NotifyError, ReceiverList, ReidentifyReceiverList, StatusCode};
use tokio::sync::oneshot;

type Waiter = oneshot::Sender<(Status, serde_json::Value)>;

fn response(id: &str, code: StatusCode) -> RequestResponse {
    RequestResponse {
        request_type: String::from("GetVersion"),
        request_id: String::from(id),
        request_status: Status { result: code == StatusCode::Success, code, comment: None },
        response_data: serde_json::Value::Object(serde_json::Map::new()),
    }
}

fn deliver(list: &mut ReceiverList<Waiter>, resp: RequestResponse) -> Result<bool, NotifyError> {
    match list.notify(resp)? {
        Some(d) => {
            d.waiter.send((d.status, d.data)).ok();
            Ok(true)
        }
        None => Ok(false),
    }
}

#[test]
fn notify_delivers_once_to_matching_waiter() {
    let mut list: ReceiverList<Waiter> = ReceiverList::new();
    let (tx, mut rx) = oneshot::channel();
    list.add(7, tx);
    assert!(list.contains(7));
    assert_eq!(deliver(&mut list, response("7", StatusCode::Success)).unwrap(), true);
    let (status, data) = rx.try_recv().unwrap();
    assert!(status.result);
    assert_eq!(status.code, StatusCode::Success);
    assert_eq!(data, serde_json::Value::Object(serde_json::Map::new()));
    assert!(!list.contains(7));
    assert_eq!(deliver(&mut list, response("7", StatusCode::Success)).unwrap(), false);
    assert_eq!(list.len(), 0);
}

#[test]
fn notify_routes_by_id_not_order() {
    let mut list: ReceiverList<Waiter> = ReceiverList::new();
    let (tx1, mut rx1) = oneshot::channel();
    let (tx2, mut rx2) = oneshot::channel();
    list.add(1, tx1);
    list.add(2, tx2);
    deliver(&mut list, response("2", StatusCode::ResourceNotFound)).unwrap();
    assert!(rx1.try_recv().is_err());
    assert_eq!(rx2.try_recv().unwrap().0.code, StatusCode::ResourceNotFound);
    deliver(&mut list, response("1", StatusCode::Success)).unwrap();
    assert_eq!(rx1.try_recv().unwrap().0.code, StatusCode::Success);
}

#[test]
fn notify_after_consumer_dropped_is_harmless() {
    let mut list: ReceiverList<Waiter> = ReceiverList::new();
    let (tx, rx) = oneshot::channel();
    list.add(9, tx);
    drop(rx);
    assert_eq!(deliver(&mut list, response("9", StatusCode::Success)).unwrap(), true);
    assert!(!list.contains(9));
}

#[test]
fn reset_cancels_every_waiter() {
    let mut list: ReceiverList<Waiter> = ReceiverList::new();
    let (tx1, mut rx1) = oneshot::channel();
    let (tx2, mut rx2) = oneshot::channel();
    list.add(1, tx1);
    list.add(2, tx2);
    list.reset();
    assert_eq!(list.len(), 0);
    assert!(matches!(rx1.try_recv(), Err(oneshot::error::TryRecvError::Closed)));
    assert!(matches!(rx2.try_recv(), Err(oneshot::error::TryRecvError::Closed)));
    assert_eq!(deliver(&mut list, response("1", StatusCode::Success)).unwrap(), false);
}

#[test]
fn remove_drops_waiter_without_value() {
    let mut list: ReceiverList<Waiter> = ReceiverList::new();
    let (tx, mut rx) = oneshot::channel();
    list.add(3, tx);
    list.remove(3);
    list.remove(3);
    assert!(matches!(rx.try_recv(), Err(oneshot::error::TryRecvError::Closed)));
    assert_eq!(deliver(&mut list, response("3", StatusCode::Success)).unwrap(), false);
}

#[test]
fn add_replaces_waiter_with_same_id() {
    let mut list: ReceiverList<u32> = ReceiverList::new();
    list.add(5, 1);
    list.add(5, 2);
    assert_eq!(list.len(), 1);
    let d = list.notify(response("5", StatusCode::Success)).unwrap().unwrap();
    assert_eq!(d.waiter, 2);
}

#[test]
fn invalid_request_id_is_reported() {
    let mut list: ReceiverList<u32> = ReceiverList::new();
    list.add(4, 1);
    match list.notify(response("four", StatusCode::Success)) {
        Err(NotifyError::InvalidRequestId(text)) => assert_eq!(text, "four"),
        other => panic!("unexpected {:?}", other.map(|d| d.is_some())),
    }
    assert!(list.contains(4));
    assert!(list.notify(response("-4", StatusCode::Success)).is_err());
    assert!(list.contains(4));
}

#[test]
fn reidentify_waiters_are_served_oldest_first() {
    let mut queue: ReidentifyReceiverList<oneshot::Sender<Identified>> = ReidentifyReceiverList::new();
    let (tx_a, mut rx_a) = oneshot::channel();
    let (tx_b, mut rx_b) = oneshot::channel();
    queue.add(tx_a);
    queue.add(tx_b);
    let (w, x) = queue.notify(Identified { negotiated_rpc_version: 1 }).unwrap();
    w.send(x).ok();
    assert_eq!(rx_a.try_recv().unwrap().negotiated_rpc_version, 1);
    assert!(rx_b.try_recv().is_err());
    let (w, y) = queue.notify(Identified { negotiated_rpc_version: 2 }).unwrap();
    w.send(y).ok();
    assert_eq!(rx_b.try_recv().unwrap().negotiated_rpc_version, 2);
    assert!(queue.notify(Identified { negotiated_rpc_version: 3 }).is_none());
}

#[test]
fn reidentify_reset_cancels_waiters() {
    let mut queue: ReidentifyReceiverList<oneshot::Sender<Identified>> = ReidentifyReceiverList::new();
    let (tx, mut rx) = oneshot::channel();
    queue.add(tx);
    assert_eq!(queue.len(), 1);
    queue.reset();
    assert_eq!(queue.len(), 0);
    assert!(matches!(rx.try_recv(), Err(oneshot::error::TryRecvError::Closed)));
    assert!(queue.notify(Identified { negotiated_rpc_version: 1 }).is_none());
}
