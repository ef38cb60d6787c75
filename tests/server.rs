use miniq::{
    AddTaskRequest, GetTaskRequest, MiniQServer, PumpAction, QueueError, TaskStatus,
    UpdateTaskRequest,
};

fn add(s: &mut MiniQServer, channel: &str, data: Vec<u8>) {
    let req = AddTaskRequest { channel: channel.to_string(), data };
    assert_eq!(s.add_task(req), Ok(()));
}

#[test]
fn subscribe_then_submit() {
    let mut s = MiniQServer::new();
    let req = GetTaskRequest { channel: "jobs".to_string(), status: 0 };
    let mut sub = s.get_tasks(&req).unwrap();
    assert!(sub.is_receiving());
    add(&mut s, "jobs", vec![0x01]);
    let t = sub.receiver().try_recv().unwrap();
    match sub.on_received(t) {
        PumpAction::Forward(w) => {
            assert_eq!(w.data, vec![0x01]);
            assert_eq!(w.status, 0);
            assert_eq!(w.channel, "jobs");
        }
        _ => panic!("expected a forward"),
    }
    assert!(sub.is_forwarding());
    assert!(matches!(sub.on_delivered(), PumpAction::Receive));
    assert!(sub.is_receiving());
    assert!(sub.receiver().try_recv().is_err());
}

#[test]
fn pump_passes_over_other_statuses() {
    let mut s = MiniQServer::new();
    let req = GetTaskRequest { channel: "ch".to_string(), status: 2 };
    let mut sub = s.get_tasks(&req).unwrap();
    assert_eq!(sub.status(), TaskStatus::Completed);
    add(&mut s, "ch", vec![3]);
    assert!(sub.receiver().try_recv().is_err());
    let listed = s.queue().get_tasks("ch", TaskStatus::Pending);
    let id = listed[0].id.clone();
    let mut other = listed[0].clone();
    other.status = TaskStatus::Failed;
    assert!(matches!(sub.on_received(other), PumpAction::Receive));
    assert!(sub.is_receiving());
    let up = UpdateTaskRequest { channel: "ch".to_string(), id: id.clone(), status: 2 };
    assert_eq!(s.update_task(up), Ok(()));
    let t = sub.receiver().try_recv().unwrap();
    assert_eq!(t.id, id);
    assert!(matches!(sub.on_received(t), PumpAction::Forward(_)));
}

#[test]
fn undelivered_task_goes_to_another_subscriber() {
    let mut s = MiniQServer::new();
    let req = GetTaskRequest { channel: "ch".to_string(), status: 0 };
    let mut x = s.get_tasks(&req).unwrap();
    let y = s.get_tasks(&req).unwrap();
    add(&mut s, "ch", vec![8]);
    let t = x.receiver().try_recv().unwrap();
    let id = t.id.clone();
    assert!(matches!(x.on_received(t), PumpAction::Forward(_)));
    assert!(x.on_undelivered().is_ok());
    assert!(!x.is_receiving());
    assert!(!x.is_forwarding());
    let again = y.receiver().try_recv().unwrap();
    assert_eq!(again.id, id);
    assert_eq!(again.data, vec![8]);
}

#[test]
fn closed_slot_stops_the_pump() {
    let mut s = MiniQServer::new();
    let req = GetTaskRequest { channel: "ch".to_string(), status: 1 };
    let mut sub = s.get_tasks(&req).unwrap();
    assert!(matches!(sub.on_closed(), PumpAction::Stop));
    assert!(!sub.is_receiving());
}

#[test]
fn update_with_unknown_code_moves_to_pending() {
    let mut s = MiniQServer::new();
    add(&mut s, "ch", vec![1]);
    let id = s.queue().get_tasks("ch", TaskStatus::Pending)[0].id.clone();
    let up = UpdateTaskRequest { channel: "ch".to_string(), id: id.clone(), status: 1 };
    assert_eq!(s.update_task(up), Ok(()));
    let up = UpdateTaskRequest { channel: "ch".to_string(), id: id.clone(), status: 77 };
    assert_eq!(s.update_task(up), Ok(()));
    assert_eq!(s.queue().get_tasks("ch", TaskStatus::Pending).len(), 1);
    let gone = UpdateTaskRequest { channel: "ch".to_string(), id: "nope".to_string(), status: 4 };
    assert_eq!(s.update_task(gone), Err(QueueError::NotFound));
}
