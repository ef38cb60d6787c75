use miniq::{Queue, QueueError, Task, TaskStatus, Timestamp};

const ALL: [TaskStatus; 5] = [
    TaskStatus::Pending,
    TaskStatus::Running,
    TaskStatus::Completed,
    TaskStatus::Failed,
    TaskStatus::Delete,
];

#[test]
fn add_task() {
    let mut q = Queue::new();
    let (_, rcv) = q.get_chan("test_chan", TaskStatus::Pending).unwrap();
    let data = "test123abc".as_bytes().to_vec();
    let res = q.add_task("test_chan", data);
    assert_eq!(res.is_err(), false);
    let t = rcv.try_recv().unwrap();
    assert_eq!(t.id, res.unwrap());
    assert_eq!(t.data, "test123abc".as_bytes().to_vec());
}

#[test]
fn update_task() {
    let mut q = Queue::new();
    let (_, rcv) = q.get_chan("test_chan", TaskStatus::Completed).unwrap();
    let data = "test123abc".as_bytes().to_vec();
    let task_add_res = q.add_task("test_chan", data);
    assert_eq!(task_add_res.is_err(), false);
    let task_id = task_add_res.unwrap();
    assert_eq!(
        q.update_task_status("test_chan", &task_id, TaskStatus::Completed)
            .is_err(),
        false
    );
    let t = rcv.try_recv().unwrap();
    assert_eq!(t.status, TaskStatus::Completed);
    assert_eq!(t.id, task_id);
}

#[test]
fn get_tasks() {
    let mut q = Queue::new();
    assert_eq!(q.add_task("test", "test".as_bytes().to_vec()).is_err(), false);
    let tasks = q.get_tasks("test", TaskStatus::Pending);
    assert_eq!(tasks.len(), 1);
}

#[test]
fn delete_tasks() {
    let mut q = Queue::new();
    let new_task_id = q.add_task("test", "test".as_bytes().to_vec()).unwrap();
    let tasks = q.get_tasks("test", TaskStatus::Pending);
    assert_eq!(tasks.len(), 1);
    let total: usize = ALL.iter().map(|s| q.get_tasks("test", *s).len()).sum();
    assert_eq!(total, 1);
    assert_eq!(
        q.update_task_status("test", &new_task_id, TaskStatus::Delete).is_err(),
        false
    );
    let total: usize = ALL.iter().map(|s| q.get_tasks("test", *s).len()).sum();
    assert_eq!(total, 0);
}

#[test]
fn submit_then_list_shows_the_task() {
    let mut q = Queue::new();
    let a = q.add_task("jobs", vec![0x68, 0x69]).unwrap();
    let listed = q.get_tasks("jobs", TaskStatus::Pending);
    assert_eq!(listed.len(), 1);
    assert_eq!(listed[0].id, a);
    assert_eq!(listed[0].data, vec![0x68, 0x69]);
    assert_eq!(listed[0].status, TaskStatus::Pending);
    assert_eq!(listed[0].channel, "jobs");
}

#[test]
fn submit_accepts_empty_data() {
    let mut q = Queue::new();
    let a = q.add_task("jobs", vec![]).unwrap();
    let listed = q.get_tasks("jobs", TaskStatus::Pending);
    assert_eq!(listed.len(), 1);
    assert_eq!(listed[0].id, a);
    assert!(listed[0].data.is_empty());
}

#[test]
fn list_keeps_channels_apart() {
    let mut q = Queue::new();
    q.add_task("a", vec![1]).unwrap();
    q.add_task("b", vec![2]).unwrap();
    q.add_task("a", vec![3]).unwrap();
    let a = q.get_tasks("a", TaskStatus::Pending);
    assert_eq!(a.len(), 2);
    assert_eq!(a[0].data, vec![1]);
    assert_eq!(a[1].data, vec![3]);
    assert_eq!(q.get_tasks("b", TaskStatus::Pending).len(), 1);
    assert_eq!(q.get_tasks("c", TaskStatus::Pending).len(), 0);
    assert_eq!(q.get_tasks("a", TaskStatus::Running).len(), 0);
}

#[test]
fn submitted_ids_are_distinct_uuids() {
    let mut q = Queue::new();
    let mut ids: Vec<String> = Vec::new();
    for i in 0..50u8 {
        ids.push(q.add_task("jobs", vec![i]).unwrap());
    }
    for (i, a) in ids.iter().enumerate() {
        assert_eq!(a.len(), 36);
        for b in ids.iter().skip(i + 1) {
            assert_ne!(a, b);
        }
    }
}

#[test]
fn update_moves_task_between_lists() {
    let mut q = Queue::new();
    let a = q.add_task("jobs", vec![7]).unwrap();
    assert_eq!(q.update_task_status("jobs", &a, TaskStatus::Running), Ok(()));
    assert!(q.get_tasks("jobs", TaskStatus::Pending).is_empty());
    let running = q.get_tasks("jobs", TaskStatus::Running);
    assert_eq!(running.len(), 1);
    assert_eq!(running[0].id, a);
    assert_eq!(running[0].data, vec![7]);
}

#[test]
fn transitions_are_permissive() {
    let mut q = Queue::new();
    let a = q.add_task("jobs", vec![7]).unwrap();
    for s in [
        TaskStatus::Completed,
        TaskStatus::Pending,
        TaskStatus::Failed,
        TaskStatus::Running,
        TaskStatus::Running,
    ] {
        assert_eq!(q.update_task_status("jobs", &a, s), Ok(()));
        assert_eq!(q.get_tasks("jobs", s).len(), 1);
    }
}

#[test]
fn delete_then_update_is_not_found() {
    let mut q = Queue::new();
    let a = q.add_task("jobs", vec![1]).unwrap();
    assert_eq!(q.update_task_status("jobs", &a, TaskStatus::Delete), Ok(()));
    for s in ALL {
        assert!(q.get_tasks("jobs", s).is_empty());
    }
    assert_eq!(
        q.update_task_status("jobs", &a, TaskStatus::Completed),
        Err(QueueError::NotFound)
    );
}

#[test]
fn update_of_unknown_id_is_not_found() {
    let mut q = Queue::new();
    q.add_task("jobs", vec![1]).unwrap();
    assert_eq!(
        q.update_task_status("jobs", "no-such-id", TaskStatus::Running),
        Err(QueueError::NotFound)
    );
    assert_eq!(q.get_tasks("jobs", TaskStatus::Pending).len(), 1);
}

#[test]
fn delete_is_published_before_removal() {
    let mut q = Queue::new();
    let (_, rcv) = q.get_chan("jobs", TaskStatus::Delete).unwrap();
    let a = q.add_task("jobs", vec![4]).unwrap();
    q.update_task_status("jobs", &a, TaskStatus::Delete).unwrap();
    let t = rcv.try_recv().unwrap();
    assert_eq!(t.id, a);
    assert_eq!(t.status, TaskStatus::Delete);
}

#[test]
fn update_publishes_on_the_given_channel() {
    let mut q = Queue::new();
    let (_, other) = q.get_chan("other", TaskStatus::Running).unwrap();
    let (_, own) = q.get_chan("jobs", TaskStatus::Running).unwrap();
    let a = q.add_task("jobs", vec![4]).unwrap();
    q.update_task_status("other", &a, TaskStatus::Running).unwrap();
    assert_eq!(other.try_recv().unwrap().id, a);
    assert!(own.try_recv().is_err());
    assert_eq!(q.get_tasks("jobs", TaskStatus::Running).len(), 1);
}

#[test]
fn status_filter_of_slots() {
    let mut q = Queue::new();
    let (_, rcv) = q.get_chan("ch", TaskStatus::Completed).unwrap();
    let a = q.add_task("ch", vec![9]).unwrap();
    assert!(rcv.try_recv().is_err());
    q.update_task_status("ch", &a, TaskStatus::Completed).unwrap();
    let t = rcv.try_recv().unwrap();
    assert_eq!(t.id, a);
    assert_eq!(t.status, TaskStatus::Completed);
}

#[test]
fn competing_consumers_share_publications() {
    let mut q = Queue::new();
    let (_, x) = q.get_chan("ch", TaskStatus::Pending).unwrap();
    let (_, y) = q.get_chan("ch", TaskStatus::Pending).unwrap();
    for i in 0..3u8 {
        q.add_task("ch", vec![i]).unwrap();
    }
    let mut got = 0;
    while x.try_recv().is_ok() {
        got += 1;
    }
    while y.try_recv().is_ok() {
        got += 1;
    }
    assert_eq!(got, 3);
}

#[test]
fn slot_is_fifo() {
    let mut q = Queue::new();
    let (_, rcv) = q.get_chan("ch", TaskStatus::Pending).unwrap();
    let a = q.add_task("ch", vec![1]).unwrap();
    let b = q.add_task("ch", vec![2]).unwrap();
    assert_eq!(rcv.try_recv().unwrap().id, a);
    assert_eq!(rcv.try_recv().unwrap().id, b);
}

#[test]
fn new_task_is_pending_and_dated() {
    let t = Task::new(vec![1, 2], "jobs".to_string());
    assert_eq!(t.status, TaskStatus::Pending);
    assert_eq!(t.data, vec![1, 2]);
    assert_eq!(t.channel, "jobs");
    assert_eq!(t.id.len(), 36);
    assert!(t.creation_date.seconds > 1_500_000_000);
    assert!(t.creation_date.nanos < 1_000_000_000);
    let u = Task::new(vec![1, 2], "jobs".to_string());
    assert_ne!(t.id, u.id);
}

#[test]
fn snapshot_is_equal() {
    let t = Task::new(vec![5], "jobs".to_string());
    assert_eq!(t.snapshot(), t);
}

#[test]
fn error_messages() {
    assert_eq!(QueueError::NotFound.message(), "task not found");
    assert_eq!(QueueError::Conflict.message(), "transition refused");
    assert_eq!(QueueError::Internal.message(), "internal error");
}

#[test]
fn add_task_with_uses_the_drawn_id_and_date() {
    let mut q = Queue::new();
    let date = Timestamp { seconds: 1_650_000_000, nanos: 42 };
    let r = q.add_task_with("jobs", vec![3], "fixed-id".to_string(), date);
    assert_eq!(r, Ok("fixed-id".to_string()));
    let listed = q.get_tasks("jobs", TaskStatus::Pending);
    assert_eq!(listed.len(), 1);
    assert_eq!(listed[0].id, "fixed-id");
    assert_eq!(listed[0].creation_date, date);
    assert_eq!(listed[0].data, vec![3]);
}

#[test]
fn add_task_with_refuses_an_id_handed_out_before() {
    let mut q = Queue::new();
    let date = Timestamp { seconds: 1, nanos: 0 };
    q.add_task_with("jobs", vec![1], "same".to_string(), date).unwrap();
    assert_eq!(
        q.add_task_with("jobs", vec![2], "same".to_string(), date),
        Err(QueueError::Internal)
    );
    assert_eq!(q.get_tasks("jobs", TaskStatus::Pending).len(), 1);
    q.update_task_status("jobs", "same", TaskStatus::Delete).unwrap();
    assert_eq!(
        q.add_task_with("jobs", vec![3], "same".to_string(), date),
        Err(QueueError::Internal)
    );
    assert!(q.get_tasks("jobs", TaskStatus::Pending).is_empty());
}

#[test]
fn ids_have_the_uuid_v4_shape() {
    let mut q = Queue::new();
    for _ in 0..20 {
        let id: Vec<char> = q.add_task("jobs", vec![]).unwrap().chars().collect();
        assert_eq!(id.len(), 36);
        for (i, c) in id.iter().enumerate() {
            if i == 8 || i == 13 || i == 18 || i == 23 {
                assert_eq!(*c, '-');
            } else {
                assert!(c.is_ascii_digit() || ('a'..='f').contains(c));
            }
        }
        assert_eq!(id[14], '4');
        assert!(['8', '9', 'a', 'b'].contains(&id[19]));
    }
}

#[test]
fn repeated_get_chan_reaches_the_same_slot() {
    let mut q = Queue::new();
    let (s1, r1) = q.get_chan("ch", TaskStatus::Failed).unwrap();
    let (s2, r2) = q.get_chan("ch", TaskStatus::Failed).unwrap();
    assert!(s1.same_channel(&s2));
    assert!(r1.same_channel(&r2));
    s1.send(Task::new(vec![1], "ch".to_string())).unwrap();
    assert_eq!(r2.try_recv().unwrap().data, vec![1]);
}
