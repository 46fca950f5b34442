use kv_rpc::actor::{CommandQueue, SubmitError};
use kv_rpc::backend::{Backend, StorageError};
use kv_rpc::kvservice;
use kv_rpc::rate_limiting;
use kv_rpc::storage::{Command, KVService, Reply};

#[test]
fn queue_is_first_in_first_out() {
    let mut q: CommandQueue<u32> = CommandQueue::new(4);
    assert_eq!(q.len(), 0);
    q.submit(10).unwrap();
    q.submit(20).unwrap();
    q.submit(30).unwrap();
    assert_eq!(q.len(), 3);
    assert_eq!(q.recv(), Some(10));
    assert_eq!(q.recv(), Some(20));
    assert_eq!(q.recv(), Some(30));
    assert_eq!(q.recv(), None);
}

#[test]
fn full_queue_pushes_the_submitter_back() {
    let mut q: CommandQueue<u32> = CommandQueue::new(2);
    q.submit(1).unwrap();
    q.submit(2).unwrap();
    assert_eq!(q.submit(3), Err(SubmitError::QueueClosed));
    // The refused command was not enqueued and order is intact.
    assert_eq!(q.recv(), Some(1));
    q.submit(4).unwrap();
    assert_eq!(q.recv(), Some(2));
    assert_eq!(q.recv(), Some(4));
}

#[test]
fn storage_actor_answers_every_command_in_order() {
    let mut q: CommandQueue<Command> = CommandQueue::new(16);
    q.submit(Command::Put { key: "a".to_string(), value: "1".to_string() }).unwrap();
    q.submit(Command::Get { key: "a".to_string() }).unwrap();
    q.submit(Command::Get { key: "missing".to_string() }).unwrap();
    q.submit(Command::Put { key: "a".to_string(), value: "2".to_string() }).unwrap();
    q.submit(Command::Get { key: "a".to_string() }).unwrap();

    let mut actor = KVService::new(Backend::new());
    let replies = actor.run(&mut q);
    assert_eq!(q.len(), 0);
    assert_eq!(replies.len(), 5);

    match &replies[0] {
        Reply::Done(Ok(())) => {},
        _ => panic!("a write must be acknowledged"),
    }
    match &replies[1] {
        Reply::Value(Ok(v)) => assert_eq!(v, "1"),
        _ => panic!("the first read must see the first write"),
    }
    match &replies[2] {
        Reply::Value(Err(StorageError::NotFound)) => {},
        _ => panic!("a read of an absent key must fail with NotFound"),
    }
    match &replies[3] {
        Reply::Done(Ok(())) => {},
        _ => panic!("the second write must be acknowledged"),
    }
    match &replies[4] {
        Reply::Value(Ok(v)) => assert_eq!(v, "2"),
        _ => panic!("the last read must see the last write"),
    }
}

#[test]
fn storage_actor_get_of_absent_key_is_not_found() {
    let mut actor = KVService::new(Backend::new());
    assert_eq!(actor.get("nothing".to_string()), Err(StorageError::NotFound));
}

#[test]
fn storage_actor_set_then_get_returns_the_value() {
    let mut actor = KVService::new(Backend::new());
    actor.set("k".to_string(), "v".to_string()).unwrap();
    assert_eq!(actor.get("k".to_string()), Ok("v".to_string()));
}

#[test]
fn rate_limiter_actor_answers_every_check_in_order() {
    let mut q: CommandQueue<rate_limiting::Command> = CommandQueue::new(8);
    q.submit(rate_limiting::Command::LimitReached { ip: "1.1.1.1".to_string() }).unwrap();
    q.submit(rate_limiting::Command::LimitReached { ip: "1.1.1.1".to_string() }).unwrap();
    q.submit(rate_limiting::Command::LimitReached { ip: "2.2.2.2".to_string() }).unwrap();
    q.submit(rate_limiting::Command::LimitReached { ip: "1.1.1.1".to_string() }).unwrap();

    let mut actor = rate_limiting::Service::new(60, 2, Backend::new());
    let replies = actor.run(&mut q, 0);
    assert_eq!(q.len(), 0);
    assert_eq!(replies, vec![false, false, false, true]);
}

#[test]
fn thin_client_reads_its_parameters_in_place() {
    let mut svc = kvservice::KVService::new(Backend::new());
    let set_params = vec!["mykey".to_string(), "myvalue".to_string()];
    assert_eq!(svc.set(&set_params), Ok("ok".to_string()));
    let get_params = vec!["mykey".to_string()];
    assert_eq!(svc.get(&get_params), Ok("myvalue".to_string()));
}
