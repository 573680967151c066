use hello_web_server::broadcast_terminate;
use hello_web_server::dequeue;
use hello_web_server::enqueue;
use hello_web_server::Message;

#[test]
fn messages_leave_in_arrival_order() {
    let mut queue: Vec<Message<u32>> = Vec::new();
    enqueue(&mut queue, Message::NewJob(10));
    enqueue(&mut queue, Message::NewJob(20));
    enqueue(&mut queue, Message::Terminate);
    match dequeue(&mut queue) {
        Some(Message::NewJob(v)) => assert_eq!(v, 10),
        _ => panic!("expected the first job back first"),
    }
    match dequeue(&mut queue) {
        Some(Message::NewJob(v)) => assert_eq!(v, 20),
        _ => panic!("expected the second job next"),
    }
    match dequeue(&mut queue) {
        Some(Message::Terminate) => (),
        _ => panic!("expected the terminate signal last"),
    }
    assert!(queue.is_empty());
}

#[test]
fn empty_queue_yields_nothing() {
    let mut queue: Vec<Message<u32>> = Vec::new();
    match dequeue(&mut queue) {
        None => (),
        Some(_) => panic!("an empty queue must yield nothing"),
    }
    assert!(queue.is_empty());
}

#[test]
fn work_queued_before_broadcast_stays_ahead_of_it() {
    let mut queue: Vec<Message<u32>> = Vec::new();
    enqueue(&mut queue, Message::NewJob(7));
    broadcast_terminate(&mut queue, 2);
    assert_eq!(queue.len(), 3);
    let mut jobs_before_first_terminate: usize = 0;
    loop {
        match dequeue(&mut queue) {
            Some(Message::NewJob(_)) => jobs_before_first_terminate += 1,
            Some(Message::Terminate) => break,
            None => panic!("the terminate signal must still be queued"),
        }
    }
    assert_eq!(jobs_before_first_terminate, 1);
    assert_eq!(queue.len(), 1);
}
