use worker_pool::{QueueClosed, Received, WorkQueue};

#[test]
fn queue_is_fifo() {
    let mut q: WorkQueue<u32> = WorkQueue::new();
    assert_eq!(q.submit(1), Ok(()));
    assert_eq!(q.submit(2), Ok(()));
    assert_eq!(q.len(), 2);
    assert!(matches!(q.receive(), Received::Task(1)));
    assert!(matches!(q.receive(), Received::Task(2)));
    assert!(matches!(q.receive(), Received::Empty));
}

#[test]
fn closed_queue_refuses_but_drains() {
    let mut q: WorkQueue<u32> = WorkQueue::new();
    q.submit(5).unwrap();
    q.close();
    assert!(q.closed());
    assert_eq!(q.submit(6), Err(QueueClosed));
    q.close();
    assert!(matches!(q.receive(), Received::Task(5)));
    assert!(matches!(q.receive(), Received::EndOfStream));
    assert!(matches!(q.receive(), Received::EndOfStream));
}
