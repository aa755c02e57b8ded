use mixhash::Queue;

#[test]
fn queue_test_basic_operations() {
    let mut q: Queue<u32> = Queue::new();
    q.enqueue(1);
    q.enqueue(2);
    q.enqueue(3);
    q.enqueue(4);
    q.enqueue(5);
    q.enqueue(6);
    q.enqueue(7);
    assert_eq!(q.dequeue(), Some(1));

    let peek_mut = q.peek_mut();
    assert_eq!(*peek_mut.unwrap(), 2);

    let sum = q.iter().into_iter().sum::<u32>();
    assert_eq!(sum, 27);

    q.clear();
    assert!(q.is_empty());
}

#[test]
fn queue_is_first_in_first_out() {
    let mut q: Queue<&str> = Queue::new();
    q.enqueue("a");
    q.enqueue("b");
    q.enqueue("c");
    assert_eq!(q.len(), 3);
    assert_eq!(q.peek(), Some(&"a"));
    assert_eq!(q.dequeue(), Some("a"));
    assert_eq!(q.dequeue(), Some("b"));
    assert_eq!(q.dequeue(), Some("c"));
    assert_eq!(q.dequeue(), None);
    assert!(q.is_empty());
}

#[test]
fn queue_peek_mut_writes_the_front() {
    let mut q: Queue<u32> = Queue::new();
    assert!(q.peek_mut().is_none());
    q.enqueue(10);
    q.enqueue(20);
    if let Some(front) = q.peek_mut() {
        *front = 99;
    }
    assert_eq!(q.dequeue(), Some(99));
    assert_eq!(q.dequeue(), Some(20));
}

#[test]
fn queue_iter_mut_writes_every_element() {
    let mut q: Queue<u32> = Queue::new();
    q.enqueue(1);
    q.enqueue(2);
    q.enqueue(3);
    for item in q.iter_mut() {
        *item *= 2;
    }
    assert_eq!(q.into_iter(), vec![2, 4, 6]);
}

#[test]
fn queue_into_iter_yields_front_to_back() {
    let mut q: Queue<u32> = Queue::default();
    q.enqueue(4);
    q.enqueue(5);
    q.enqueue(6);
    assert_eq!(q.into_iter(), vec![4, 5, 6]);
}
