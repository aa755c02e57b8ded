use mixhash::Stack;

#[test]
fn stack_test_basic_operations() {
    let mut s = Stack::new();
    s.push(1);
    s.push(2);
    s.push(3);
    s.push(4);
    s.push(5);
    s.push(6);
    s.push(7);
    assert_eq!(s.pop(), Some(7));

    let peek_mut = s.peek_mut();
    assert_eq!(*peek_mut.unwrap(), 6);

    let sum = s.iter().into_iter().sum::<i32>();
    assert_eq!(sum, 21);

    s.clear();
    assert!(s.is_empty());
}

#[test]
fn stack_is_last_in_first_out() {
    let mut s: Stack<&str> = Stack::new();
    s.push("a");
    s.push("b");
    s.push("c");
    assert_eq!(s.len(), 3);
    assert_eq!(s.peek(), Some(&"c"));
    assert_eq!(s.pop(), Some("c"));
    assert_eq!(s.pop(), Some("b"));
    assert_eq!(s.pop(), Some("a"));
    assert_eq!(s.pop(), None);
    assert!(s.is_empty());
}

#[test]
fn stack_peek_mut_writes_the_top() {
    let mut s: Stack<u32> = Stack::new();
    assert!(s.peek_mut().is_none());
    s.push(10);
    s.push(20);
    if let Some(top) = s.peek_mut() {
        *top = 99;
    }
    assert_eq!(s.pop(), Some(99));
    assert_eq!(s.pop(), Some(10));
}

#[test]
fn stack_iter_mut_writes_every_element() {
    let mut s: Stack<u32> = Stack::new();
    s.push(1);
    s.push(2);
    s.push(3);
    for item in s.iter_mut() {
        *item *= 2;
    }
    assert_eq!(s.into_iter(), vec![6, 4, 2]);
}

#[test]
fn stack_iter_yields_top_first() {
    let mut s: Stack<u32> = Stack::default();
    s.push(4);
    s.push(5);
    s.push(6);
    assert_eq!(s.iter(), vec![6, 5, 4]);
    assert_eq!(s.into_iter(), vec![6, 5, 4]);
}
