use std::cell::RefCell;
use std::rc::Rc;
use ugui_r_rs::writable::Writable;

#[test]
fn subscribe_calls_back_immediately() {
    let log = Rc::new(RefCell::new(Vec::new()));
    let sink = log.clone();
    let mut store = Writable::new(10);
    let _id = store.subscribe(move |x: i32| sink.borrow_mut().push(x));
    assert_eq!(*log.borrow(), vec![10]);
}

#[test]
fn set_notifies_every_subscriber_in_order() {
    let log = Rc::new(RefCell::new(Vec::new()));
    let first = log.clone();
    let second = log.clone();
    let mut store = Writable::new(0);
    let cb1 = move |x: i32| first.borrow_mut().push((1, x));
    let cb2 = move |x: i32| second.borrow_mut().push((2, x));
    // Both callbacks must share one closure type to live in one store, so
    // they are two clones of the same kind of recorder.
    let _ = store.subscribe(Box::new(cb1) as Box<dyn Fn(i32)>);
    let _ = store.subscribe(Box::new(cb2) as Box<dyn Fn(i32)>);
    log.borrow_mut().clear();
    store.set(7);
    assert_eq!(*log.borrow(), vec![(1, 7), (2, 7)]);
}

#[test]
fn unsubscribe_stops_notifications() {
    let log = Rc::new(RefCell::new(Vec::new()));
    let sink = log.clone();
    let mut store = Writable::new(1);
    let id = store.subscribe(move |x: i32| sink.borrow_mut().push(x));
    store.set(2);
    store.unsubscribe(id);
    store.set(3);
    assert_eq!(*log.borrow(), vec![1, 2]);
}
