use birb::log::{Log, LogCategory, LogEntry};
use std::cell::RefCell;

fn ignore(e: &LogEntry) {
    std::hint::black_box(e.timestamp);
}

fn ignore_too(e: &LogEntry) {
    std::hint::black_box(e.msg.len());
}

#[test]
fn info_reaches_every_listener_in_order() {
    let seen = RefCell::new(Vec::new());
    let mut log: Log<Box<dyn Fn(&LogEntry) + '_>> = Log::new();
    log.register_listener(Box::new(|e: &LogEntry| {
        seen.borrow_mut().push(format!("1:{}:{}", e.module, e.msg))
    }));
    log.register_listener(Box::new(|e: &LogEntry| {
        seen.borrow_mut().push(format!("2:{}:{}", e.module, e.msg))
    }));
    assert!(log.info("clock".to_string(), "hello".to_string()));
    assert_eq!(*seen.borrow(), vec!["1:clock:hello".to_string(), "2:clock:hello".to_string()]);
}

#[test]
fn notify_passes_the_entry() {
    let seen = RefCell::new(Vec::new());
    let mut log = Log::new();
    log.register_listener(|e: &LogEntry| seen.borrow_mut().push((e.timestamp, e.category)));
    let entry = Log::<fn(&LogEntry)>::info_entry("m".to_string(), "x".to_string(), 17);
    assert_eq!(entry.category, LogCategory::INFO);
    log.notify_listeners(&entry);
    assert_eq!(*seen.borrow(), vec![(17, LogCategory::INFO)]);
}

#[test]
fn deregister_removes_matching_listeners() {
    let mut log: Log<fn(&LogEntry)> = Log::new();
    log.register_listener(ignore);
    log.register_listener(ignore_too);
    log.register_listener(ignore);
    assert_eq!(log.listener_count(), 3);
    log.deregister_listener(ignore);
    assert_eq!(log.listener_count(), 1);
    log.deregister_listener(ignore);
    assert_eq!(log.listener_count(), 1);
}
