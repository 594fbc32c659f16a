use kernel_core::error::Code;
use kernel_core::events::{
    handle_xhci_interrupt, next_event, EventQueue, Message, MessageType, QUEUE_CAPACITY,
};

#[test]
fn fifo_returns_pushes_in_order() {
    let mut q = EventQueue::new();
    assert_eq!(q.len(), 0);
    for _ in 0..QUEUE_CAPACITY {
        assert!(q.push(Message::new(MessageType::InterruptXHCI)).is_ok());
    }
    assert_eq!(q.len(), QUEUE_CAPACITY);
    for i in 0..QUEUE_CAPACITY {
        let m = q.pop_front().unwrap();
        assert_eq!(m.msg_type(), MessageType::InterruptXHCI);
        assert_eq!(q.len(), QUEUE_CAPACITY - 1 - i);
    }
}

#[test]
fn push_beyond_capacity_fails_full_and_changes_nothing() {
    let mut q = EventQueue::new();
    for _ in 0..QUEUE_CAPACITY {
        assert!(q.push(Message::new(MessageType::InterruptXHCI)).is_ok());
    }
    let e = q.push(Message::new(MessageType::InterruptXHCI)).unwrap_err();
    assert_eq!(e.code(), Code::Full);
    assert_eq!(q.len(), QUEUE_CAPACITY);
    // the queued messages survive the failed push
    for _ in 0..QUEUE_CAPACITY {
        assert!(q.pop_front().is_ok());
    }
    assert_eq!(q.len(), 0);
}

#[test]
fn pop_of_empty_queue_fails_empty() {
    let mut q = EventQueue::new();
    let e = q.pop_front().unwrap_err();
    assert_eq!(e.code(), Code::Empty);
    assert_eq!(q.len(), 0);
}

#[test]
fn capacity_is_fixed() {
    let q = EventQueue::new();
    assert_eq!(q.capacity(), QUEUE_CAPACITY);
}

#[test]
fn interrupt_handler_enqueues_and_drops_when_full() {
    let mut q = EventQueue::new();
    handle_xhci_interrupt(&mut q);
    assert_eq!(q.len(), 1);
    for _ in 0..QUEUE_CAPACITY {
        handle_xhci_interrupt(&mut q);
    }
    // the events past the capacity were dropped, not queued
    assert_eq!(q.len(), QUEUE_CAPACITY);
}

#[test]
fn next_event_drains_then_reports_idle() {
    let mut q = EventQueue::new();
    assert!(next_event(&mut q).is_none());
    handle_xhci_interrupt(&mut q);
    handle_xhci_interrupt(&mut q);
    let m = next_event(&mut q).unwrap();
    assert_eq!(m.msg_type(), MessageType::InterruptXHCI);
    assert!(next_event(&mut q).is_some());
    assert!(next_event(&mut q).is_none());
}
