use longfi_bsp::buffer::OwnerState;
use longfi_bsp::buffer::SharedBuffer;
use longfi_bsp::dispatch::ConsoleInput;
use longfi_bsp::dispatch::DispatchError;
use longfi_bsp::dispatch::PendingTask;
use longfi_bsp::dispatch::RADIO_DIO_TAG;
use longfi_bsp::dispatch::RadioIrqLine;
use longfi_bsp::dispatch::TASK_CAPACITY;
use longfi_bsp::dispatch::TaskQueue;
use longfi_bsp::dispatch::handle_console_interrupt;
use longfi_bsp::dispatch::handle_radio_interrupt;
use longfi_bsp::dispatch::initialize_radio_irq;
use longfi_bsp::event::ClientEvent;
use longfi_bsp::event::Notification;
use longfi_bsp::event::RxDescriptor;
use longfi_bsp::event::handle_client_event;

#[test]
fn initialize_radio_irq_arms_the_line() {
    let line = initialize_radio_irq(RadioIrqLine { pending: false, listening: false });
    assert!(line.listening);
    assert!(!line.pending);
}

#[test]
fn radio_interrupt_acknowledges_then_enqueues() {
    let mut line = initialize_radio_irq(RadioIrqLine { pending: true, listening: false });
    let mut q = TaskQueue::new();
    assert!(handle_radio_interrupt(&mut line, &mut q).is_ok());
    assert!(!line.pending);
    assert!(line.listening);
    assert_eq!(q.next_task(), Some(PendingTask::RadioEvent { tag: RADIO_DIO_TAG }));
    assert_eq!(q.next_task(), None);
}

#[test]
fn console_interrupt_drains_one_byte_and_enqueues() {
    let mut console = ConsoleInput { rx: vec![b'x', b'y'] };
    let mut q = TaskQueue::new();
    assert_eq!(handle_console_interrupt(&mut console, &mut q), Ok(b'x'));
    assert_eq!(console.rx, vec![b'y']);
    assert_eq!(q.next_task(), Some(PendingTask::SendTestPacket));
}

#[test]
fn fifth_radio_enqueue_fails_fatally() {
    let mut q = TaskQueue::new();
    for _ in 0..TASK_CAPACITY {
        assert!(q.enqueue_radio_event(RADIO_DIO_TAG).is_ok());
    }
    // Capacity is four of a kind: the fifth attempt must fail, never
    // silently drop or silently succeed.
    assert_eq!(q.enqueue_radio_event(RADIO_DIO_TAG), Err(DispatchError::TaskOverflow));
    assert_eq!(q.radio_events.len(), TASK_CAPACITY);
}

#[test]
fn send_queue_overflows_at_capacity_too() {
    let mut q = TaskQueue::new();
    for _ in 0..TASK_CAPACITY {
        assert!(q.enqueue_send_test_packet().is_ok());
    }
    assert_eq!(q.enqueue_send_test_packet(), Err(DispatchError::TaskOverflow));
}

#[test]
fn equal_priority_tasks_dispatch_in_enqueue_order() {
    let mut q = TaskQueue::new();
    assert!(q.enqueue_radio_event(0).is_ok());
    assert!(q.enqueue_radio_event(1).is_ok());
    assert_eq!(q.next_task(), Some(PendingTask::RadioEvent { tag: 0 }));
    assert_eq!(q.next_task(), Some(PendingTask::RadioEvent { tag: 1 }));
}

#[test]
fn radio_event_preempts_queued_send_task() {
    // End to end: a send-test-packet task is already queued at the low tier;
    // the external pin interrupt fires before the scheduler runs. The radio
    // event's side effects must be observed first.
    let mut console = ConsoleInput { rx: vec![b'g'] };
    let mut line = RadioIrqLine { pending: true, listening: true };
    let mut q = TaskQueue::new();
    assert!(handle_console_interrupt(&mut console, &mut q).is_ok());
    assert!(handle_radio_interrupt(&mut line, &mut q).is_ok());

    let mut buf = SharedBuffer::new(4);
    assert!(buf.hand_to_engine().is_ok());
    let mut side_effects: Vec<&str> = Vec::new();
    while let Some(task) = q.next_task() {
        match task {
            PendingTask::RadioEvent { .. } => {
                // The engine answers the handled interrupt; here it reports a
                // completed transmission.
                let n = handle_client_event(ClientEvent::TransmitDone, &mut buf).unwrap();
                assert_eq!(n, Some(Notification::TransmitDone));
                side_effects.push("radio event");
            }
            PendingTask::SendTestPacket => {
                side_effects.push("send test packet");
            }
        }
    }
    assert_eq!(side_effects, vec!["radio event", "send test packet"]);
}

#[test]
fn empty_queue_dispatches_nothing() {
    let mut q = TaskQueue::new();
    assert_eq!(q.next_task(), None);
}

#[test]
fn receive_event_side_effects_in_dispatch_cycle() {
    let mut buf = SharedBuffer::new(4);
    for (i, v) in [1u8, 2, 3].iter().enumerate() {
        assert!(buf.write(longfi_bsp::buffer::Party::Application, i, *v).is_ok());
    }
    assert!(buf.hand_to_engine().is_ok());
    let n = handle_client_event(
        ClientEvent::Receive(RxDescriptor { len: 3, rssi: -42, snr: 3 }),
        &mut buf,
    )
    .unwrap();
    match n {
        Some(Notification::Received { len, bytes, .. }) => {
            assert_eq!(len, 3);
            assert_eq!(bytes, vec![1, 2, 3]);
        }
        other => panic!("unexpected notification {:?}", other),
    }
    assert_eq!(buf.state, OwnerState::EngineOwned);
}
