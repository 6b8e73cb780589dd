use longfi_bsp::buffer::BufferOp;
use longfi_bsp::buffer::OwnerState;
use longfi_bsp::buffer::Party;
use longfi_bsp::buffer::ProtocolError;
use longfi_bsp::buffer::SharedBuffer;
use longfi_bsp::event::ClientEvent;
use longfi_bsp::event::Notification;
use longfi_bsp::event::RxDescriptor;
use longfi_bsp::event::TestSender;
use longfi_bsp::event::build_test_packet;
use longfi_bsp::event::handle_client_event;
use longfi_bsp::event::prepare_send;

#[test]
fn receive_event_notifies_exactly_and_returns_buffer_once() {
    let mut buf = SharedBuffer::new(8);
    for (i, v) in [1u8, 2, 3, 4, 5].iter().enumerate() {
        assert!(buf.write(Party::Application, i, *v).is_ok());
    }
    assert!(buf.hand_to_engine().is_ok());
    let returns_before = buf.count_ops(BufferOp::ReturnToApplication);

    let r = handle_client_event(
        ClientEvent::Receive(RxDescriptor { len: 5, rssi: -80, snr: 7 }),
        &mut buf,
    );
    match r {
        Ok(Some(Notification::Received { len, rssi, snr, bytes })) => {
            assert_eq!(len, 5);
            assert_eq!(rssi, -80);
            assert_eq!(snr, 7);
            assert_eq!(bytes, vec![1, 2, 3, 4, 5]);
        }
        other => panic!("unexpected result {:?}", other),
    }
    // The buffer was handed back exactly once, then the engine was re-armed
    // with it for the next cycle.
    let returns_after = buf.count_ops(BufferOp::ReturnToApplication);
    assert_eq!(returns_after - returns_before, 1);
    assert_eq!(buf.state, OwnerState::EngineOwned);
    assert_eq!(
        &buf.ops[buf.ops.len() - 3..],
        &[
            BufferOp::OpenReceiveWindow,
            BufferOp::ReturnToApplication,
            BufferOp::HandToEngine,
        ],
    );
}

#[test]
fn no_event_does_nothing() {
    let mut buf = SharedBuffer::new(4);
    assert!(buf.hand_to_engine().is_ok());
    let r = handle_client_event(ClientEvent::NoEvent, &mut buf);
    assert_eq!(r, Ok(None));
    assert_eq!(buf.state, OwnerState::EngineOwned);
    assert_eq!(buf.ops, vec![BufferOp::HandToEngine]);
}

#[test]
fn transmit_done_notifies_and_resets_protocol_state() {
    let mut buf = SharedBuffer::new(4);
    assert!(buf.hand_to_engine().is_ok());
    let r = handle_client_event(ClientEvent::TransmitDone, &mut buf);
    assert_eq!(r, Ok(Some(Notification::TransmitDone)));
    assert_eq!(buf.state, OwnerState::ApplicationOwned);

    // With the buffer already application-owned there is nothing to reset.
    let r = handle_client_event(ClientEvent::TransmitDone, &mut buf);
    assert_eq!(r, Ok(Some(Notification::TransmitDone)));
    assert_eq!(buf.state, OwnerState::ApplicationOwned);
}

#[test]
fn receive_without_engine_ownership_is_refused() {
    let mut buf = SharedBuffer::new(4);
    let r = handle_client_event(
        ClientEvent::Receive(RxDescriptor { len: 1, rssi: 0, snr: 0 }),
        &mut buf,
    );
    assert_eq!(r, Err(ProtocolError::NotEngineOwned));
    assert_eq!(buf.state, OwnerState::ApplicationOwned);
}

#[test]
fn receive_longer_than_capacity_is_refused() {
    let mut buf = SharedBuffer::new(4);
    assert!(buf.hand_to_engine().is_ok());
    let r = handle_client_event(
        ClientEvent::Receive(RxDescriptor { len: 5, rssi: 0, snr: 0 }),
        &mut buf,
    );
    assert_eq!(r, Err(ProtocolError::OutOfBounds));
    assert_eq!(buf.state, OwnerState::EngineOwned);
}

#[test]
fn test_packet_layout_is_little_endian() {
    assert_eq!(build_test_packet(0x0102_0304), vec![0x04, 0x03, 0x02, 0x01]);
    assert_eq!(build_test_packet(0), vec![0, 0, 0, 0]);
    assert_eq!(build_test_packet(u32::MAX), vec![0xff, 0xff, 0xff, 0xff]);
}

#[test]
fn sender_counter_increments_and_wraps() {
    let mut s = TestSender::new();
    assert_eq!(s.next_packet(), vec![0, 0, 0, 0]);
    assert_eq!(s.next_packet(), vec![1, 0, 0, 0]);
    s.counter = u32::MAX;
    assert_eq!(s.next_packet(), vec![0xff, 0xff, 0xff, 0xff]);
    assert_eq!(s.counter, 0);
}

#[test]
fn prepare_send_fills_buffer_and_hands_off() {
    let mut buf = SharedBuffer::new(6);
    let payload = vec![9, 8, 7];
    assert_eq!(prepare_send(&mut buf, &payload), Ok(()));
    assert_eq!(buf.data, vec![9, 8, 7, 0, 0, 0]);
    assert_eq!(buf.state, OwnerState::EngineOwned);
    assert_eq!(buf.ops, vec![BufferOp::HandToEngine]);
}

#[test]
fn prepare_send_refused_without_ownership_or_room() {
    let mut buf = SharedBuffer::new(2);
    let payload = vec![1, 2, 3];
    assert_eq!(prepare_send(&mut buf, &payload), Err(ProtocolError::OutOfBounds));
    assert!(buf.hand_to_engine().is_ok());
    let short = vec![1];
    assert_eq!(prepare_send(&mut buf, &short), Err(ProtocolError::NotApplicationOwned));
}
