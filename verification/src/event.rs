//! Translation of radio engine events into application actions.
//!
//! After a radio-event task hands the raw interrupt to the engine, the
//! engine answers with a client event: nothing, a completed transmission, or
//! a received packet. Translation turns that answer into an observable
//! notification and restores the buffer ownership protocol: a received
//! packet is read out inside the read-only window, the buffer is handed back
//! to the application exactly once, and the engine is re-armed with it for
//! the next cycle. The send path builds the outgoing test packet — a
//! monotonically incrementing counter in a fixed four-byte little-endian
//! layout — and hands the buffer to the engine.

use vstd::prelude::*;

use crate::buffer::BufferOp;
use crate::buffer::OwnerState;
use crate::buffer::Party;
use crate::buffer::ProtocolError;
use crate::buffer::SharedBuffer;
use crate::buffer::count_matching;

verus! {

/// What the engine reports about a received packet: its length, signal
/// strength and signal-to-noise ratio. The bytes themselves stay in the
/// shared buffer, valid until the next hand-off.
#[derive(Clone, Copy, Debug, PartialEq, Eq, Structural)]
pub struct RxDescriptor {
    /// Number of received bytes at the front of the shared buffer.
    pub len: u32,
    /// Received signal strength indication.
    pub rssi: i16,
    /// Signal-to-noise ratio.
    pub snr: i8,
}

/// The engine's synchronous answer for one handled interrupt.
#[derive(Clone, Copy, Debug, PartialEq, Eq, Structural)]
pub enum ClientEvent {
    /// Nothing to act on.
    NoEvent,
    /// An outgoing transmission completed.
    TransmitDone,
    /// A packet was received into the shared buffer.
    Receive(RxDescriptor),
}

/// The observable outcome of translating one client event.
#[derive(Clone, Debug, PartialEq, Eq)]
pub enum Notification {
    /// A transmission completed.
    TransmitDone,
    /// A packet arrived: its descriptor fields and its bytes, in order.
    Received { len: u32, rssi: i16, snr: i8, bytes: Vec<u8> },
}

/// Translate one client event and restore the buffer protocol.
///
/// `NoEvent` does nothing. `TransmitDone` yields its notification and
/// resets the protocol so the application holds the buffer. `Receive` is
/// honoured only while the engine owns the buffer and the reported length
/// fits: the bytes are read inside the read-only window, the buffer is
/// handed back to the application exactly once, and the engine is re-armed
/// with it.
pub fn handle_client_event(event: ClientEvent, buf: &mut SharedBuffer) -> (r: Result<
    Option<Notification>,
    ProtocolError,
>)
    ensures
        event == ClientEvent::NoEvent ==> r == Ok::<Option<Notification>, ProtocolError>(None)
            && *final(buf) == *old(buf),
        event == ClientEvent::TransmitDone ==> r == Ok::<Option<Notification>, ProtocolError>(
            Some(Notification::TransmitDone),
        ) && final(buf).state == OwnerState::ApplicationOwned && final(buf).data@ == old(buf).data@
            && final(buf).ops@ == (if old(buf).state == OwnerState::ApplicationOwned {
            old(buf).ops@
        } else {
            old(buf).ops@.push(BufferOp::ReturnToApplication)
        }),
        event matches ClientEvent::Receive(d) ==> {
            &&& r is Ok <==> old(buf).state == OwnerState::EngineOwned && d.len as int <= old(
                buf,
            ).data@.len()
            &&& r is Ok ==> (r matches Ok(Some(Notification::Received { len, rssi, snr, bytes }))
                && len == d.len && rssi == d.rssi && snr == d.snr && bytes@ == old(
                buf,
            ).data@.take(d.len as int))
            &&& r is Ok ==> final(buf).state == OwnerState::EngineOwned && final(buf).data@ == old(
                buf,
            ).data@ && final(buf).ops@ == old(buf).ops@ + seq![
                BufferOp::OpenReceiveWindow,
                BufferOp::ReturnToApplication,
                BufferOp::HandToEngine,
            ]
            &&& old(buf).state != OwnerState::EngineOwned ==> r == Err::<
                Option<Notification>,
                ProtocolError,
            >(ProtocolError::NotEngineOwned) && *final(buf) == *old(buf)
            &&& old(buf).state == OwnerState::EngineOwned && d.len as int > old(buf).data@.len()
                ==> r == Err::<Option<Notification>, ProtocolError>(ProtocolError::OutOfBounds)
                && *final(buf) == *old(buf)
        },
{
    match event {
        ClientEvent::NoEvent => Ok(None),
        ClientEvent::TransmitDone => {
            if buf.state != OwnerState::ApplicationOwned {
                match buf.return_to_application() {
                    Ok(()) => Ok(Some(Notification::TransmitDone)),
                    Err(e) => {
                        proof {
                            assert(false);
                        }
                        Err(e)
                    },
                }
            } else {
                Ok(Some(Notification::TransmitDone))
            }
        },
        ClientEvent::Receive(d) => {
            if buf.state != OwnerState::EngineOwned {
                return Err(ProtocolError::NotEngineOwned);
            }
            let len = d.len as usize;
            if len > buf.data.len() {
                return Err(ProtocolError::OutOfBounds);
            }
            match buf.open_receive_window() {
                Ok(()) => {},
                Err(e) => {
                    proof {
                        assert(false);
                    }
                    return Err(e);
                },
            }
            let mut bytes: Vec<u8> = Vec::new();
            let mut i: usize = 0;
            while i < len
                invariant
                    i <= len,
                    len <= buf.data@.len(),
                    buf.state == OwnerState::ReceiveWindow,
                    buf.data@ == old(buf).data@,
                    buf.ops@ == old(buf).ops@.push(BufferOp::OpenReceiveWindow),
                    bytes@ == old(buf).data@.take(i as int),
                decreases len - i,
            {
                match buf.read(Party::Application, i) {
                    Ok(b) => bytes.push(b),
                    Err(_) => {
                        proof {
                            assert(false);
                        }
                    },
                }
                i = i + 1;
                proof {
                    assert(bytes@ =~= old(buf).data@.take(i as int));
                }
            }
            match buf.return_to_application() {
                Ok(()) => {},
                Err(e) => {
                    proof {
                        assert(false);
                    }
                    return Err(e);
                },
            }
            match buf.hand_to_engine() {
                Ok(()) => {},
                Err(e) => {
                    proof {
                        assert(false);
                    }
                    return Err(e);
                },
            }
            proof {
                assert(buf.ops@ =~= old(buf).ops@ + seq![
                    BufferOp::OpenReceiveWindow,
                    BufferOp::ReturnToApplication,
                    BufferOp::HandToEngine,
                ]);
            }
            Ok(Some(Notification::Received { len: d.len, rssi: d.rssi, snr: d.snr, bytes }))
        },
    }
}

/// Appending one element shifts the count of matching hand-offs by exactly
/// one when the element matches, and not at all otherwise.
pub proof fn lemma_count_matching_push(s: Seq<BufferOp>, x: BufferOp, op: BufferOp)
    ensures
        count_matching(s.push(x), op) == count_matching(s, op) + if x == op {
            1nat
        } else {
            0nat
        },
{
    assert(s.push(x).drop_last() =~= s);
}

/// Translating a received packet hands the buffer back to the application
/// exactly once: the hand-off log gains exactly one `ReturnToApplication`.
pub proof fn lemma_receive_returns_exactly_once(s: Seq<BufferOp>)
    ensures
        count_matching(
            s + seq![
                BufferOp::OpenReceiveWindow,
                BufferOp::ReturnToApplication,
                BufferOp::HandToEngine,
            ],
            BufferOp::ReturnToApplication,
        ) == count_matching(s, BufferOp::ReturnToApplication) + 1,
{
    let appended = s + seq![
        BufferOp::OpenReceiveWindow,
        BufferOp::ReturnToApplication,
        BufferOp::HandToEngine,
    ];
    assert(appended =~= s.push(BufferOp::OpenReceiveWindow).push(
        BufferOp::ReturnToApplication,
    ).push(BufferOp::HandToEngine));
    lemma_count_matching_push(
        s.push(BufferOp::OpenReceiveWindow).push(BufferOp::ReturnToApplication),
        BufferOp::HandToEngine,
        BufferOp::ReturnToApplication,
    );
    lemma_count_matching_push(
        s.push(BufferOp::OpenReceiveWindow),
        BufferOp::ReturnToApplication,
        BufferOp::ReturnToApplication,
    );
    lemma_count_matching_push(s, BufferOp::OpenReceiveWindow, BufferOp::ReturnToApplication);
}

/// The fixed layout of the outgoing test packet: the counter's four bytes,
/// least significant first.
pub open spec fn test_packet_bytes(counter: u32) -> Seq<u8> {
    seq![
        (counter & 0xff) as u8,
        ((counter >> 8) & 0xff) as u8,
        ((counter >> 16) & 0xff) as u8,
        ((counter >> 24) & 0xff) as u8,
    ]
}

/// Build the outgoing test packet for the given counter value.
pub fn build_test_packet(counter: u32) -> (p: Vec<u8>)
    ensures
        p@ == test_packet_bytes(counter),
{
    proof {
        assert((counter & 0xff) < 256 && ((counter >> 8) & 0xff) < 256 && ((counter >> 16) & 0xff)
            < 256 && ((counter >> 24) & 0xff) < 256) by (bit_vector);
    }
    let mut p: Vec<u8> = Vec::new();
    p.push((counter & 0xff) as u8);
    p.push(((counter >> 8) & 0xff) as u8);
    p.push(((counter >> 16) & 0xff) as u8);
    p.push(((counter >> 24) & 0xff) as u8);
    proof {
        assert(p@ =~= test_packet_bytes(counter));
    }
    p
}

/// Copy an outgoing payload into the front of the shared buffer and hand the
/// buffer to the engine for transmission. Refused, with everything
/// unchanged, when the application does not own the buffer or the payload
/// does not fit.
pub fn prepare_send(buf: &mut SharedBuffer, payload: &Vec<u8>) -> (r: Result<(), ProtocolError>)
    ensures
        r is Ok <==> old(buf).state == OwnerState::ApplicationOwned && payload@.len() <= old(
            buf,
        ).data@.len(),
        r is Ok ==> final(buf).state == OwnerState::EngineOwned && final(buf).data@ == payload@
            + old(buf).data@.skip(payload@.len() as int) && final(buf).ops@ == old(
            buf,
        ).ops@.push(BufferOp::HandToEngine),
        old(buf).state != OwnerState::ApplicationOwned ==> r == Err::<(), ProtocolError>(
            ProtocolError::NotApplicationOwned,
        ) && *final(buf) == *old(buf),
        old(buf).state == OwnerState::ApplicationOwned && payload@.len() > old(buf).data@.len()
            ==> r == Err::<(), ProtocolError>(ProtocolError::OutOfBounds) && *final(buf) == *old(
            buf,
        ),
{
    if buf.state != OwnerState::ApplicationOwned {
        return Err(ProtocolError::NotApplicationOwned);
    }
    if payload.len() > buf.data.len() {
        return Err(ProtocolError::OutOfBounds);
    }
    let mut i: usize = 0;
    while i < payload.len()
        invariant
            i <= payload@.len(),
            payload@.len() <= buf.data@.len(),
            buf.state == OwnerState::ApplicationOwned,
            buf.ops@ == old(buf).ops@,
            buf.data@.len() == old(buf).data@.len(),
            forall|j: int| 0 <= j < i ==> buf.data@[j] == payload@[j],
            forall|j: int| i <= j < buf.data@.len() ==> buf.data@[j] == old(buf).data@[j],
        decreases payload@.len() - i,
    {
        match buf.write(Party::Application, i, payload[i]) {
            Ok(()) => {},
            Err(_) => {
                proof {
                    assert(false);
                }
            },
        }
        i = i + 1;
    }
    proof {
        assert(buf.data@ =~= payload@ + old(buf).data@.skip(payload@.len() as int));
    }
    match buf.hand_to_engine() {
        Ok(()) => Ok(()),
        Err(e) => {
            proof {
                assert(false);
            }
            Err(e)
        },
    }
}

/// The send path's monotonically incrementing packet counter.
pub struct TestSender {
    /// The counter embedded in the next packet.
    pub counter: u32,
}

impl TestSender {
    /// A sender whose first packet carries counter zero.
    pub fn new() -> (s: TestSender)
        ensures
            s.counter == 0,
    {
        TestSender { counter: 0 }
    }

    /// The next outgoing packet; the counter steps by one, wrapping at the
    /// top of its range.
    pub fn next_packet(&mut self) -> (p: Vec<u8>)
        ensures
            p@ == test_packet_bytes(old(self).counter),
            final(self).counter == (if old(self).counter == u32::MAX {
                0u32
            } else {
                (old(self).counter + 1) as u32
            }),
    {
        let p = build_test_packet(self.counter);
        if self.counter == u32::MAX {
            self.counter = 0;
        } else {
            self.counter = self.counter + 1;
        }
        p
    }
}

} // verus!
