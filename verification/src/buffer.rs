//! Exclusive ownership of the shared packet buffer.
//!
//! One fixed-capacity byte buffer is passed back and forth between the
//! application and the radio engine. At every instant exactly one party owns
//! it; the owner alone may write. After the engine reports a received packet
//! it still holds the buffer, but a read-only window is open in which the
//! application may inspect the bytes before handing the buffer back. Every
//! hand-off is an explicit, checked transition: an operation attempted by the
//! wrong party is refused and leaves the buffer untouched.

use vstd::prelude::*;

verus! {

/// The two parties that can hold the shared packet buffer.
#[derive(Clone, Copy, Debug, PartialEq, Eq, Structural)]
pub enum Party {
    Application,
    Engine,
}

/// The ownership state of the shared packet buffer.
#[derive(Clone, Copy, Debug, PartialEq, Eq, Structural)]
pub enum OwnerState {
    /// The application holds the buffer and may read and write it.
    ApplicationOwned,
    /// The engine holds the buffer and may read and write it.
    EngineOwned,
    /// The engine still holds the buffer after reporting a received packet;
    /// the application may read it, nobody may write it.
    ReceiveWindow,
}

/// One successful hand-off of the shared packet buffer.
#[derive(Clone, Copy, Debug, PartialEq, Eq, Structural)]
pub enum BufferOp {
    /// The application relinquished the buffer to the engine.
    HandToEngine,
    /// The engine reported a received packet, opening the read-only window.
    OpenReceiveWindow,
    /// The buffer was handed back to the application.
    ReturnToApplication,
}

/// Why a buffer operation was refused.
#[derive(Clone, Copy, Debug, PartialEq, Eq, Structural)]
pub enum ProtocolError {
    /// A hand-off to the engine was requested while the application did not
    /// own the buffer.
    NotApplicationOwned,
    /// A transition reserved to the engine was requested while the engine did
    /// not own the buffer.
    NotEngineOwned,
    /// A hand-back was requested while the application already owned the
    /// buffer.
    AlreadyApplicationOwned,
    /// The acting party does not have the needed access in the current state.
    AccessDenied,
    /// An index or length beyond the buffer's capacity.
    OutOfBounds,
}

/// The party that holds the buffer in state `s`.
pub open spec fn owner_of(s: OwnerState) -> Party {
    match s {
        OwnerState::ApplicationOwned => Party::Application,
        OwnerState::EngineOwned => Party::Engine,
        OwnerState::ReceiveWindow => Party::Engine,
    }
}

/// The other party.
pub open spec fn other_party(p: Party) -> Party {
    match p {
        Party::Application => Party::Engine,
        Party::Engine => Party::Application,
    }
}

/// Whether party `p` may write the buffer in state `s`.
pub open spec fn may_write(s: OwnerState, p: Party) -> bool {
    match s {
        OwnerState::ApplicationOwned => p == Party::Application,
        OwnerState::EngineOwned => p == Party::Engine,
        OwnerState::ReceiveWindow => false,
    }
}

/// Whether party `p` may read the buffer in state `s`.
pub open spec fn may_read(s: OwnerState, p: Party) -> bool {
    match s {
        OwnerState::ApplicationOwned => p == Party::Application,
        OwnerState::EngineOwned => p == Party::Engine,
        OwnerState::ReceiveWindow => p == Party::Application,
    }
}

/// The state after hand-off `op` in state `s`, or `None` where the protocol
/// refuses the hand-off.
pub open spec fn step(s: OwnerState, op: BufferOp) -> Option<OwnerState> {
    match op {
        BufferOp::HandToEngine => if s == OwnerState::ApplicationOwned {
            Some(OwnerState::EngineOwned)
        } else {
            None
        },
        BufferOp::OpenReceiveWindow => if s == OwnerState::EngineOwned {
            Some(OwnerState::ReceiveWindow)
        } else {
            None
        },
        BufferOp::ReturnToApplication => if s != OwnerState::ApplicationOwned {
            Some(OwnerState::ApplicationOwned)
        } else {
            None
        },
    }
}

/// The state after attempting the hand-offs `ops` in order from `s`; a
/// refused hand-off leaves the state unchanged.
pub open spec fn run(s: OwnerState, ops: Seq<BufferOp>) -> OwnerState
    decreases ops.len(),
{
    if ops.len() == 0 {
        s
    } else {
        let next = match step(s, ops[0]) {
            Some(t) => t,
            None => s,
        };
        run(next, ops.skip(1))
    }
}

/// Exclusive access: at most one party may write, and while a party may
/// write, the other party may neither read nor write.
pub open spec fn exclusive_access(s: OwnerState) -> bool {
    forall|p: Party|
        may_write(s, p) ==> !may_write(s, other_party(p)) && !may_read(s, other_party(p))
}

/// In every ownership state the buffer has exactly one holder, at most one
/// writer, and no observable read/write overlap between the two parties.
pub proof fn lemma_exclusive_access(s: OwnerState)
    ensures
        exclusive_access(s),
        forall|p: Party, q: Party| may_write(s, p) && may_write(s, q) ==> p == q,
{
}

/// Whatever sequence of hand-offs is attempted from the initial
/// application-owned state, the buffer has exclusive access at every
/// intermediate instant `i`.
pub proof fn lemma_single_owner_at_every_instant(ops: Seq<BufferOp>, i: int)
    requires
        0 <= i <= ops.len(),
    ensures
        exclusive_access(run(OwnerState::ApplicationOwned, ops.take(i))),
{
    lemma_exclusive_access(run(OwnerState::ApplicationOwned, ops.take(i)));
}

/// The shared packet buffer: a fixed-capacity byte region together with its
/// current ownership state and the log of the hand-offs performed on it.
pub struct SharedBuffer {
    /// The byte contents; the length never changes after construction.
    pub data: Vec<u8>,
    /// Who holds the buffer now.
    pub state: OwnerState,
    /// Every successful hand-off, in order.
    pub ops: Vec<BufferOp>,
}

impl SharedBuffer {
    /// A zero-filled, application-owned buffer of the given capacity.
    pub fn new(capacity: usize) -> (b: SharedBuffer)
        ensures
            b.data@.len() == capacity,
            forall|i: int| 0 <= i < capacity ==> b.data@[i] == 0u8,
            b.state == OwnerState::ApplicationOwned,
            b.ops@ == Seq::<BufferOp>::empty(),
    {
        let mut data: Vec<u8> = Vec::new();
        let mut i: usize = 0;
        while i < capacity
            invariant
                i <= capacity,
                data@.len() == i,
                forall|j: int| 0 <= j < i ==> data@[j] == 0u8,
            decreases capacity - i,
        {
            data.push(0u8);
            i = i + 1;
        }
        SharedBuffer { data, state: OwnerState::ApplicationOwned, ops: Vec::new() }
    }

    /// The application relinquishes the buffer to the engine. Refused, with
    /// the buffer untouched, when the application does not own it.
    pub fn hand_to_engine(&mut self) -> (r: Result<(), ProtocolError>)
        ensures
            r is Ok <==> old(self).state == OwnerState::ApplicationOwned,
            r is Ok ==> final(self).state == OwnerState::EngineOwned
                && final(self).data@ == old(self).data@
                && final(self).ops@ == old(self).ops@.push(BufferOp::HandToEngine),
            r is Err ==> *final(self) == *old(self) && r == Err::<(), ProtocolError>(
                ProtocolError::NotApplicationOwned,
            ),
            r is Ok ==> step(old(self).state, BufferOp::HandToEngine) == Some(final(self).state),
            r is Err ==> step(old(self).state, BufferOp::HandToEngine) is None,
    {
        if self.state == OwnerState::ApplicationOwned {
            self.state = OwnerState::EngineOwned;
            self.ops.push(BufferOp::HandToEngine);
            Ok(())
        } else {
            Err(ProtocolError::NotApplicationOwned)
        }
    }

    /// The engine reports a received packet: the read-only window opens.
    /// Refused, with the buffer untouched, when the engine does not own the
    /// buffer outright.
    pub fn open_receive_window(&mut self) -> (r: Result<(), ProtocolError>)
        ensures
            r is Ok <==> old(self).state == OwnerState::EngineOwned,
            r is Ok ==> final(self).state == OwnerState::ReceiveWindow
                && final(self).data@ == old(self).data@
                && final(self).ops@ == old(self).ops@.push(BufferOp::OpenReceiveWindow),
            r is Err ==> *final(self) == *old(self) && r == Err::<(), ProtocolError>(
                ProtocolError::NotEngineOwned,
            ),
            r is Ok ==> step(old(self).state, BufferOp::OpenReceiveWindow) == Some(
                final(self).state,
            ),
            r is Err ==> step(old(self).state, BufferOp::OpenReceiveWindow) is None,
    {
        if self.state == OwnerState::EngineOwned {
            self.state = OwnerState::ReceiveWindow;
            self.ops.push(BufferOp::OpenReceiveWindow);
            Ok(())
        } else {
            Err(ProtocolError::NotEngineOwned)
        }
    }

    /// The buffer is handed back to the application. Refused when the
    /// application already owns it.
    pub fn return_to_application(&mut self) -> (r: Result<(), ProtocolError>)
        ensures
            r is Ok <==> old(self).state != OwnerState::ApplicationOwned,
            r is Ok ==> final(self).state == OwnerState::ApplicationOwned
                && final(self).data@ == old(self).data@
                && final(self).ops@ == old(self).ops@.push(BufferOp::ReturnToApplication),
            r is Err ==> *final(self) == *old(self) && r == Err::<(), ProtocolError>(
                ProtocolError::AlreadyApplicationOwned,
            ),
            r is Ok ==> step(old(self).state, BufferOp::ReturnToApplication) == Some(
                final(self).state,
            ),
            r is Err ==> step(old(self).state, BufferOp::ReturnToApplication) is None,
    {
        if self.state != OwnerState::ApplicationOwned {
            self.state = OwnerState::ApplicationOwned;
            self.ops.push(BufferOp::ReturnToApplication);
            Ok(())
        } else {
            Err(ProtocolError::AlreadyApplicationOwned)
        }
    }

    /// Party `p` writes one byte. Allowed only for the current writer and
    /// inside the capacity; otherwise refused with the buffer untouched.
    pub fn write(&mut self, p: Party, i: usize, byte: u8) -> (r: Result<(), ProtocolError>)
        ensures
            r is Ok <==> may_write(old(self).state, p) && i < old(self).data@.len(),
            r is Ok ==> final(self).data@ == old(self).data@.update(i as int, byte)
                && final(self).state == old(self).state
                && final(self).ops@ == old(self).ops@,
            r is Err ==> *final(self) == *old(self),
            !may_write(old(self).state, p) ==> r == Err::<(), ProtocolError>(
                ProtocolError::AccessDenied,
            ),
            may_write(old(self).state, p) && i >= old(self).data@.len() ==> r == Err::<
                (),
                ProtocolError,
            >(ProtocolError::OutOfBounds),
    {
        let allowed = match self.state {
            OwnerState::ApplicationOwned => p == Party::Application,
            OwnerState::EngineOwned => p == Party::Engine,
            OwnerState::ReceiveWindow => false,
        };
        if !allowed {
            Err(ProtocolError::AccessDenied)
        } else if i >= self.data.len() {
            Err(ProtocolError::OutOfBounds)
        } else {
            self.data.set(i, byte);
            Ok(())
        }
    }

    /// Party `p` reads one byte. Allowed for the owner, and for the
    /// application inside the read-only window.
    pub fn read(&self, p: Party, i: usize) -> (r: Result<u8, ProtocolError>)
        ensures
            r is Ok <==> may_read(self.state, p) && i < self.data@.len(),
            r is Ok ==> r == Ok::<u8, ProtocolError>(self.data@[i as int]),
            !may_read(self.state, p) ==> r == Err::<u8, ProtocolError>(ProtocolError::AccessDenied),
            may_read(self.state, p) && i >= self.data@.len() ==> r == Err::<u8, ProtocolError>(
                ProtocolError::OutOfBounds,
            ),
    {
        let allowed = match self.state {
            OwnerState::ApplicationOwned => p == Party::Application,
            OwnerState::EngineOwned => p == Party::Engine,
            OwnerState::ReceiveWindow => p == Party::Application,
        };
        if !allowed {
            Err(ProtocolError::AccessDenied)
        } else if i >= self.data.len() {
            Err(ProtocolError::OutOfBounds)
        } else {
            Ok(self.data[i])
        }
    }

    /// How many hand-offs of kind `op` the log holds.
    pub fn count_ops(&self, op: BufferOp) -> (n: usize)
        ensures
            n as nat == count_matching(self.ops@, op),
    {
        let mut n: usize = 0;
        let mut i: usize = 0;
        while i < self.ops.len()
            invariant
                i <= self.ops@.len(),
                n as nat == count_matching(self.ops@.take(i as int), op),
                n <= i,
            decreases self.ops@.len() - i,
        {
            proof {
                assert(self.ops@.take(i as int + 1).drop_last() =~= self.ops@.take(i as int));
                assert(self.ops@.take(i as int + 1).last() == self.ops@[i as int]);
            }
            if self.ops[i] == op {
                n = n + 1;
            }
            i = i + 1;
        }
        proof {
            assert(self.ops@.take(self.ops@.len() as int) =~= self.ops@);
        }
        n
    }
}

/// How many elements of `s` equal `op`.
pub open spec fn count_matching(s: Seq<BufferOp>, op: BufferOp) -> nat
    decreases s.len(),
{
    if s.len() == 0 {
        0
    } else {
        count_matching(s.drop_last(), op) + if s.last() == op {
            1nat
        } else {
            0nat
        }
    }
}

} // verus!
