//! Interrupt-to-task dispatch.
//!
//! A hardware interrupt handler does the minimum: it clears the hardware
//! pending condition and enqueues exactly one task; all further processing
//! happens in the task. Tasks live in bounded per-kind queues — exceeding a
//! queue's capacity is a fatal error, never a silent drop — and are
//! dispatched by strict priority: radio events run at the high tier,
//! send-test-packet requests at the low tier, and within a tier tasks run in
//! enqueue order.

use vstd::prelude::*;

verus! {

/// Capacity of each task queue: at most this many outstanding tasks of one
/// kind.
pub const TASK_CAPACITY: usize = 4;

/// The event tag carried by a radio-event task: the device's first interrupt
/// line.
pub const RADIO_DIO_TAG: u8 = 0;

/// The two priority tiers of the scheduler.
#[derive(Clone, Copy, Debug, PartialEq, Eq, Structural)]
pub enum Priority {
    Low,
    High,
}

/// A queued unit of deferred work.
#[derive(Clone, Copy, Debug, PartialEq, Eq, Structural)]
pub enum PendingTask {
    /// The radio device signalled an interrupt; `tag` names the device line.
    RadioEvent { tag: u8 },
    /// A byte arrived on the debug console: send a test packet.
    SendTestPacket,
}

/// Why a dispatch operation failed. Queue overflow is fatal to the system.
#[derive(Clone, Copy, Debug, PartialEq, Eq, Structural)]
pub enum DispatchError {
    /// A task was enqueued while its queue already held `TASK_CAPACITY`
    /// entries.
    TaskOverflow,
}

/// The tier a task runs at: radio events preempt send requests.
pub open spec fn priority_of(t: PendingTask) -> Priority {
    match t {
        PendingTask::RadioEvent { .. } => Priority::High,
        PendingTask::SendTestPacket => Priority::Low,
    }
}

/// The two bounded task queues, one per kind, each FIFO.
pub struct TaskQueue {
    /// Queued radio-event tags, oldest first (high tier).
    pub radio_events: Vec<u8>,
    /// Number of queued send-test-packet tasks (low tier, no payload).
    pub send_requests: usize,
}

/// The mathematical state of the two task queues.
pub ghost struct QueueModel {
    /// Queued radio-event tags, oldest first.
    pub radio_events: Seq<u8>,
    /// Number of queued send-test-packet tasks.
    pub send_requests: int,
}

/// A queue within its capacity bounds.
pub open spec fn queue_wf(m: QueueModel) -> bool {
    m.radio_events.len() <= TASK_CAPACITY && 0 <= m.send_requests <= TASK_CAPACITY
}

/// The queue after a radio event with `tag` is accepted.
pub open spec fn spec_enqueue_radio(m: QueueModel, tag: u8) -> QueueModel {
    QueueModel { radio_events: m.radio_events.push(tag), send_requests: m.send_requests }
}

/// The task the scheduler dispatches next: the oldest task of the highest
/// non-empty tier, or nothing.
pub open spec fn spec_next(m: QueueModel) -> Option<PendingTask> {
    if m.radio_events.len() > 0 {
        Some(PendingTask::RadioEvent { tag: m.radio_events[0] })
    } else if m.send_requests > 0 {
        Some(PendingTask::SendTestPacket)
    } else {
        None
    }
}

impl View for TaskQueue {
    type V = QueueModel;

    open spec fn view(&self) -> QueueModel {
        QueueModel { radio_events: self.radio_events@, send_requests: self.send_requests as int }
    }
}

impl TaskQueue {
    /// Both queues empty.
    pub fn new() -> (q: TaskQueue)
        ensures
            q@.radio_events == Seq::<u8>::empty(),
            q@.send_requests == 0,
            queue_wf(q@),
    {
        TaskQueue { radio_events: Vec::new(), send_requests: 0 }
    }

    /// Enqueue a radio-event task at the high tier. Overflow is reported,
    /// never absorbed: with `TASK_CAPACITY` tasks already queued the attempt
    /// fails and the queue is unchanged.
    pub fn enqueue_radio_event(&mut self, tag: u8) -> (r: Result<(), DispatchError>)
        ensures
            r is Ok <==> old(self)@.radio_events.len() < TASK_CAPACITY,
            r is Ok ==> final(self)@ == spec_enqueue_radio(old(self)@, tag),
            r is Err ==> *final(self) == *old(self) && r == Err::<(), DispatchError>(
                DispatchError::TaskOverflow,
            ),
    {
        if self.radio_events.len() < TASK_CAPACITY {
            self.radio_events.push(tag);
            Ok(())
        } else {
            Err(DispatchError::TaskOverflow)
        }
    }

    /// Enqueue a send-test-packet task at the low tier, with the same
    /// overflow rule.
    pub fn enqueue_send_test_packet(&mut self) -> (r: Result<(), DispatchError>)
        ensures
            r is Ok <==> old(self)@.send_requests < TASK_CAPACITY,
            r is Ok ==> final(self)@.send_requests == old(self)@.send_requests + 1
                && final(self)@.radio_events == old(self)@.radio_events,
            r is Err ==> *final(self) == *old(self) && r == Err::<(), DispatchError>(
                DispatchError::TaskOverflow,
            ),
    {
        if self.send_requests < TASK_CAPACITY {
            self.send_requests = self.send_requests + 1;
            Ok(())
        } else {
            Err(DispatchError::TaskOverflow)
        }
    }

    /// Remove and return the task to run next: the oldest queued radio event
    /// if any exists, else the oldest send request, else nothing.
    pub fn next_task(&mut self) -> (t: Option<PendingTask>)
        ensures
            t == spec_next(old(self)@),
            old(self)@.radio_events.len() > 0 ==> final(self)@.radio_events
                == old(self)@.radio_events.skip(1)
                && final(self)@.send_requests == old(self)@.send_requests,
            old(self)@.radio_events.len() == 0 && old(self)@.send_requests > 0 ==> final(self)@.send_requests
                == old(self)@.send_requests - 1
                && final(self)@.radio_events == old(self)@.radio_events,
            old(self)@.radio_events.len() == 0 && old(self)@.send_requests == 0 ==> *final(self)
                == *old(self),
    {
        if self.radio_events.len() > 0 {
            let tag = self.radio_events.remove(0);
            Some(PendingTask::RadioEvent { tag })
        } else if self.send_requests > 0 {
            self.send_requests = self.send_requests - 1;
            Some(PendingTask::SendTestPacket)
        } else {
            None
        }
    }
}

/// Priority correctness: with a low-priority send request already queued, a
/// radio event accepted afterwards is dispatched before it — the high tier
/// preempts the low tier at the next task-switch boundary.
pub proof fn lemma_priority_preemption(m: QueueModel, tag: u8)
    requires
        m.send_requests > 0,
        m.radio_events.len() == 0,
    ensures
        spec_next(m) == Some(PendingTask::SendTestPacket),
        spec_next(spec_enqueue_radio(m, tag)) == Some(PendingTask::RadioEvent { tag }),
        priority_of(PendingTask::RadioEvent { tag }) == Priority::High,
        priority_of(PendingTask::SendTestPacket) == Priority::Low,
{
}

/// The external interrupt line the radio device signals on.
pub struct RadioIrqLine {
    /// The hardware pending flag of the line.
    pub pending: bool,
    /// Whether rising edges on the line are being listened to.
    pub listening: bool,
}

/// Configure the radio interrupt line: rising edges are listened to from now
/// on; the line itself is handed back to the caller.
pub fn initialize_radio_irq(line: RadioIrqLine) -> (r: RadioIrqLine)
    ensures
        r.listening,
        r.pending == line.pending,
{
    RadioIrqLine { pending: line.pending, listening: true }
}

/// The radio-device interrupt handler: clear the hardware pending flag
/// first (so the handler cannot re-enter), then enqueue exactly one
/// radio-event task carrying the device line tag. Queue overflow is fatal
/// and reported to the caller.
pub fn handle_radio_interrupt(line: &mut RadioIrqLine, q: &mut TaskQueue) -> (r: Result<
    (),
    DispatchError,
>)
    requires
        old(line).pending,
    ensures
        !final(line).pending,
        final(line).listening == old(line).listening,
        r is Ok <==> old(q)@.radio_events.len() < TASK_CAPACITY,
        r is Ok ==> final(q)@ == spec_enqueue_radio(old(q)@, RADIO_DIO_TAG),
        r is Err ==> *final(q) == *old(q) && r == Err::<(), DispatchError>(
            DispatchError::TaskOverflow,
        ),
{
    line.pending = false;
    q.enqueue_radio_event(RADIO_DIO_TAG)
}

/// The byte-oriented debug console input, as the dispatch layer sees it:
/// the bytes received but not yet drained, oldest first.
pub struct ConsoleInput {
    /// Received bytes waiting to be acknowledged.
    pub rx: Vec<u8>,
}

/// The console receive interrupt handler: drain one byte (acknowledging the
/// hardware flag) and enqueue one send-test-packet task, whatever the byte
/// holds. Queue overflow is fatal and reported.
pub fn handle_console_interrupt(console: &mut ConsoleInput, q: &mut TaskQueue) -> (r: Result<
    u8,
    DispatchError,
>)
    requires
        old(console).rx@.len() > 0,
    ensures
        final(console).rx@ == old(console).rx@.skip(1),
        r is Ok <==> old(q)@.send_requests < TASK_CAPACITY,
        r is Ok ==> r == Ok::<u8, DispatchError>(old(console).rx@[0]) && final(q)@.send_requests
            == old(q)@.send_requests + 1 && final(q)@.radio_events == old(q)@.radio_events,
        r is Err ==> *final(q) == *old(q) && r == Err::<u8, DispatchError>(
            DispatchError::TaskOverflow,
        ),
{
    let byte = console.rx.remove(0);
    match q.enqueue_send_test_packet() {
        Ok(()) => Ok(byte),
        Err(e) => Err(e),
    }
}

} // verus!
