//! Inter-task message passing: bounded per-endpoint FIFOs with
//! capability-named endpoints, wait sets, and wakeups.
//!
//! Every endpoint keeps its messages in send order and hands them out
//! from the front, so receives on one endpoint observe sends in the order
//! they were made. A send wakes every task that was waiting on the
//! endpoint; a wakeup does not guarantee that a message is still present
//! when the woken task runs, so blocking receivers retry.

use vstd::prelude::*;
use std::collections::VecDeque;
use crate::capability::CapabilityId;
use crate::scheduler::{Scheduler, Task, TaskState};
use crate::task::TaskId;

verus! {

/// Maximum message payload in bytes.
pub const MAX_MESSAGE_SIZE: usize = 4096;

/// Capacity of each endpoint's FIFO.
pub const MAX_QUEUE_DEPTH: usize = 16;

/// Errors surfaced by the IPC fabric.
#[derive(Debug, Clone, Copy, PartialEq, Eq, Structural)]
pub enum IpcError {
    /// Payload exceeds [`MAX_MESSAGE_SIZE`].
    MessageTooLarge,
    /// The endpoint FIFO is at capacity.
    QueueFull,
    /// No endpoint is registered under the capability.
    EndpointNotFound,
    /// The caller holds no capability admitting the operation.
    PermissionDenied,
    /// No message is available.
    NoMessage,
}

/// A message queued at an endpoint.
#[derive(Debug, Clone)]
pub struct Message {
    /// Task that sent the message.
    pub sender: TaskId,
    /// Payload, at most [`MAX_MESSAGE_SIZE`] bytes.
    pub data: Vec<u8>,
    /// Capability transferred along with the message, if any.
    pub transferred_cap: Option<CapabilityId>,
}

impl Message {
    /// Build a message; rejected exactly when the payload is oversized.
    pub fn new(sender: TaskId, data: Vec<u8>) -> (r: Result<Self, IpcError>)
        ensures
            data@.len() > MAX_MESSAGE_SIZE ==> r == Err::<Message, IpcError>(IpcError::MessageTooLarge),
            data@.len() <= MAX_MESSAGE_SIZE ==> r == Ok::<Message, IpcError>(Message {
                sender,
                data,
                transferred_cap: None,
            }),
    {
        if data.len() > MAX_MESSAGE_SIZE {
            return Err(IpcError::MessageTooLarge);
        }
        Ok(Message { sender, data, transferred_cap: None })
    }

    /// Build a message that transfers a capability; rejected exactly when
    /// the payload is oversized.
    pub fn with_capability(sender: TaskId, data: Vec<u8>, cap: CapabilityId) -> (r: Result<Self, IpcError>)
        ensures
            data@.len() > MAX_MESSAGE_SIZE ==> r == Err::<Message, IpcError>(IpcError::MessageTooLarge),
            data@.len() <= MAX_MESSAGE_SIZE ==> r == Ok::<Message, IpcError>(Message {
                sender,
                data,
                transferred_cap: Some(cap),
            }),
    {
        if data.len() > MAX_MESSAGE_SIZE {
            return Err(IpcError::MessageTooLarge);
        }
        Ok(Message { sender, data, transferred_cap: Some(cap) })
    }
}

/// A bounded FIFO of messages together with the set of tasks waiting on it.
pub struct IpcEndpoint {
    /// The capability this endpoint is registered under.
    pub id: CapabilityId,
    /// Queued messages, oldest first.
    pub messages: VecDeque<Message>,
    /// Tasks blocked waiting for a message, each at most once.
    pub waiting_tasks: Vec<TaskId>,
    /// Capacity of the FIFO.
    pub max_queue_size: usize,
}

impl IpcEndpoint {
    /// The endpoint's capacity is the fabric-wide queue depth.
    pub open spec fn wf(self) -> bool {
        self.max_queue_size == MAX_QUEUE_DEPTH
    }

    /// A fresh, empty endpoint registered under `id`.
    pub fn new(id: CapabilityId) -> (r: Self)
        ensures
            r.wf(),
            r.id == id,
            r.messages@.len() == 0,
            r.waiting_tasks@.len() == 0,
            r.max_queue_size == MAX_QUEUE_DEPTH,
    {
        IpcEndpoint {
            id,
            messages: VecDeque::new(),
            waiting_tasks: Vec::new(),
            max_queue_size: MAX_QUEUE_DEPTH,
        }
    }

    /// Append a message; fails exactly when the FIFO is at capacity, and
    /// never drops or reorders what is already queued.
    pub fn send(&mut self, message: Message) -> (r: Result<(), IpcError>)
        ensures
            old(self).messages@.len() >= old(self).max_queue_size ==> {
                &&& r == Err::<(), IpcError>(IpcError::QueueFull)
                &&& final(self).messages@ == old(self).messages@
            },
            old(self).messages@.len() < old(self).max_queue_size ==> {
                &&& r == Ok::<(), IpcError>(())
                &&& final(self).messages@ == old(self).messages@.push(message)
            },
            final(self).id == old(self).id,
            final(self).waiting_tasks@ == old(self).waiting_tasks@,
            final(self).max_queue_size == old(self).max_queue_size,
    {
        if self.messages.len() >= self.max_queue_size {
            return Err(IpcError::QueueFull);
        }
        self.messages.push_back(message);
        Ok(())
    }

    /// Take the oldest message, if any.
    pub fn try_receive(&mut self) -> (r: Option<Message>)
        ensures
            old(self).messages@.len() == 0 ==> r is None && final(self).messages@ == old(self).messages@,
            old(self).messages@.len() > 0 ==> {
                &&& r == Some(old(self).messages@[0])
                &&& final(self).messages@ == old(self).messages@.subrange(1, old(self).messages@.len() as int)
            },
            final(self).id == old(self).id,
            final(self).waiting_tasks@ == old(self).waiting_tasks@,
            final(self).max_queue_size == old(self).max_queue_size,
    {
        self.messages.pop_front()
    }

    /// Whether a message is queued.
    pub fn has_messages(&self) -> (r: bool)
        ensures
            r <==> self.messages@.len() > 0,
    {
        self.messages.len() != 0
    }

    /// Register `task` as a waiter, keeping each task at most once.
    pub fn add_waiter(&mut self, task: TaskId)
        ensures
            old(self).waiting_tasks@.contains(task)
                ==> final(self).waiting_tasks@ == old(self).waiting_tasks@,
            !old(self).waiting_tasks@.contains(task)
                ==> final(self).waiting_tasks@ == old(self).waiting_tasks@.push(task),
            final(self).id == old(self).id,
            final(self).messages@ == old(self).messages@,
            final(self).max_queue_size == old(self).max_queue_size,
    {
        let mut i: usize = 0;
        while i < self.waiting_tasks.len()
            invariant
                i <= self.waiting_tasks@.len(),
                forall|j: int| 0 <= j < i ==> self.waiting_tasks@[j] != task,
            decreases self.waiting_tasks@.len() - i,
        {
            if self.waiting_tasks[i] == task {
                assert(self.waiting_tasks@.contains(task));
                return;
            }
            i = i + 1;
        }
        assert(!self.waiting_tasks@.contains(task));
        self.waiting_tasks.push(task);
    }

    /// Drain the wait set, handing back every waiter.
    pub fn take_waiters(&mut self) -> (r: Vec<TaskId>)
        ensures
            r@ == old(self).waiting_tasks@,
            final(self).waiting_tasks@.len() == 0,
            final(self).id == old(self).id,
            final(self).messages@ == old(self).messages@,
            final(self).max_queue_size == old(self).max_queue_size,
    {
        let mut out: Vec<TaskId> = Vec::new();
        core::mem::swap(&mut out, &mut self.waiting_tasks);
        out
    }

    /// The capability this endpoint is registered under.
    pub fn id(&self) -> (r: CapabilityId)
        ensures
            r == self.id,
    {
        self.id
    }
}

/// Index of the first endpoint registered under `id`, scanning from
/// `from`; the sequence length when there is none.
pub open spec fn first_endpoint_match(s: Seq<IpcEndpoint>, id: CapabilityId, from: int) -> int
    decreases s.len() - from,
{
    if from < 0 || from >= s.len() {
        s.len() as int
    } else if s[from].id == id {
        from
    } else {
        first_endpoint_match(s, id, from + 1)
    }
}

/// Index of the first endpoint registered under `id`, or the length of
/// the table when there is none.
pub open spec fn endpoint_index(s: Seq<IpcEndpoint>, id: CapabilityId) -> int {
    first_endpoint_match(s, id, 0)
}

/// Skipping a prefix without a match does not change the result of the scan.
proof fn lemma_first_match_from(s: Seq<IpcEndpoint>, id: CapabilityId, m: int)
    requires
        0 <= m <= s.len(),
        forall|j: int| 0 <= j < m ==> (#[trigger] s[j]).id != id,
    ensures
        endpoint_index(s, id) == first_endpoint_match(s, id, m),
    decreases m,
{
    if m > 0 {
        lemma_first_match_from(s, id, m - 1);
    }
}

/// The registry of all endpoints.
pub struct IpcRegistry {
    pub endpoints: Vec<IpcEndpoint>,
}

impl IpcRegistry {
    /// Every endpoint of the registry is well-formed.
    pub open spec fn wf(self) -> bool {
        forall|i: int| 0 <= i < self.endpoints@.len() ==> (#[trigger] self.endpoints@[i]).wf()
    }

    /// An empty registry.
    pub fn new() -> (r: Self)
        ensures
            r.wf(),
            r.endpoints@.len() == 0,
    {
        IpcRegistry { endpoints: Vec::new() }
    }

    /// Register a fresh, empty endpoint under `cap_id` and hand the
    /// capability back.
    pub fn create_endpoint(&mut self, cap_id: CapabilityId) -> (r: CapabilityId)
        requires
            old(self).wf(),
        ensures
            final(self).wf(),
            r == cap_id,
            final(self).endpoints@.len() == old(self).endpoints@.len() + 1,
            forall|j: int| 0 <= j < old(self).endpoints@.len()
                ==> final(self).endpoints@[j] == old(self).endpoints@[j],
            ({
                let ep = final(self).endpoints@[old(self).endpoints@.len() as int];
                &&& ep.id == cap_id
                &&& ep.messages@.len() == 0
                &&& ep.waiting_tasks@.len() == 0
                &&& ep.max_queue_size == MAX_QUEUE_DEPTH
            }),
    {
        let endpoint = IpcEndpoint::new(cap_id);
        self.endpoints.push(endpoint);
        cap_id
    }

    /// Position of the first endpoint registered under `cap_id`, if any.
    pub fn find_endpoint(&self, cap_id: CapabilityId) -> (r: Option<usize>)
        ensures
            ({
                let idx = endpoint_index(self.endpoints@, cap_id);
                match r {
                    Some(i) => i as int == idx && idx < self.endpoints@.len(),
                    None => idx == self.endpoints@.len(),
                }
            }),
    {
        let mut i: usize = 0;
        while i < self.endpoints.len()
            invariant
                i <= self.endpoints@.len(),
                forall|j: int| 0 <= j < i ==> (#[trigger] self.endpoints@[j]).id != cap_id,
            decreases self.endpoints@.len() - i,
        {
            if self.endpoints[i].id == cap_id {
                proof {
                    lemma_first_match_from(self.endpoints@, cap_id, i as int);
                }
                return Some(i);
            }
            i = i + 1;
        }
        proof {
            lemma_first_match_from(self.endpoints@, cap_id, self.endpoints@.len() as int);
        }
        None
    }

    /// Mutable access to the first endpoint registered under `cap_id`,
    /// if any.
    pub fn get_endpoint_mut(&mut self, cap_id: CapabilityId) -> (r: Option<&mut IpcEndpoint>)
        ensures
            ({
                let idx = endpoint_index(old(self).endpoints@, cap_id);
                match r {
                    Some(e) => {
                        &&& idx < old(self).endpoints@.len()
                        &&& *e == old(self).endpoints@[idx]
                        &&& final(self).endpoints@ == old(self).endpoints@.update(idx, *final(e))
                    },
                    None => {
                        &&& idx == old(self).endpoints@.len()
                        &&& *final(self) == *old(self)
                    },
                }
            }),
    {
        match self.find_endpoint(cap_id) {
            Some(i) => Some(&mut self.endpoints[i]),
            None => None,
        }
    }

    /// The first endpoint registered under `cap_id`, if any.
    pub fn get_endpoint(&self, cap_id: CapabilityId) -> (r: Option<&IpcEndpoint>)
        ensures
            (endpoint_index(self.endpoints@, cap_id) < self.endpoints@.len()) <==> (r is Some),
            r matches Some(e) ==> *e == self.endpoints@[endpoint_index(self.endpoints@, cap_id)],
    {
        match self.find_endpoint(cap_id) {
            Some(i) => Some(&self.endpoints[i]),
            None => None,
        }
    }
}

/// The task table after making the task named `id` Ready if it was
/// Blocked, and leaving everything else alone.
pub open spec fn spec_wake_one(tasks: Seq<Task>, id: TaskId) -> Seq<Task> {
    let i = id.0 as int;
    if 0 <= i < tasks.len() && tasks[i].state == TaskState::Blocked {
        tasks.update(i, Task { state: TaskState::Ready, ..tasks[i] })
    } else {
        tasks
    }
}

/// The task table after waking every waiter in order.
pub open spec fn spec_wake_all(tasks: Seq<Task>, waiters: Seq<TaskId>) -> Seq<Task>
    decreases waiters.len(),
{
    if waiters.len() == 0 {
        tasks
    } else {
        spec_wake_all(spec_wake_one(tasks, waiters[0]), waiters.drop_first())
    }
}

/// Register a new endpoint under `cap_id`.
pub fn create_endpoint(registry: &mut IpcRegistry, cap_id: CapabilityId) -> (r: Result<CapabilityId, IpcError>)
    requires
        old(registry).wf(),
    ensures
        final(registry).wf(),
        r == Ok::<CapabilityId, IpcError>(cap_id),
        final(registry).endpoints@.len() == old(registry).endpoints@.len() + 1,
        forall|j: int| 0 <= j < old(registry).endpoints@.len()
            ==> final(registry).endpoints@[j] == old(registry).endpoints@[j],
        ({
            let ep = final(registry).endpoints@[old(registry).endpoints@.len() as int];
            &&& ep.id == cap_id
            &&& ep.messages@.len() == 0
            &&& ep.waiting_tasks@.len() == 0
        }),
{
    Ok(registry.create_endpoint(cap_id))
}

/// Send `data` to the endpoint registered under `endpoint_cap`.
///
/// Rejected with `MessageTooLarge` exactly when the payload is oversized,
/// with `EndpointNotFound` exactly when no endpoint carries the
/// capability, and with `QueueFull` exactly when the FIFO is at capacity;
/// in each case nothing is changed. On success the message is appended
/// behind everything already queued, the endpoint's wait set is drained,
/// and every drained waiter that was Blocked becomes Ready.
pub fn send_message(
    registry: &mut IpcRegistry,
    sched: &mut Scheduler,
    sender: TaskId,
    endpoint_cap: CapabilityId,
    data: Vec<u8>,
) -> (r: Result<(), IpcError>)
    requires
        old(registry).wf(),
        old(sched).wf(),
    ensures
        final(registry).wf(),
        final(sched).wf(),
        final(sched).current_task == old(sched).current_task,
        final(sched).switch_count == old(sched).switch_count,
        ({
            let idx = endpoint_index(old(registry).endpoints@, endpoint_cap);
            let n = old(registry).endpoints@.len() as int;
            if data@.len() > MAX_MESSAGE_SIZE {
                &&& r == Err::<(), IpcError>(IpcError::MessageTooLarge)
                &&& final(registry).endpoints@ == old(registry).endpoints@
                &&& final(sched).tasks@ == old(sched).tasks@
            } else if idx >= n {
                &&& r == Err::<(), IpcError>(IpcError::EndpointNotFound)
                &&& final(registry).endpoints@ == old(registry).endpoints@
                &&& final(sched).tasks@ == old(sched).tasks@
            } else if old(registry).endpoints@[idx].messages@.len() >= MAX_QUEUE_DEPTH {
                &&& r == Err::<(), IpcError>(IpcError::QueueFull)
                &&& final(registry).endpoints@ == old(registry).endpoints@
                &&& final(sched).tasks@ == old(sched).tasks@
            } else {
                &&& r == Ok::<(), IpcError>(())
                &&& final(registry).endpoints@.len() == n
                &&& forall|j: int| 0 <= j < n && j != idx
                        ==> final(registry).endpoints@[j] == old(registry).endpoints@[j]
                &&& final(registry).endpoints@[idx].id == old(registry).endpoints@[idx].id
                &&& final(registry).endpoints@[idx].messages@
                        == old(registry).endpoints@[idx].messages@.push(Message {
                            sender,
                            data,
                            transferred_cap: None,
                        })
                &&& final(registry).endpoints@[idx].waiting_tasks@.len() == 0
                &&& final(sched).tasks@
                        == spec_wake_all(old(sched).tasks@, old(registry).endpoints@[idx].waiting_tasks@)
            }
        }),
{
    let message = match Message::new(sender, data) {
        Ok(m) => m,
        Err(e) => {
            return Err(e);
        },
    };

    let idx = match registry.find_endpoint(endpoint_cap) {
        Some(i) => i,
        None => {
            return Err(IpcError::EndpointNotFound);
        },
    };

    if registry.endpoints[idx].messages.len() >= registry.endpoints[idx].max_queue_size {
        return Err(IpcError::QueueFull);
    }

    let ep = &mut registry.endpoints[idx];
    let _accepted = ep.send(message);
    let waiters = ep.take_waiters();

    let ghost pre_wake = sched.tasks@;
    proof {
        assert(waiters@.skip(0) =~= waiters@);
    }
    let mut i: usize = 0;
    while i < waiters.len()
        invariant
            i <= waiters@.len(),
            sched.wf(),
            sched.current_task == old(sched).current_task,
            sched.switch_count == old(sched).switch_count,
            spec_wake_all(pre_wake, waiters@) == spec_wake_all(sched.tasks@, waiters@.skip(i as int)),
        decreases waiters@.len() - i,
    {
        let ghost before = sched.tasks@;
        sched.unblock_task(waiters[i]);
        proof {
            assert(sched.tasks@ == spec_wake_one(before, waiters@[i as int]));
            assert(waiters@.skip(i as int)[0] == waiters@[i as int]);
            assert(waiters@.skip(i as int).drop_first() =~= waiters@.skip(i as int + 1));
        }
        i = i + 1;
    }
    proof {
        assert(waiters@.skip(waiters@.len() as int).len() == 0);
    }
    Ok(())
}

/// Take the oldest message of the endpoint registered under
/// `endpoint_cap` without blocking. `Err(EndpointNotFound)` exactly when
/// no endpoint carries the capability; `Ok(None)` exactly when the FIFO
/// is empty. The receiver id is accepted for interface symmetry; rights
/// checking on it is not part of the core.
pub fn try_receive_message(
    registry: &mut IpcRegistry,
    receiver: TaskId,
    endpoint_cap: CapabilityId,
) -> (r: Result<Option<Message>, IpcError>)
    requires
        old(registry).wf(),
    ensures
        final(registry).wf(),
        ({
            let idx = endpoint_index(old(registry).endpoints@, endpoint_cap);
            let n = old(registry).endpoints@.len() as int;
            if idx >= n {
                &&& r == Err::<Option<Message>, IpcError>(IpcError::EndpointNotFound)
                &&& final(registry).endpoints@ == old(registry).endpoints@
            } else {
                let q = old(registry).endpoints@[idx].messages@;
                &&& (if q.len() == 0 {
                    &&& r == Ok::<Option<Message>, IpcError>(None)
                    &&& final(registry).endpoints@[idx].messages@ == q
                } else {
                    &&& r == Ok::<Option<Message>, IpcError>(Some(q[0]))
                    &&& final(registry).endpoints@[idx].messages@ == q.subrange(1, q.len() as int)
                })
                &&& final(registry).endpoints@.len() == n
                &&& forall|j: int| 0 <= j < n && j != idx
                        ==> final(registry).endpoints@[j] == old(registry).endpoints@[j]
                &&& final(registry).endpoints@[idx].id == old(registry).endpoints@[idx].id
                &&& final(registry).endpoints@[idx].max_queue_size
                        == old(registry).endpoints@[idx].max_queue_size
                &&& final(registry).endpoints@[idx].waiting_tasks@
                        == old(registry).endpoints@[idx].waiting_tasks@
            }
        }),
{
    let idx = match registry.find_endpoint(endpoint_cap) {
        Some(i) => i,
        None => {
            return Err(IpcError::EndpointNotFound);
        },
    };
    let ep = &mut registry.endpoints[idx];
    let taken = ep.try_receive();
    Ok(taken)
}

/// One round of the blocking-receive protocol.
///
/// `Ok(Some(m))` takes the oldest message exactly as
/// [`try_receive_message`] does. `Ok(None)` means the FIFO was empty: the
/// receiver has been put into the endpoint's wait set and marked Blocked,
/// and the caller must yield to the scheduler and call again after being
/// woken — a wakeup does not guarantee that a message survived, so the
/// retry loop must tolerate spurious wakeups.
pub fn receive_message_step(
    registry: &mut IpcRegistry,
    sched: &mut Scheduler,
    receiver: TaskId,
    endpoint_cap: CapabilityId,
) -> (r: Result<Option<Message>, IpcError>)
    requires
        old(registry).wf(),
        old(sched).wf(),
        old(sched).tasks@.len() > 0,
    ensures
        final(registry).wf(),
        final(sched).wf(),
        final(sched).current_task == old(sched).current_task,
        final(sched).switch_count == old(sched).switch_count,
        ({
            let idx = endpoint_index(old(registry).endpoints@, endpoint_cap);
            let n = old(registry).endpoints@.len() as int;
            if idx >= n {
                &&& r == Err::<Option<Message>, IpcError>(IpcError::EndpointNotFound)
                &&& final(registry).endpoints@ == old(registry).endpoints@
                &&& final(sched).tasks@ == old(sched).tasks@
            } else {
                let q = old(registry).endpoints@[idx].messages@;
                let w = old(registry).endpoints@[idx].waiting_tasks@;
                &&& final(registry).endpoints@.len() == n
                &&& forall|j: int| 0 <= j < n && j != idx
                        ==> final(registry).endpoints@[j] == old(registry).endpoints@[j]
                &&& final(registry).endpoints@[idx].id == old(registry).endpoints@[idx].id
                &&& final(registry).endpoints@[idx].max_queue_size
                        == old(registry).endpoints@[idx].max_queue_size
                &&& (if q.len() > 0 {
                    &&& r == Ok::<Option<Message>, IpcError>(Some(q[0]))
                    &&& final(registry).endpoints@[idx].messages@ == q.subrange(1, q.len() as int)
                    &&& final(registry).endpoints@[idx].waiting_tasks@ == w
                    &&& final(sched).tasks@ == old(sched).tasks@
                } else {
                    &&& r == Ok::<Option<Message>, IpcError>(None)
                    &&& final(registry).endpoints@[idx].messages@ == q
                    &&& final(registry).endpoints@[idx].waiting_tasks@
                            == (if w.contains(receiver) { w } else { w.push(receiver) })
                    &&& final(sched).tasks@ == old(sched).tasks@.update(
                            old(sched).current_task as int,
                            (Task {
                                state: TaskState::Blocked,
                                ..old(sched).tasks@[old(sched).current_task as int]
                            }),
                        )
                })
            }
        }),
{
    let idx = match registry.find_endpoint(endpoint_cap) {
        Some(i) => i,
        None => {
            return Err(IpcError::EndpointNotFound);
        },
    };
    let ep = &mut registry.endpoints[idx];
    match ep.try_receive() {
        Some(message) => Ok(Some(message)),
        None => {
            ep.add_waiter(receiver);
            sched.block_current();
            Ok(None)
        },
    }
}

/// The FIFO queue after enqueuing `sends` in order behind `q`.
pub open spec fn enqueue_all(q: Seq<Message>, sends: Seq<Message>) -> Seq<Message>
    decreases sends.len(),
{
    if sends.len() == 0 {
        q
    } else {
        enqueue_all(q.push(sends[0]), sends.drop_first())
    }
}

/// Enqueuing a run of sends appends it.
pub proof fn lemma_enqueue_all_concat(q: Seq<Message>, sends: Seq<Message>)
    ensures
        enqueue_all(q, sends) == q + sends,
    decreases sends.len(),
{
    if sends.len() == 0 {
        assert(enqueue_all(q, sends) =~= q + sends);
    } else {
        lemma_enqueue_all_concat(q.push(sends[0]), sends.drop_first());
        assert(q.push(sends[0]) + sends.drop_first() =~= q + sends);
    }
}

/// FIFO order of one endpoint: enqueue a run of sends `s_1 … s_n` into an
/// empty FIFO — as [`IpcEndpoint::send`] does, appending at the back —
/// and the `j`-th receive, which by [`IpcEndpoint::try_receive`] takes
/// the front and leaves the rest, returns exactly `s_{j+1}`: receives
/// observe the sends in send order.
pub proof fn lemma_endpoint_fifo(sends: Seq<Message>, j: int)
    requires
        0 <= j < sends.len(),
    ensures
        enqueue_all(Seq::<Message>::empty(), sends) == sends,
        enqueue_all(Seq::<Message>::empty(), sends).skip(j)[0] == sends[j],
        enqueue_all(Seq::<Message>::empty(), sends).skip(j).subrange(
            1,
            enqueue_all(Seq::<Message>::empty(), sends).skip(j).len() as int,
        ) == enqueue_all(Seq::<Message>::empty(), sends).skip(j + 1),
{
    lemma_enqueue_all_concat(Seq::<Message>::empty(), sends);
    assert(enqueue_all(Seq::<Message>::empty(), sends) =~= sends);
    assert(sends.skip(j)[0] == sends[j]);
    assert(sends.skip(j).subrange(1, sends.skip(j).len() as int) =~= sends.skip(j + 1));
}

} // verus!
