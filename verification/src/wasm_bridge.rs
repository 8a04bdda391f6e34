//! Host-call bridge for sandboxed guest modules, and the simplified
//! pub/sub broker behind it.
//!
//! Guest code reaches the kernel only through a closed set of imports.
//! Every import that touches guest memory first checks `ptr + len`
//! against the guest's linear memory size and fails with a negative
//! sentinel, mutating nothing, when the range does not fit. The IPC send
//! import additionally demands that the calling instance holds at least
//! one capability: an instance with an empty capability list has no
//! ambient authority and is refused before anything else is looked at.
//!
//! The functions here are the decision core of the imports: the embedding
//! resolves the guest's linear memory through the sandbox executor and
//! hands its bytes (or just its size) in, together with the shared broker
//! state, and performs the logging and the guest calls around them.

use vstd::prelude::*;
use std::collections::VecDeque;
use crate::capability::CapabilityId;

verus! {

/// Guest memory offset at which delivered payloads are placed.
pub const MSG_BUFFER_OFFSET: usize = 1024;

/// At most this many bytes of a payload are copied into a subscriber.
pub const MAX_DELIVERY_BYTES: usize = 512;

/// Largest subscriber count that still fits the `i32` a publish returns.
pub const MAX_SUBSCRIBERS: usize = 0x7fff_ffff;

/// A message waiting in the global delivery queue.
#[derive(Debug, Clone)]
pub struct IpcMessage {
    /// Client the message is addressed to.
    pub dest_client_id: u32,
    /// Payload bytes as published.
    pub message: Vec<u8>,
}

/// Execution context of one sandbox instance: the capabilities it holds.
pub struct WasmContext {
    pub capabilities: Vec<CapabilityId>,
}

impl WasmContext {
    /// A context holding exactly the given capabilities.
    pub fn new(capabilities: Vec<CapabilityId>) -> (r: Self)
        ensures
            r.capabilities@ == capabilities@,
    {
        WasmContext { capabilities }
    }

    /// Append a capability; everything granted before stays granted.
    pub fn grant_capability(&mut self, cap_id: CapabilityId)
        ensures
            final(self).capabilities@ == old(self).capabilities@.push(cap_id),
    {
        self.capabilities.push(cap_id);
    }

    /// Number of capabilities held.
    pub fn capability_count(&self) -> (r: usize)
        ensures
            r == self.capabilities@.len(),
    {
        self.capabilities.len()
    }
}

/// Shared state of the simplified broker: the subscriber set and the
/// global delivery queue.
pub struct BridgeState {
    /// Client ids subscribed to the single topic space, each at most once.
    pub subscribers: Vec<u32>,
    /// Pending messages, oldest first.
    pub queue: VecDeque<IpcMessage>,
}

impl BridgeState {
    /// Each client id is registered at most once, and the set fits the
    /// `i32` recipient count a publish reports.
    pub open spec fn wf(self) -> bool {
        &&& forall|i: int, j: int| 0 <= i < j < self.subscribers@.len()
                ==> self.subscribers@[i] != self.subscribers@[j]
        &&& self.subscribers@.len() <= MAX_SUBSCRIBERS
    }

    /// Empty broker state.
    pub fn new() -> (r: Self)
        ensures
            r.wf(),
            r.subscribers@.len() == 0,
            r.queue@.len() == 0,
    {
        BridgeState { subscribers: Vec::new(), queue: VecDeque::new() }
    }
}

/// Whether the guest range `[ptr, ptr + len)` lies within a linear memory
/// of `memory_len` bytes.
pub fn check_guest_bounds(ptr: usize, len: usize, memory_len: usize) -> (r: bool)
    ensures
        r <==> ptr + len <= memory_len,
{
    len <= memory_len && ptr <= memory_len - len
}

/// Copy `len` guest bytes starting at `ptr` out of the guest's linear
/// memory. `None` exactly when the range does not fit; the guest memory
/// is never touched out of bounds.
pub fn read_guest_bytes(mem: &[u8], ptr: usize, len: usize) -> (r: Option<Vec<u8>>)
    ensures
        (ptr + len <= mem@.len()) <==> (r is Some),
        r matches Some(v) ==> v@ == mem@.subrange(ptr as int, ptr + len),
{
    if !check_guest_bounds(ptr, len, mem.len()) {
        return None;
    }
    let mut out: Vec<u8> = Vec::new();
    let mut i: usize = 0;
    while i < len
        invariant
            ptr + len <= mem@.len(),
            ptr + len <= usize::MAX,
            i <= len,
            out@ == mem@.subrange(ptr as int, ptr + i),
        decreases len - i,
    {
        out.push(mem[ptr + i]);
        proof {
            assert(mem@.subrange(ptr as int, ptr + i + 1)
                =~= mem@.subrange(ptr as int, ptr + i).push(mem@[ptr + i]));
        }
        i = i + 1;
    }
    Some(out)
}

/// Reserved generic syscall entry: accepted and answered with zero.
pub fn syscall(_number: i32, _arg1: i32, _arg2: i32, _arg3: i32) -> (r: i32)
    ensures
        r == 0,
{
    0
}

/// Register `client_id` as a subscriber.
///
/// The topic range is bounds-checked like every guest pointer: out of
/// bounds yields `-1` and changes nothing. Otherwise the client is added
/// to the subscriber set if it is not yet in it, and the call reports `0`.
/// (The simplified broker keys everything to one topic space, so the
/// topic bytes themselves do not enter the decision.)
pub fn sys_mqtt_subscribe(
    state: &mut BridgeState,
    client_id: u32,
    topic_ptr: usize,
    topic_len: usize,
    memory_len: usize,
) -> (r: i32)
    requires
        old(state).wf(),
        old(state).subscribers@.len() < MAX_SUBSCRIBERS,
    ensures
        final(state).wf(),
        final(state).queue@ == old(state).queue@,
        topic_ptr + topic_len > memory_len ==> {
            &&& r == -1
            &&& final(state).subscribers@ == old(state).subscribers@
        },
        topic_ptr + topic_len <= memory_len ==> {
            &&& r == 0
            &&& final(state).subscribers@ == (if old(state).subscribers@.contains(client_id) {
                old(state).subscribers@
            } else {
                old(state).subscribers@.push(client_id)
            })
        },
{
    if !check_guest_bounds(topic_ptr, topic_len, memory_len) {
        return -1;
    }
    let mut i: usize = 0;
    while i < state.subscribers.len()
        invariant
            i <= state.subscribers@.len(),
            forall|j: int| 0 <= j < i ==> state.subscribers@[j] != client_id,
        decreases state.subscribers@.len() - i,
    {
        if state.subscribers[i] == client_id {
            assert(state.subscribers@.contains(client_id));
            return 0;
        }
        i = i + 1;
    }
    assert(!state.subscribers@.contains(client_id));
    state.subscribers.push(client_id);
    0
}

/// Publish a message to every current subscriber.
///
/// Both guest ranges are bounds-checked; any overrun yields `-1` and
/// changes nothing. Otherwise one copy of the payload is queued for each
/// client subscribed at this moment (snapshot semantics), in subscriber
/// order behind everything already queued, and the call reports how many
/// recipients were addressed.
pub fn sys_mqtt_publish(
    state: &mut BridgeState,
    mem: &[u8],
    topic_ptr: usize,
    topic_len: usize,
    msg_ptr: usize,
    msg_len: usize,
) -> (r: i32)
    requires
        old(state).wf(),
    ensures
        final(state).wf(),
        final(state).subscribers@ == old(state).subscribers@,
        (topic_ptr + topic_len > mem@.len() || msg_ptr + msg_len > mem@.len()) ==> {
            &&& r == -1
            &&& final(state).queue@ == old(state).queue@
        },
        (topic_ptr + topic_len <= mem@.len() && msg_ptr + msg_len <= mem@.len()) ==> {
            let subs = old(state).subscribers@;
            let payload = mem@.subrange(msg_ptr as int, msg_ptr + msg_len);
            &&& r == subs.len()
            &&& final(state).queue@.len() == old(state).queue@.len() + subs.len()
            &&& forall|j: int| 0 <= j < old(state).queue@.len()
                    ==> final(state).queue@[j] == old(state).queue@[j]
            &&& forall|j: int| 0 <= j < subs.len() ==> {
                    let m = #[trigger] final(state).queue@[old(state).queue@.len() + j];
                    m.dest_client_id == subs[j] && m.message@ == payload
                }
        },
{
    if !check_guest_bounds(topic_ptr, topic_len, mem.len())
        || !check_guest_bounds(msg_ptr, msg_len, mem.len()) {
        return -1;
    }
    let payload = match read_guest_bytes(mem, msg_ptr, msg_len) {
        Some(p) => p,
        None => {
            return -1;
        },
    };

    let subscriber_count = state.subscribers.len();
    let mut i: usize = 0;
    while i < subscriber_count
        invariant
            subscriber_count == state.subscribers@.len(),
            i <= subscriber_count,
            state.wf(),
            payload@ == mem@.subrange(msg_ptr as int, msg_ptr + msg_len),
            state.subscribers@ == old(state).subscribers@,
            state.queue@.len() == old(state).queue@.len() + i,
            forall|j: int| 0 <= j < old(state).queue@.len()
                ==> state.queue@[j] == old(state).queue@[j],
            forall|j: int| 0 <= j < i ==> {
                let m = #[trigger] state.queue@[old(state).queue@.len() + j];
                m.dest_client_id == state.subscribers@[j] && m.message@ == payload@
            },
        decreases subscriber_count - i,
    {
        let client_id = state.subscribers[i];
        let copy = copy_payload(&payload);
        state.queue.push_back(IpcMessage { dest_client_id: client_id, message: copy });
        i = i + 1;
    }
    subscriber_count as i32
}

/// Send a message to `dest` through the kernel delivery queue.
///
/// The capability check comes first: an instance holding no capability is
/// refused with `-1` before the arguments are even looked at, and nothing
/// is queued. A guest range that does not fit its linear memory is also
/// refused with `-1` and queues nothing. Otherwise the payload is queued
/// for `dest` and the call reports `0`.
pub fn sys_ipc_send(
    state: &mut BridgeState,
    capability_count: usize,
    dest: u32,
    mem: &[u8],
    msg_ptr: usize,
    msg_len: usize,
) -> (r: i32)
    requires
        old(state).wf(),
    ensures
        final(state).wf(),
        final(state).subscribers@ == old(state).subscribers@,
        capability_count == 0 ==> {
            &&& r == -1
            &&& final(state).queue@ == old(state).queue@
        },
        capability_count > 0 && msg_ptr + msg_len > mem@.len() ==> {
            &&& r == -1
            &&& final(state).queue@ == old(state).queue@
        },
        capability_count > 0 && msg_ptr + msg_len <= mem@.len() ==> {
            &&& r == 0
            &&& final(state).queue@.len() == old(state).queue@.len() + 1
            &&& forall|j: int| 0 <= j < old(state).queue@.len()
                    ==> final(state).queue@[j] == old(state).queue@[j]
            &&& final(state).queue@[old(state).queue@.len() as int].dest_client_id == dest
            &&& final(state).queue@[old(state).queue@.len() as int].message@
                    == mem@.subrange(msg_ptr as int, msg_ptr + msg_len)
        },
{
    if capability_count == 0 {
        return -1;
    }
    let payload = match read_guest_bytes(mem, msg_ptr, msg_len) {
        Some(p) => p,
        None => {
            return -1;
        },
    };
    state.queue.push_back(IpcMessage { dest_client_id: dest, message: payload });
    0
}

/// Index of the first queued message addressed to `client`, scanning from
/// `from`; the queue length when there is none.
pub open spec fn first_queue_match(q: Seq<IpcMessage>, client: u32, from: int) -> int
    decreases q.len() - from,
{
    if from < 0 || from >= q.len() {
        q.len() as int
    } else if q[from].dest_client_id == client {
        from
    } else {
        first_queue_match(q, client, from + 1)
    }
}

/// Skipping a prefix without a match does not change the result of the scan.
proof fn lemma_first_queue_match_from(q: Seq<IpcMessage>, client: u32, m: int)
    requires
        0 <= m <= q.len(),
        forall|j: int| 0 <= j < m ==> (#[trigger] q[j]).dest_client_id != client,
    ensures
        first_queue_match(q, client, 0) == first_queue_match(q, client, m),
    decreases m,
{
    if m > 0 {
        lemma_first_queue_match_from(q, client, m - 1);
    }
}

/// Take the oldest queued message addressed to `client_id` out of the
/// queue and hand back the bytes to copy into the subscriber: the payload
/// clipped to [`MAX_DELIVERY_BYTES`]. `None` exactly when nothing is
/// queued for the client; messages for other clients keep their order.
pub fn next_delivery(state: &mut BridgeState, client_id: u32) -> (r: Option<Vec<u8>>)
    ensures
        final(state).subscribers@ == old(state).subscribers@,
        ({
            let q = old(state).queue@;
            let idx = first_queue_match(q, client_id, 0);
            if idx >= q.len() {
                &&& r is None
                &&& final(state).queue@ == q
            } else {
                let full = q[idx].message@;
                let clipped = full.subrange(
                    0,
                    if full.len() < MAX_DELIVERY_BYTES { full.len() as int } else { MAX_DELIVERY_BYTES as int },
                );
                &&& r matches Some(p) && p@ == clipped
                &&& final(state).queue@ == q.remove(idx)
            }
        }),
{
    let idx = match find_queue_index(&state.queue, client_id) {
        Some(i) => i,
        None => {
            return None;
        },
    };
    let taken = state.queue.remove(idx);
    match taken {
        Some(msg) => {
            let clip = if msg.message.len() < MAX_DELIVERY_BYTES {
                msg.message.len()
            } else {
                MAX_DELIVERY_BYTES
            };
            let mut out: Vec<u8> = Vec::new();
            let mut k: usize = 0;
            while k < clip
                invariant
                    clip <= msg.message@.len(),
                    k <= clip,
                    out@ == msg.message@.subrange(0, k as int),
                decreases clip - k,
            {
                out.push(msg.message[k]);
                proof {
                    assert(msg.message@.subrange(0, k + 1)
                        =~= msg.message@.subrange(0, k as int).push(msg.message@[k as int]));
                }
                k = k + 1;
            }
            Some(out)
        },
        None => {
            // Not reached: the found index is within bounds.
            None
        },
    }
}

/// Position of the oldest queued message addressed to `client`, if any.
fn find_queue_index(q: &VecDeque<IpcMessage>, client: u32) -> (r: Option<usize>)
    ensures
        ({
            let idx = first_queue_match(q@, client, 0);
            match r {
                Some(i) => i as int == idx && idx < q@.len(),
                None => idx == q@.len(),
            }
        }),
{
    let mut i: usize = 0;
    let n = q.len();
    while i < n
        invariant
            n == q@.len(),
            i <= n,
            forall|j: int| 0 <= j < i ==> (#[trigger] q@[j]).dest_client_id != client,
        decreases n - i,
    {
        if queue_dest(q, i) == client {
            proof {
                lemma_first_queue_match_from(q@, client, i as int);
            }
            return Some(i);
        }
        i = i + 1;
    }
    proof {
        lemma_first_queue_match_from(q@, client, n as int);
    }
    None
}

/// Number of queued messages addressed to `client`.
pub open spec fn count_matching(q: Seq<IpcMessage>, client: u32) -> nat
    decreases q.len(),
{
    if q.len() == 0 {
        0
    } else {
        count_matching(q.drop_last(), client)
            + (if q.last().dest_client_id == client { 1nat } else { 0nat })
    }
}

/// How many messages are waiting for `client_id`.
pub fn pending_message_count(state: &BridgeState, client_id: u32) -> (r: usize)
    ensures
        r == count_matching(state.queue@, client_id),
{
    let mut count: usize = 0;
    let mut i: usize = 0;
    let n = state.queue.len();
    while i < n
        invariant
            n == state.queue@.len(),
            i <= n,
            count <= i,
            count == count_matching(state.queue@.subrange(0, i as int), client_id),
        decreases n - i,
    {
        proof {
            assert(state.queue@.subrange(0, i + 1).drop_last()
                =~= state.queue@.subrange(0, i as int));
            assert(state.queue@.subrange(0, i + 1).last() == state.queue@[i as int]);
        }
        if queue_dest(&state.queue, i) == client_id {
            count = count + 1;
        }
        i = i + 1;
    }
    proof {
        assert(state.queue@.subrange(0, n as int) =~= state.queue@);
    }
    count
}

/// Drop every pending message.
pub fn clear_ipc_queue(state: &mut BridgeState)
    ensures
        final(state).queue@.len() == 0,
        final(state).subscribers@ == old(state).subscribers@,
{
    state.queue.clear();
}

/// Destination client of the `i`-th queued message.
fn queue_dest(q: &VecDeque<IpcMessage>, i: usize) -> (r: u32)
    requires
        i < q@.len(),
    ensures
        r == q@[i as int].dest_client_id,
{
    q[i].dest_client_id
}

/// Copy a payload byte for byte.
fn copy_payload(payload: &Vec<u8>) -> (r: Vec<u8>)
    ensures
        r@ == payload@,
{
    let mut out: Vec<u8> = Vec::new();
    let mut i: usize = 0;
    while i < payload.len()
        invariant
            i <= payload@.len(),
            out@ == payload@.subrange(0, i as int),
        decreases payload@.len() - i,
    {
        out.push(payload[i]);
        proof {
            assert(payload@.subrange(0, i + 1)
                =~= payload@.subrange(0, i as int).push(payload@[i as int]));
        }
        i = i + 1;
    }
    proof {
        assert(payload@.subrange(0, payload@.len() as int) =~= payload@);
    }
    out
}

} // verus!
