//! Capability table: typed permission tokens owned by tasks and modules.
//!
//! A capability is an unforgeable token granting a set of rights on one
//! resource. Possession is the sole basis for permission; there is no
//! ambient authority. Capabilities are immutable once issued, and the
//! table never revokes or narrows them: its only mutation is appending a
//! freshly issued capability.

use vstd::prelude::*;

verus! {

/// Right to read from the resource.
pub const RIGHT_READ: u32 = 0x01;

/// Right to write to the resource.
pub const RIGHT_WRITE: u32 = 0x02;

/// Right to send on the resource.
pub const RIGHT_SEND: u32 = 0x04;

/// Right to receive from the resource.
pub const RIGHT_RECV: u32 = 0x08;

/// Right to execute the resource.
pub const RIGHT_EXEC: u32 = 0x10;

/// Unique, monotonically assigned identifier of a capability.
#[derive(Debug, Clone, Copy, PartialEq, Eq, Structural)]
pub struct CapabilityId(pub u64);

impl CapabilityId {
    pub fn new(id: u64) -> (r: Self)
        ensures
            r.0 == id,
    {
        CapabilityId(id)
    }

    pub fn value(&self) -> (r: u64)
        ensures
            r == self.0,
    {
        self.0
    }
}

/// Kind of resource a capability grants rights on.
#[derive(Debug, Clone, Copy, PartialEq, Eq, Structural)]
pub enum ResourceType {
    Memory,
    IpcEndpoint,
    MqttTopic,
}

/// An issued permission token: immutable after issue.
#[derive(Debug, Clone, Copy, PartialEq, Eq, Structural)]
pub struct Capability {
    pub id: CapabilityId,
    pub kind: ResourceType,
    /// Opaque handle of the resource the rights apply to.
    pub handle: u64,
    /// Bitset over the `RIGHT_*` constants.
    pub rights: u32,
}

impl Capability {
    pub fn new(id: CapabilityId, kind: ResourceType, handle: u64, rights: u32) -> (r: Self)
        ensures
            r == (Capability { id, kind, handle, rights }),
    {
        Capability { id, kind, handle, rights }
    }

    pub fn id(&self) -> (r: CapabilityId)
        ensures
            r == self.id,
    {
        self.id
    }

    pub fn rights(&self) -> (r: u32)
        ensures
            r == self.rights,
    {
        self.rights
    }
}

/// `held` includes every right of `required`.
pub open spec fn rights_include(held: u32, required: u32) -> bool {
    held & required == required
}

/// The process-wide table of issued capabilities.
pub struct CapabilityTable {
    pub caps: Vec<Capability>,
}

impl CapabilityTable {
    /// Ids are assigned densely: the capability with id `i` sits at
    /// index `i` and is never changed after issue.
    pub open spec fn wf(self) -> bool {
        forall|i: int| 0 <= i < self.caps@.len() ==> (#[trigger] self.caps@[i]).id.0 == i
    }

    /// An empty table.
    pub fn new() -> (r: Self)
        ensures
            r.wf(),
            r.caps@.len() == 0,
    {
        CapabilityTable { caps: Vec::new() }
    }

    /// Issue a new capability with the next unique id. Already-issued
    /// capabilities are untouched: a token can never be altered after the
    /// fact, and rights are never widened.
    pub fn issue(&mut self, kind: ResourceType, handle: u64, rights: u32) -> (r: CapabilityId)
        requires
            old(self).wf(),
            old(self).caps@.len() < u64::MAX,
        ensures
            final(self).wf(),
            r.0 == old(self).caps@.len(),
            final(self).caps@ == old(self).caps@.push(Capability { id: r, kind, handle, rights }),
    {
        let id = CapabilityId(self.caps.len() as u64);
        self.caps.push(Capability { id, kind, handle, rights });
        id
    }

    /// Look a capability up by id; `None` exactly when the id was never
    /// issued.
    pub fn lookup(&self, cap_id: CapabilityId) -> (r: Option<&Capability>)
        requires
            self.wf(),
        ensures
            (cap_id.0 < self.caps@.len()) <==> (r is Some),
            r matches Some(c) ==> *c == self.caps@[cap_id.0 as int],
    {
        if cap_id.0 < self.caps.len() as u64 {
            Some(&self.caps[cap_id.0 as usize])
        } else {
            None
        }
    }

    /// `true` exactly when the capability exists and its rights include
    /// every bit of `required`.
    pub fn check(&self, cap_id: CapabilityId, required: u32) -> (r: bool)
        requires
            self.wf(),
        ensures
            r <==> (cap_id.0 < self.caps@.len()
                && rights_include(self.caps@[cap_id.0 as int].rights, required)),
    {
        match self.lookup(cap_id) {
            Some(cap) => cap.rights & required == required,
            None => false,
        }
    }
}

} // verus!
