use vstd::prelude::*;

use crate::error::EngineError;

verus! {

/// Identifier of one device-side buffer. Identifiers are never reused: a
/// resize that replaces a buffer yields a fresh identifier, which is what
/// lets stale kernel bindings be recognised.
pub type BufferId = usize;

/// The sequence of `n` zero bytes, the contents of a freshly allocated
/// buffer.
pub open spec fn zero_bytes(n: nat) -> Seq<u8> {
    Seq::new(n, |i: int| 0u8)
}

/// Host-side model of the compute device's memory. Each successful
/// allocation occupies one slot, in order of allocation; freeing a buffer
/// clears its slot but never shifts the others, so a `BufferId` stays
/// meaningful for the whole life of the context.
///
/// A per-allocation capacity limit stands in for the device running out of
/// memory: a request above it fails, and the context is left untouched.
pub struct DeviceContext {
    buffers: Vec<Option<Vec<u8>>>,
    cap_bytes: usize,
}

impl DeviceContext {
    /// One slot per allocation ever made: `Some(bytes)` while live, `None`
    /// once freed.
    pub closed spec fn slots(self) -> Seq<Option<Seq<u8>>> {
        self.buffers.deep_view()
    }

    /// The per-allocation capacity limit, in bytes.
    pub closed spec fn cap(self) -> usize {
        self.cap_bytes
    }

    /// How many allocations ever succeeded on this context.
    pub open spec fn alloc_count(self) -> nat {
        self.slots().len()
    }

    /// Whether `id` names a buffer that is allocated and not yet freed.
    pub open spec fn live(self, id: BufferId) -> bool {
        id < self.slots().len() && self.slots()[id as int] is Some
    }

    /// The bytes held by the live buffer `id`.
    pub open spec fn contents(self, id: BufferId) -> Seq<u8>
        recommends
            self.live(id),
    {
        self.slots()[id as int]->Some_0
    }

    /// The byte size of the live buffer `id`.
    pub open spec fn size(self, id: BufferId) -> nat
        recommends
            self.live(id),
    {
        self.contents(id).len()
    }

    /// What `alloc` guarantees: a request of one byte up to the capacity
    /// limit succeeds and appends a fresh zeroed slot; anything else fails
    /// and leaves the context untouched.
    pub open spec fn alloc_post(
        pre: Self,
        post: Self,
        bytes: usize,
        r: Result<BufferId, EngineError>,
    ) -> bool {
        &&& if 1 <= bytes <= pre.cap() {
            &&& pre.slots().len() < usize::MAX
            &&& r == Ok::<BufferId, EngineError>(pre.slots().len() as usize)
            &&& post.slots() == pre.slots().push(Some(zero_bytes(bytes as nat)))
        } else {
            &&& r == Err::<BufferId, EngineError>(EngineError::AllocationFailed)
            &&& post == pre
        }
        &&& post.cap() == pre.cap()
    }

    /// A fresh context with no allocations and the given per-allocation
    /// capacity limit.
    pub fn new(cap_bytes: usize) -> (d: DeviceContext)
        ensures
            d.slots() == Seq::<Option<Seq<u8>>>::empty(),
            d.cap() == cap_bytes,
    {
        let d = DeviceContext { buffers: Vec::new(), cap_bytes };
        proof {
            assert(d.slots() =~= Seq::<Option<Seq<u8>>>::empty());
        }
        d
    }

    /// Allocate a zero-filled buffer of `bytes` bytes.
    pub fn allocate(&mut self, bytes: usize) -> (r: Result<BufferId, EngineError>)
        ensures
            Self::alloc_post(*old(self), *final(self), bytes, r),
    {
        if bytes < 1 || bytes > self.cap_bytes {
            return Err(EngineError::AllocationFailed);
        }
        let id = self.buffers.len();
        let block = zeroed_vec(bytes);
        self.buffers.push(Some(block));
        let new_len = self.buffers.len();
        proof {
            assert(old(self).slots().len() < usize::MAX) by {
                assert(new_len == id + 1);
            };
            assert(self.slots() =~~= old(self).slots().push(
                Some(zero_bytes(bytes as nat)),
            ));
        }
        Ok(id)
    }

    /// Release the buffer `id`. Its slot is cleared; every other slot is
    /// untouched, and the identifier is never handed out again.
    pub fn free(&mut self, id: BufferId)
        requires
            old(self).live(id),
        ensures
            final(self).slots() == old(self).slots().update(id as int, None),
            final(self).cap() == old(self).cap(),
    {
        self.buffers.set(id, None);
        proof {
            assert(self.slots() =~= old(self).slots().update(id as int, None));
        }
    }

    /// Replace the contents of the live buffer `id` with `data`, which must
    /// match its size exactly.
    pub fn write_buffer(&mut self, id: BufferId, data: &Vec<u8>)
        requires
            old(self).live(id),
            data@.len() == old(self).size(id),
        ensures
            final(self).slots() == old(self).slots().update(id as int, Some(data@)),
            final(self).cap() == old(self).cap(),
    {
        self.buffers.set(id, Some(data.clone()));
        proof {
            assert(self.slots() =~~= old(self).slots().update(id as int, Some(data@)));
        }
    }

    /// Copy the buffer `id` back to the host. The copy is whole or not at
    /// all: a freed or never-allocated identifier yields `ReadbackFailed`.
    pub fn read_buffer(&self, id: BufferId) -> (r: Result<Vec<u8>, EngineError>)
        ensures
            if self.live(id) {
                r matches Ok(v) && v@ == self.contents(id)
            } else {
                r == Err::<Vec<u8>, EngineError>(EngineError::ReadbackFailed)
            },
    {
        if id < self.buffers.len() {
            match &self.buffers[id] {
                Some(v) => Ok(v.clone()),
                None => Err(EngineError::ReadbackFailed),
            }
        } else {
            Err(EngineError::ReadbackFailed)
        }
    }

    /// Whether `id` names a live buffer.
    pub fn is_live(&self, id: BufferId) -> (b: bool)
        ensures
            b == self.live(id),
    {
        id < self.buffers.len() && self.buffers[id].is_some()
    }

    /// The byte size of the live buffer `id`.
    pub fn buffer_size(&self, id: BufferId) -> (n: usize)
        requires
            self.live(id),
        ensures
            n == self.size(id),
    {
        match &self.buffers[id] {
            Some(v) => v.len(),
            None => 0,
        }
    }

    /// How many allocations ever succeeded on this context.
    pub fn allocation_count(&self) -> (n: usize)
        ensures
            n == self.alloc_count(),
    {
        self.buffers.len()
    }

    /// The per-allocation capacity limit.
    pub fn capacity_limit(&self) -> (n: usize)
        ensures
            n == self.cap(),
    {
        self.cap_bytes
    }
}

/// A vector of `n` zero bytes.
pub fn zeroed_vec(n: usize) -> (v: Vec<u8>)
    ensures
        v@ == zero_bytes(n as nat),
{
    let mut v: Vec<u8> = Vec::new();
    let mut i: usize = 0;
    while i < n
        invariant
            i <= n,
            v@ =~= zero_bytes(i as nat),
        decreases n - i,
    {
        v.push(0u8);
        i += 1;
        proof {
            assert(v@ =~= zero_bytes(i as nat));
        }
    }
    proof {
        assert(v@ =~= zero_bytes(n as nat));
    }
    v
}

} // verus!
