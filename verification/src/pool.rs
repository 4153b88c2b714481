//! The forwarder's connection pool: at most one handle per distinct
//! destination address, created lazily on first use and evicted after a
//! persistent failure so that the next job to that destination rebuilds it.

use vstd::prelude::*;

verus! {

/// Stands for one live outbound connection. The generation number changes
/// whenever a destination's handle is rebuilt after an eviction, so a stale
/// handle is never mistaken for the current one.
#[derive(Clone, Copy, Debug, PartialEq, Eq, Structural)]
pub struct ConnectionHandle {
    pub destination: u64,
    pub generation: u64,
}

/// The arena of handles, keyed by destination address.
pub struct ConnectionPool {
    pub handles: Vec<ConnectionHandle>,
    pub next_generation: u64,
}

impl ConnectionPool {
    /// No two handles share a destination: the pool deduplicates per address.
    pub open spec fn wf(&self) -> bool {
        forall|i: int, j: int|
            0 <= i < j < self.handles@.len() ==> self.handles@[i].destination
                != self.handles@[j].destination
    }

    /// Whether the pool currently holds a handle for `destination`.
    pub open spec fn has_handle(&self, destination: u64) -> bool {
        exists|i: int|
            0 <= i < self.handles@.len() && self.handles@[i].destination == destination
    }

    /// The index of the handle for `destination`, where one exists.
    pub open spec fn handle_index(&self, destination: u64) -> int {
        choose|i: int| 0 <= i < self.handles@.len() && self.handles@[i].destination == destination
    }

    /// An empty pool; connections are only ever established on demand.
    pub fn new() -> (pool: ConnectionPool)
        ensures
            pool.wf(),
            pool.handles@.len() == 0,
            pool.next_generation == 0,
    {
        ConnectionPool { handles: Vec::new(), next_generation: 0 }
    }

    /// How many destinations currently have a live handle.
    pub fn len(&self) -> (n: usize)
        ensures
            n == self.handles@.len(),
    {
        self.handles.len()
    }

    /// The position of the handle for `destination`, if the pool has one.
    fn find(&self, destination: u64) -> (r: Option<usize>)
        ensures
            match r {
                Some(i) => i < self.handles@.len() && self.handles@[i as int].destination
                    == destination,
                None => !self.has_handle(destination),
            },
    {
        let mut i: usize = 0;
        while i < self.handles.len()
            invariant
                i <= self.handles@.len(),
                forall|j: int| 0 <= j < i ==> self.handles@[j].destination != destination,
            decreases self.handles@.len() - i,
        {
            if self.handles[i].destination == destination {
                return Some(i);
            }
            i = i + 1;
        }
        None
    }

    /// Hands out the pooled handle for `destination`, establishing one lazily
    /// if none exists. Reuse: if the destination already had a handle, that
    /// very handle is returned and the pool is untouched; otherwise exactly
    /// one new handle is appended, stamped with a fresh generation.
    pub fn get_or_create(&mut self, destination: u64) -> (h: ConnectionHandle)
        requires
            old(self).wf(),
            old(self).next_generation < u64::MAX,
        ensures
            final(self).wf(),
            h.destination == destination,
            final(self).has_handle(destination),
            old(self).has_handle(destination) ==> *final(self) == *old(self)
                && h == old(self).handles@[old(self).handle_index(destination)],
            !old(self).has_handle(destination) ==> final(self).handles@
                == old(self).handles@.push(h) && h.generation == old(self).next_generation
                && final(self).next_generation == old(self).next_generation + 1,
    {
        match self.find(destination) {
            Some(i) => {
                let h = self.handles[i];
                proof {
                    let w = self.handle_index(destination);
                    assert(0 <= w < self.handles@.len() && self.handles@[w].destination
                        == destination);
                    assert(w == i as int);
                }
                h
            },
            None => {
                let h = ConnectionHandle {
                    destination,
                    generation: self.next_generation,
                };
                self.handles.push(h);
                self.next_generation = self.next_generation + 1;
                proof {
                    assert(self.handles@[self.handles@.len() - 1].destination == destination);
                }
                h
            },
        }
    }

    /// Tears down the handle for `destination` after a persistent failure.
    /// Afterwards the pool has no handle for that destination; every other
    /// destination's handle is exactly where it was, in order. Evicting an
    /// absent destination changes nothing.
    pub fn evict(&mut self, destination: u64)
        requires
            old(self).wf(),
        ensures
            final(self).wf(),
            !final(self).has_handle(destination),
            final(self).next_generation == old(self).next_generation,
            old(self).has_handle(destination) ==> final(self).handles@
                == old(self).handles@.remove(old(self).handle_index(destination)),
            !old(self).has_handle(destination) ==> *final(self) == *old(self),
    {
        match self.find(destination) {
            Some(i) => {
                proof {
                    let w = self.handle_index(destination);
                    assert(0 <= w < self.handles@.len() && self.handles@[w].destination
                        == destination);
                    assert(w == i as int);
                }
                self.handles.remove(i);
                proof {
                    assert forall|k: int|
                        0 <= k < self.handles@.len() implies self.handles@[k].destination
                        != destination by {
                        if k < i as int {
                            assert(self.handles@[k] == old(self).handles@[k]);
                        } else {
                            assert(self.handles@[k] == old(self).handles@[k + 1]);
                        }
                    }
                }
            },
            None => {},
        }
    }
}

} // verus!
