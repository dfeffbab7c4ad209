//! The manifest store and the blob assembler.
//!
//! Reading a payload is a run of fetches: the manifest, then each block in
//! order. `BlobAssembly` holds the decisions of that run: which block to
//! fetch next, when to stop, and what the run returns. The caller makes each
//! fetch and hands the answer back.
use vstd::prelude::*;
use crate::entry::{EntryAddress, MemoryEntry, MemoryError};
use crate::index::addrs_view;

verus! {

/// Resolves a manifest fetch: a substrate or decoding error passes through,
/// no record is `NotFound`, a record is the manifest.
pub fn get_memory_entry(fetched: Result<Option<MemoryEntry>, MemoryError>) -> (r: Result<
    MemoryEntry,
    MemoryError,
>)
    ensures
        fetched matches Err(e) ==> r == Err::<MemoryEntry, MemoryError>(e),
        fetched matches Ok(None) ==> r == Err::<MemoryEntry, MemoryError>(MemoryError::NotFound),
        fetched matches Ok(Some(m)) ==> r matches Ok(n) && n@ == m@,
{
    match fetched {
        Err(e) => Err(e),
        Ok(None) => Err(MemoryError::NotFound),
        Ok(Some(m)) => Ok(m),
    }
}

/// What a run of block fetches returns: the first failure, else every block
/// received, concatenated in order.
pub open spec fn run_outcome(received: Seq<Seq<u8>>, failure: Option<MemoryError>) -> Result<
    Seq<u8>,
    MemoryError,
> {
    match failure {
        Some(e) => Err(e),
        None => Ok(received.flatten()),
    }
}

pub open spec fn bytes_view(r: Result<Vec<u8>, MemoryError>) -> Result<Seq<u8>, MemoryError> {
    match r {
        Ok(b) => Ok(b@),
        Err(e) => Err(e),
    }
}

/// The state of a run that reassembles a payload from its blocks.
pub struct BlobAssembly {
    addrs: Vec<EntryAddress>,
    next: usize,
    bytes: Vec<u8>,
    failure: Option<MemoryError>,
    received: Ghost<Seq<Seq<u8>>>,
}

impl BlobAssembly {
    /// The block addresses to fetch, in order.
    pub closed spec fn blocks(&self) -> Seq<Seq<u8>> {
        addrs_view(self.addrs@)
    }

    /// The bytes of each block received so far, in order.
    pub closed spec fn received(&self) -> Seq<Seq<u8>> {
        self.received@
    }

    /// The failure that ended the run, if one did.
    pub closed spec fn failure(&self) -> Option<MemoryError> {
        self.failure
    }

    pub closed spec fn wf(&self) -> bool {
        &&& self.next == self.received@.len()
        &&& self.next <= self.addrs@.len()
        &&& self.bytes@ == self.received@.flatten()
    }

    /// No more fetches are owed: one failed, or every block has arrived.
    pub open spec fn is_done(&self) -> bool {
        self.failure() is Some || self.received().len() == self.blocks().len()
    }

    /// The block to fetch next, or `None` when the run is done.
    pub fn next_block(&self) -> (r: Option<EntryAddress>)
        requires
            self.wf(),
        ensures
            r is None <==> self.is_done(),
            r matches Some(a) ==> a@ == self.blocks()[self.received().len() as int],
    {
        if self.failure.is_some() || self.next == self.addrs.len() {
            None
        } else {
            Some(self.addrs[self.next].copy())
        }
    }

    /// Takes the answer to the fetch of the next block: its bytes extend the
    /// payload; a failure ends the run with that error, whatever comes after.
    pub fn on_block(&mut self, fetched: Result<Vec<u8>, MemoryError>)
        requires
            old(self).wf(),
            !old(self).is_done(),
        ensures
            final(self).wf(),
            final(self).blocks() == old(self).blocks(),
            fetched matches Ok(b) ==> final(self).received() == old(self).received().push(b@)
                && final(self).failure() is None,
            fetched matches Err(e) ==> final(self).received() == old(self).received()
                && final(self).failure() == Some(e),
    {
        match fetched {
            Ok(b) => {
                let ghost before = self.received@;
                let mut i: usize = 0;
                let ghost start = self.bytes@;
                while i < b.len()
                    invariant
                        0 <= i <= b.len(),
                        self.bytes@ == start + b@.subrange(0, i as int),
                        start == before.flatten(),
                        self.received@ == before,
                        self.next == before.len(),
                        self.next < self.addrs@.len(),
                        self.addrs@ == old(self).addrs@,
                        self.failure is None,
                    decreases b.len() - i,
                {
                    self.bytes.push(b[i]);
                    i = i + 1;
                    proof {
                        assert(self.bytes@ =~= start + b@.subrange(0, i as int));
                    }
                }
                proof {
                    assert(b@.subrange(0, b@.len() as int) =~= b@);
                    before.lemma_flatten_push(b@);
                }
                assert(self.next < self.addrs.len());
                self.received = Ghost(before.push(b@));
                self.next = self.next + 1;
            },
            Err(e) => {
                self.failure = Some(e);
            },
        }
    }

    /// Ends a run that is done: the first failure, else the whole payload.
    pub fn finish(self) -> (r: Result<Vec<u8>, MemoryError>)
        requires
            self.wf(),
            self.is_done(),
        ensures
            bytes_view(r) == run_outcome(self.received(), self.failure()),
            self.failure() is None ==> self.received().len() == self.blocks().len(),
    {
        match self.failure {
            Some(e) => Err(e),
            None => Ok(self.bytes),
        }
    }
}

/// Starts reading the payload of a manifest, from the result of fetching
/// it; a failed manifest fetch ends the run at once with its error.
pub fn get_memory_bytes(manifest: Result<MemoryEntry, MemoryError>) -> (r: BlobAssembly)
    ensures
        r.wf(),
        r.received() == Seq::<Seq<u8>>::empty(),
        manifest matches Ok(m) ==> r.blocks() == m@.blocks && r.failure() is None,
        manifest matches Err(e) ==> r.failure() == Some(e),
{
    match manifest {
        Ok(m) => BlobAssembly {
            addrs: m.block_addresses,
            next: 0,
            bytes: Vec::new(),
            failure: None,
            received: Ghost(Seq::empty()),
        },
        Err(e) => BlobAssembly {
            addrs: Vec::new(),
            next: 0,
            bytes: Vec::new(),
            failure: Some(e),
            received: Ghost(Seq::empty()),
        },
    }
}

/// Pairs a manifest with its payload; the first failure, in that order, is
/// the result.
pub fn get_memory_with_bytes(
    entry: Result<MemoryEntry, MemoryError>,
    bytes: Result<Vec<u8>, MemoryError>,
) -> (r: Result<(MemoryEntry, Vec<u8>), MemoryError>)
    ensures
        entry matches Err(e) ==> r == Err::<(MemoryEntry, Vec<u8>), MemoryError>(e),
        entry is Ok ==> (bytes matches Err(e) ==> r == Err::<(MemoryEntry, Vec<u8>), MemoryError>(
            e,
        )),
        entry matches Ok(m) ==> (bytes matches Ok(b) ==> (r matches Ok(p) && p.0@ == m@ && p.1@
            == b@)),
{
    match entry {
        Err(e) => Err(e),
        Ok(m) => match bytes {
            Err(e) => Err(e),
            Ok(b) => Ok((m, b)),
        },
    }
}

} // verus!
