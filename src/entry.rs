//! The data model: addresses, manifests and errors.
use vstd::prelude::*;

verus! {

/// Address of a record on the substrate: a manifest or a block. Its bytes
/// are the digest of the record's own content.
pub struct EntryAddress {
    pub bytes: Vec<u8>,
}

impl View for EntryAddress {
    type V = Seq<u8>;

    open spec fn view(&self) -> Seq<u8> {
        self.bytes@
    }
}

impl EntryAddress {
    pub fn new(bytes: Vec<u8>) -> (r: EntryAddress)
        ensures
            r@ == bytes@,
    {
        EntryAddress { bytes }
    }

    /// A second address with the same bytes.
    pub fn copy(&self) -> (r: EntryAddress)
        ensures
            r@ == self@,
    {
        let bytes = self.bytes.clone();
        proof {
            assert(bytes@ =~= self.bytes@);
        }
        EntryAddress { bytes }
    }
}

/// Identity of an agent, the owner under which manifests are listed.
pub struct AgentKey {
    pub bytes: Vec<u8>,
}

impl View for AgentKey {
    type V = Seq<u8>;

    open spec fn view(&self) -> Seq<u8> {
        self.bytes@
    }
}

impl AgentKey {
    /// A second key with the same bytes.
    pub fn copy(&self) -> (r: AgentKey)
        ensures
            r@ == self@,
    {
        let bytes = self.bytes.clone();
        proof {
            assert(bytes@ =~= self.bytes@);
        }
        AgentKey { bytes }
    }
}

/// What went wrong while reading or writing through the substrate.
#[derive(Clone, Copy, Debug, PartialEq, Eq, Structural)]
pub enum MemoryError {
    /// No record resolves at the address at the time of the read. The record
    /// may exist on another peer and not have reached this one yet.
    NotFound,
    /// The substrate itself failed.
    Unavailable,
    /// A record was found but does not have the expected shape.
    Malformed,
}

/// A manifest: the record of one stored payload.
pub struct MemoryEntry {
    /// Digest of the whole payload, as asserted by its creator.
    pub hash: String,
    /// Declared length of the payload in bytes.
    pub memory_size: u64,
    /// The payload's blocks, in the order in which they concatenate.
    pub block_addresses: Vec<EntryAddress>,
}

/// The mathematical value of a manifest.
pub struct MemoryModel {
    pub hash: Seq<char>,
    pub size: nat,
    pub blocks: Seq<Seq<u8>>,
}

pub open spec fn addresses_view(v: Seq<EntryAddress>) -> Seq<Seq<u8>> {
    v.map_values(|a: EntryAddress| a@)
}

impl View for MemoryEntry {
    type V = MemoryModel;

    open spec fn view(&self) -> MemoryModel {
        MemoryModel {
            hash: self.hash@,
            size: self.memory_size as nat,
            blocks: addresses_view(self.block_addresses@),
        }
    }
}

impl MemoryEntry {
    /// A second manifest with the same content hash, size and blocks.
    pub fn copy(&self) -> (r: MemoryEntry)
        ensures
            r@ == self@,
    {
        let mut blocks: Vec<EntryAddress> = Vec::new();
        let mut i: usize = 0;
        while i < self.block_addresses.len()
            invariant
                0 <= i <= self.block_addresses@.len(),
                blocks@.len() == i,
                forall|j: int| 0 <= j < i ==> (#[trigger] blocks@[j])@ == self.block_addresses@[j]@,
            decreases self.block_addresses@.len() - i,
        {
            blocks.push(self.block_addresses[i].copy());
            i = i + 1;
        }
        proof {
            assert(addresses_view(blocks@) =~= addresses_view(self.block_addresses@));
        }
        MemoryEntry { hash: self.hash.clone(), memory_size: self.memory_size, block_addresses: blocks }
    }
}

} // verus!
