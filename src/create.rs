//! Creating a manifest: one record write, then one link in each index.
//!
//! The record write comes first and a failure there ends the creation. The
//! index links are secondary views: each is attempted, and a failure of
//! either does not undo or fail the creation. The hash link goes under the
//! manifest's content hash, the owner link under the caller's identity.
use vstd::prelude::*;
use crate::entry::{AgentKey, EntryAddress, MemoryEntry, MemoryError, MemoryModel};

verus! {

/// The write that a creation asks of the substrate next, or its end.
pub enum CreateAction {
    /// Write this manifest as a record; the answer is its record address.
    WriteRecord(MemoryEntry),
    /// Link the record address under this content hash.
    LinkByHash(String, EntryAddress),
    /// Link the record address under this owner.
    LinkToOwner(AgentKey, EntryAddress),
    /// The creation is over, with this result.
    Finish(Result<EntryAddress, MemoryError>),
}

/// Where a creation stands.
pub enum CreateStage {
    AwaitRecord,
    AwaitHashLink(EntryAddress),
    AwaitOwnerLink(EntryAddress),
    Finished(Result<EntryAddress, MemoryError>),
}

/// One creation: the manifest, the caller who creates it, and its stage.
pub struct CreateRun {
    memory: MemoryEntry,
    caller: AgentKey,
    stage: CreateStage,
}

pub open spec fn addr_result_view(r: Result<EntryAddress, MemoryError>) -> Result<Seq<u8>, MemoryError> {
    match r {
        Ok(a) => Ok(a@),
        Err(e) => Err(e),
    }
}

/// Starts the creation of a manifest by a caller: the record is written
/// first.
pub fn create_memory_entry(memory: MemoryEntry, caller: AgentKey) -> (r: CreateRun)
    ensures
        r.memory() == memory@,
        r.caller() == caller@,
        r.stage() is AwaitRecord,
{
    CreateRun { memory, caller, stage: CreateStage::AwaitRecord }
}

impl CreateRun {
    /// The manifest being created.
    pub closed spec fn memory(&self) -> MemoryModel {
        self.memory@
    }

    /// The identity of the caller who creates it.
    pub closed spec fn caller(&self) -> Seq<u8> {
        self.caller@
    }

    pub closed spec fn stage(&self) -> CreateStage {
        self.stage
    }

    /// What to do next: write the manifest; link its address under its
    /// content hash; link it under the caller; or finish.
    pub fn next_action(&self) -> (r: CreateAction)
        ensures
            self.stage() is AwaitRecord ==> (r matches CreateAction::WriteRecord(m) && m@
                == self.memory()),
            self.stage() matches CreateStage::AwaitHashLink(a) ==> (r matches CreateAction::LinkByHash(
                h,
                b,
            ) && h@ == self.memory().hash && b@ == a@),
            self.stage() matches CreateStage::AwaitOwnerLink(a) ==> (
            r matches CreateAction::LinkToOwner(o, b) && o@ == self.caller() && b@ == a@),
            self.stage() matches CreateStage::Finished(x) ==> (r matches CreateAction::Finish(y)
                && addr_result_view(y) == addr_result_view(x)),
    {
        match &self.stage {
            CreateStage::AwaitRecord => CreateAction::WriteRecord(self.memory.copy()),
            CreateStage::AwaitHashLink(a) => CreateAction::LinkByHash(self.memory.hash.clone(), a.copy()),
            CreateStage::AwaitOwnerLink(a) => CreateAction::LinkToOwner(self.caller.copy(), a.copy()),
            CreateStage::Finished(Ok(a)) => CreateAction::Finish(Ok(a.copy())),
            CreateStage::Finished(Err(e)) => CreateAction::Finish(Err(*e)),
        }
    }

    /// Takes the answer to the record write: its address goes on to the
    /// hash index; its failure ends the creation before any index is written.
    pub fn on_record(self, written: Result<EntryAddress, MemoryError>) -> (r: CreateRun)
        requires
            self.stage() is AwaitRecord,
        ensures
            r.memory() == self.memory(),
            r.caller() == self.caller(),
            written matches Ok(a) ==> (r.stage() matches CreateStage::AwaitHashLink(b) && b@ == a@),
            written matches Err(e) ==> (r.stage() matches CreateStage::Finished(x) && x
                == Err::<EntryAddress, MemoryError>(e)),
    {
        let CreateRun { memory, caller, stage: _ } = self;
        let stage = match written {
            Ok(a) => CreateStage::AwaitHashLink(a),
            Err(e) => CreateStage::Finished(Err(e)),
        };
        CreateRun { memory, caller, stage }
    }

    /// Takes the answer to an index link. Whatever it is, the owner link
    /// follows the hash link, and the creation then succeeds with the
    /// record's address.
    pub fn on_link(self, linked: Result<(), MemoryError>) -> (r: CreateRun)
        requires
            self.stage() is AwaitHashLink || self.stage() is AwaitOwnerLink,
        ensures
            r.memory() == self.memory(),
            r.caller() == self.caller(),
            self.stage() matches CreateStage::AwaitHashLink(a) ==> (
            r.stage() matches CreateStage::AwaitOwnerLink(b) && b@ == a@),
            self.stage() matches CreateStage::AwaitOwnerLink(a) ==> (
            r.stage() matches CreateStage::Finished(x) && addr_result_view(x) == Ok::<
                Seq<u8>,
                MemoryError,
            >(a@)),
    {
        let CreateRun { memory, caller, stage } = self;
        let stage = match stage {
            CreateStage::AwaitHashLink(a) => CreateStage::AwaitOwnerLink(a),
            CreateStage::AwaitOwnerLink(a) => CreateStage::Finished(Ok(a)),
            CreateStage::AwaitRecord => CreateStage::AwaitRecord,
            CreateStage::Finished(x) => CreateStage::Finished(x),
        };
        CreateRun { memory, caller, stage }
    }
}

} // verus!
