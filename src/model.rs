//! A model of the substrate as this library sees it, the outcome of each
//! operation on it, and the laws that relate them.
//!
//! The executable operations take the substrate's answers as arguments; their
//! contracts use the same spec functions as the outcomes here, so a law
//! proved over the model holds of every run that the substrate answered.
use vstd::prelude::*;
use crate::entry::{MemoryError, MemoryModel};
use crate::create::CreateAction;
use crate::entry::MemoryEntry;
use crate::index::{exists_result, found_entries, record_targets};
use crate::store::run_outcome;

verus! {

/// What the substrate holds: manifest records and blocks by address, and the
/// links of the two indexes.
pub struct Substrate {
    pub records: Map<Seq<u8>, MemoryModel>,
    pub blocks: Map<Seq<u8>, Seq<u8>>,
    pub by_hash: Map<Seq<char>, Seq<Seq<u8>>>,
    pub by_owner: Map<Seq<u8>, Seq<Seq<u8>>>,
}

/// A substrate with nothing in it.
pub open spec fn empty_substrate() -> Substrate {
    Substrate {
        records: Map::empty(),
        blocks: Map::empty(),
        by_hash: Map::empty(),
        by_owner: Map::empty(),
    }
}

/// The record addresses linked under a key, in the order of linking.
pub open spec fn links_under<K>(index: Map<K, Seq<Seq<u8>>>, key: K) -> Seq<Seq<u8>> {
    if index.dom().contains(key) {
        index[key]
    } else {
        Seq::empty()
    }
}

/// An index with one more link under a key; links already there stay.
pub open spec fn add_link<K>(index: Map<K, Seq<Seq<u8>>>, key: K, target: Seq<u8>) -> Map<
    K,
    Seq<Seq<u8>>,
> {
    index.insert(key, links_under(index, key).push(target))
}

/// The substrate after a manifest record is written at an address.
pub open spec fn write_record(s: Substrate, addr: Seq<u8>, m: MemoryModel) -> Substrate {
    Substrate { records: s.records.insert(addr, m), ..s }
}

/// The substrate after a record address is linked under a content hash.
pub open spec fn link_by_hash(s: Substrate, hash: Seq<char>, addr: Seq<u8>) -> Substrate {
    Substrate { by_hash: add_link(s.by_hash, hash, addr), ..s }
}

/// The substrate after a record address is linked under an owner.
pub open spec fn link_to_owner(s: Substrate, owner: Seq<u8>, addr: Seq<u8>) -> Substrate {
    Substrate { by_owner: add_link(s.by_owner, owner, addr), ..s }
}

/// What performing a creation's action does to the substrate; a record
/// write lands at the address that the substrate answered with.
pub open spec fn effect(s: Substrate, action: CreateAction, written: Seq<u8>) -> Substrate {
    match action {
        CreateAction::WriteRecord(m) => write_record(s, written, m@),
        CreateAction::LinkByHash(h, a) => link_by_hash(s, h@, a@),
        CreateAction::LinkToOwner(o, a) => link_to_owner(s, o@, a@),
        CreateAction::Finish(_) => s,
    }
}

/// The substrate after a creation whose three writes all succeeded: the
/// record, its link under the content hash and its link under the owner.
pub open spec fn after_create(s: Substrate, owner: Seq<u8>, addr: Seq<u8>, m: MemoryModel) -> Substrate {
    link_to_owner(link_by_hash(write_record(s, addr, m), m.hash, addr), owner, addr)
}

/// The three actions that a creation run of manifest `m` by `caller` asks
/// for, in order, performed with success and the record written at `addr`,
/// leave the substrate as `after_create` says: the manifest stored at
/// `addr`, linked under its content hash and under the caller, and no other
/// key touched.
pub proof fn lemma_creation_writes(
    s: Substrate,
    m: MemoryModel,
    caller: Seq<u8>,
    addr: Seq<u8>,
    write: CreateAction,
    hash_link: CreateAction,
    owner_link: CreateAction,
)
    requires
        write matches CreateAction::WriteRecord(x) && x@ == m,
        hash_link matches CreateAction::LinkByHash(h, b) && h@ == m.hash && b@ == addr,
        owner_link matches CreateAction::LinkToOwner(o, b) && o@ == caller && b@ == addr,
    ensures
        effect(effect(effect(s, write, addr), hash_link, addr), owner_link, addr) == after_create(
            s,
            caller,
            addr,
            m,
        ),
{
}

/// One creation: who made it, the record's address, and the manifest.
pub struct Creation {
    pub owner: Seq<u8>,
    pub addr: Seq<u8>,
    pub entry: MemoryModel,
}

/// The substrate after a sequence of creations, in order.
pub open spec fn apply_creations(s: Substrate, ops: Seq<Creation>) -> Substrate
    decreases ops.len(),
{
    if ops.len() == 0 {
        s
    } else {
        let last = ops.last();
        after_create(apply_creations(s, ops.drop_last()), last.owner, last.addr, last.entry)
    }
}

/// The record addresses of the creations made by one owner, in order.
pub open spec fn created_by(ops: Seq<Creation>, owner: Seq<u8>) -> Seq<Seq<u8>>
    decreases ops.len(),
{
    if ops.len() == 0 {
        Seq::empty()
    } else if ops.last().owner == owner {
        created_by(ops.drop_last(), owner).push(ops.last().addr)
    } else {
        created_by(ops.drop_last(), owner)
    }
}

/// Links as the substrate hands them out: every target is a record.
pub open spec fn as_targets(links: Seq<Seq<u8>>) -> Seq<Option<Seq<u8>>> {
    links.map_values(|a: Seq<u8>| Some(a))
}

/// The answer of the hash index to a content hash.
pub open spec fn exists_outcome(s: Substrate, hash: Seq<char>) -> Option<Seq<Seq<u8>>> {
    exists_result(as_targets(links_under(s.by_hash, hash)))
}

/// The manifest at an address, or `NotFound`.
pub open spec fn entry_outcome(s: Substrate, addr: Seq<u8>) -> Result<MemoryModel, MemoryError> {
    if s.records.dom().contains(addr) {
        Ok(s.records[addr])
    } else {
        Err(MemoryError::NotFound)
    }
}

/// The concatenation of the blocks at the given addresses, in order, or
/// `NotFound` at the first one missing.
pub open spec fn assemble(blocks: Map<Seq<u8>, Seq<u8>>, addrs: Seq<Seq<u8>>) -> Result<
    Seq<u8>,
    MemoryError,
>
    decreases addrs.len(),
{
    if addrs.len() == 0 {
        Ok(Seq::empty())
    } else if !blocks.dom().contains(addrs[0]) {
        Err(MemoryError::NotFound)
    } else {
        match assemble(blocks, addrs.drop_first()) {
            Ok(rest) => Ok(blocks[addrs[0]] + rest),
            Err(e) => Err(e),
        }
    }
}

/// The payload of the manifest at an address.
pub open spec fn bytes_outcome(s: Substrate, addr: Seq<u8>) -> Result<Seq<u8>, MemoryError> {
    match entry_outcome(s, addr) {
        Err(e) => Err(e),
        Ok(m) => assemble(s.blocks, m.blocks),
    }
}

/// The manifests stored at the given addresses, in order, skipping any
/// address with no record.
pub open spec fn resolved(records: Map<Seq<u8>, MemoryModel>, addrs: Seq<Seq<u8>>) -> Seq<MemoryModel>
    decreases addrs.len(),
{
    if addrs.len() == 0 {
        Seq::empty()
    } else if records.dom().contains(addrs[0]) {
        seq![records[addrs[0]]] + resolved(records, addrs.drop_first())
    } else {
        resolved(records, addrs.drop_first())
    }
}

/// The manifests listed for an owner.
pub open spec fn listing_outcome(s: Substrate, owner: Seq<u8>) -> Seq<MemoryModel> {
    resolved(s.records, links_under(s.by_owner, owner))
}

/// A listing driven by the substrate's answers returns what the substrate
/// holds: when the fetch of each listed address found the manifest stored
/// there, or failed where none is, the manifests kept are those resolved.
pub proof fn lemma_listing_follows_substrate(
    records: Map<Seq<u8>, MemoryModel>,
    addrs: Seq<Seq<u8>>,
    fetched: Seq<Result<MemoryEntry, MemoryError>>,
)
    requires
        fetched.len() == addrs.len(),
        forall|i: int| 0 <= i < addrs.len() ==> (#[trigger] fetched[i] is Ok <==> records.dom().contains(addrs[i])),
        forall|i: int| 0 <= i < addrs.len() ==> (#[trigger] fetched[i] matches Ok(m) ==> m@ == records[addrs[i]]),
    ensures
        found_entries(fetched) == resolved(records, addrs),
    decreases addrs.len(),
{
    if addrs.len() > 0 {
        let (a, f) = (addrs.drop_first(), fetched.drop_first());
        assert forall|i: int| 0 <= i < a.len() implies (#[trigger] f[i] is Ok <==> records.dom().contains(a[i]))
            && (f[i] matches Ok(m) ==> m@ == records[a[i]]) by {
            assert(f[i] == fetched[i + 1] && a[i] == addrs[i + 1]);
        }
        lemma_listing_follows_substrate(records, a, f);
        assert(fetched[0] is Ok <==> records.dom().contains(addrs[0]));
    }
}

proof fn lemma_record_targets_of_records(links: Seq<Seq<u8>>)
    ensures
        record_targets(as_targets(links)) == links,
    decreases links.len(),
{
    if links.len() > 0 {
        assert(as_targets(links).drop_first() =~= as_targets(links.drop_first()));
        lemma_record_targets_of_records(links.drop_first());
        assert(seq![links[0]] + links.drop_first() =~= links);
    }
}

proof fn lemma_assemble_present(blocks: Map<Seq<u8>, Seq<u8>>, addrs: Seq<Seq<u8>>, chunks: Seq<Seq<u8>>)
    requires
        addrs.len() == chunks.len(),
        forall|i: int| 0 <= i < addrs.len() ==> blocks.dom().contains(#[trigger] addrs[i]),
        forall|i: int| 0 <= i < addrs.len() ==> blocks[#[trigger] addrs[i]] == chunks[i],
    ensures
        assemble(blocks, addrs) == Ok::<Seq<u8>, MemoryError>(chunks.flatten()),
    decreases addrs.len(),
{
    if addrs.len() > 0 {
        let (a, c) = (addrs.drop_first(), chunks.drop_first());
        assert forall|i: int| 0 <= i < a.len() implies blocks.dom().contains(#[trigger] a[i])
            && blocks[a[i]] == c[i] by {
            assert(a[i] == addrs[i + 1]);
        }
        lemma_assemble_present(blocks, a, c);
        assert(blocks.dom().contains(addrs[0]));
    }
}

proof fn lemma_assemble_missing(blocks: Map<Seq<u8>, Seq<u8>>, addrs: Seq<Seq<u8>>, k: int)
    requires
        0 <= k < addrs.len(),
        !blocks.dom().contains(addrs[k]),
    ensures
        assemble(blocks, addrs) == Err::<Seq<u8>, MemoryError>(MemoryError::NotFound),
    decreases addrs.len(),
{
    if k > 0 && blocks.dom().contains(addrs[0]) {
        assert(addrs.drop_first()[k - 1] == addrs[k]);
        lemma_assemble_missing(blocks, addrs.drop_first(), k - 1);
    }
}

/// A block run driven by the substrate's answers returns what the substrate
/// holds: when each block received is the one stored at its address, and a
/// run that failed did so with `NotFound` at a block that is not stored, the
/// run's outcome is the assembly of the manifest's blocks.
pub proof fn lemma_run_follows_substrate(
    blocks: Map<Seq<u8>, Seq<u8>>,
    addrs: Seq<Seq<u8>>,
    received: Seq<Seq<u8>>,
    failure: Option<MemoryError>,
)
    requires
        received.len() <= addrs.len(),
        forall|i: int| 0 <= i < received.len() ==> blocks.dom().contains(#[trigger] addrs[i]),
        forall|i: int| 0 <= i < received.len() ==> blocks[#[trigger] addrs[i]] == received[i],
        failure is None ==> received.len() == addrs.len(),
        failure is Some ==> failure == Some(MemoryError::NotFound) && received.len() < addrs.len()
            && !blocks.dom().contains(addrs[received.len() as int]),
    ensures
        run_outcome(received, failure) == assemble(blocks, addrs),
{
    if failure is Some {
        lemma_assemble_missing(blocks, addrs, received.len() as int);
    } else {
        lemma_assemble_present(blocks, addrs, received);
    }
}

/// Storing a payload's blocks and creating a manifest that lists them, in
/// order, then reading the payload back gives the payload, byte for byte;
/// with no blocks it is empty.
pub proof fn lemma_round_trip(
    s: Substrate,
    owner: Seq<u8>,
    addr: Seq<u8>,
    m: MemoryModel,
    chunks: Seq<Seq<u8>>,
)
    requires
        m.blocks.len() == chunks.len(),
        forall|i: int| 0 <= i < m.blocks.len() ==> s.blocks.dom().contains(#[trigger] m.blocks[i]),
        forall|i: int| 0 <= i < m.blocks.len() ==> s.blocks[#[trigger] m.blocks[i]] == chunks[i],
    ensures
        bytes_outcome(after_create(s, owner, addr, m), addr) == Ok::<Seq<u8>, MemoryError>(
            chunks.flatten(),
        ),
        chunks.len() == 0 ==> bytes_outcome(after_create(s, owner, addr, m), addr) == Ok::<
            Seq<u8>,
            MemoryError,
        >(Seq::empty()),
{
    let s2 = after_create(s, owner, addr, m);
    assert(s2.records.dom().contains(addr));
    lemma_assemble_present(s2.blocks, m.blocks, chunks);
}

/// Two manifests created with the same content hash at different record
/// addresses are both reported by the hash index: duplicates are detected,
/// not refused.
pub proof fn lemma_duplicates_detected(
    s: Substrate,
    owner1: Seq<u8>,
    addr1: Seq<u8>,
    m1: MemoryModel,
    owner2: Seq<u8>,
    addr2: Seq<u8>,
    m2: MemoryModel,
)
    requires
        m1.hash == m2.hash,
    ensures
        exists_outcome(after_create(after_create(s, owner1, addr1, m1), owner2, addr2, m2), m1.hash)
            matches Some(v) && v.contains(addr1) && v.contains(addr2),
{
    let s1 = after_create(s, owner1, addr1, m1);
    let s2 = after_create(s1, owner2, addr2, m2);
    let l = links_under(s2.by_hash, m1.hash);
    let l1 = links_under(s1.by_hash, m1.hash);
    assert(l == l1.push(addr2));
    assert(l1 == links_under(s.by_hash, m1.hash).push(addr1));
    assert(l[l1.len() - 1] == addr1);
    assert(l[l1.len() as int] == addr2);
    lemma_record_targets_of_records(l);
}

/// A content hash under which nothing was ever linked has no entries in the
/// hash index: the answer is `None`, not an error.
pub proof fn lemma_unknown_hash(s: Substrate, hash: Seq<char>)
    requires
        !s.by_hash.dom().contains(hash),
    ensures
        exists_outcome(s, hash) is None,
{
}

/// After any creations on an empty substrate, a content hash that none of
/// them carried has no entries in the hash index.
pub proof fn lemma_hash_never_created(ops: Seq<Creation>, hash: Seq<char>)
    requires
        forall|i: int| 0 <= i < ops.len() ==> (#[trigger] ops[i]).entry.hash != hash,
    ensures
        !apply_creations(empty_substrate(), ops).by_hash.dom().contains(hash),
        exists_outcome(apply_creations(empty_substrate(), ops), hash) is None,
    decreases ops.len(),
{
    if ops.len() > 0 {
        let prev = ops.drop_last();
        assert forall|i: int| 0 <= i < prev.len() implies (#[trigger] prev[i]).entry.hash != hash by {
            assert(prev[i] == ops[i]);
        }
        lemma_hash_never_created(prev, hash);
        assert(ops[ops.len() - 1] == ops.last());
    }
}

/// After any creations on an empty substrate, the owner index lists under
/// an owner exactly the records that owner created, and none created by
/// another; the listing for that owner is their manifests.
pub proof fn lemma_owner_isolation(ops: Seq<Creation>, owner: Seq<u8>)
    ensures
        links_under(apply_creations(empty_substrate(), ops).by_owner, owner) == created_by(ops, owner),
        listing_outcome(apply_creations(empty_substrate(), ops), owner) == resolved(
            apply_creations(empty_substrate(), ops).records,
            created_by(ops, owner),
        ),
        forall|x: Seq<u8>| #[trigger] created_by(ops, owner).contains(x) ==> exists|i: int|
            0 <= i < ops.len() && (#[trigger] ops[i]).owner == owner && ops[i].addr == x,
    decreases ops.len(),
{
    if ops.len() > 0 {
        let prev = ops.drop_last();
        lemma_owner_isolation(prev, owner);
        assert forall|x: Seq<u8>| #[trigger] created_by(ops, owner).contains(x) implies exists|i: int|
            0 <= i < ops.len() && (#[trigger] ops[i]).owner == owner && ops[i].addr == x by {
            if created_by(prev, owner).contains(x) {
                let i = choose|i: int| 0 <= i < prev.len() && (#[trigger] prev[i]).owner == owner && prev[i].addr == x;
                assert(ops[i] == prev[i]);
            } else {
                assert(ops[ops.len() - 1] == ops.last());
            }
        }
    }
}

/// A manifest with a block that is not stored has no payload: reading it
/// fails with `NotFound`, never with the blocks that precede it.
pub proof fn lemma_missing_block(s: Substrate, addr: Seq<u8>, k: int)
    requires
        s.records.dom().contains(addr),
        0 <= k < s.records[addr].blocks.len(),
        !s.blocks.dom().contains(s.records[addr].blocks[k]),
    ensures
        bytes_outcome(s, addr) == Err::<Seq<u8>, MemoryError>(MemoryError::NotFound),
{
    lemma_assemble_missing(s.blocks, s.records[addr].blocks, k);
}

/// An address with no manifest record has neither a manifest nor a payload:
/// both reads fail with `NotFound`.
pub proof fn lemma_missing_manifest(s: Substrate, addr: Seq<u8>)
    requires
        !s.records.dom().contains(addr),
    ensures
        entry_outcome(s, addr) == Err::<MemoryModel, MemoryError>(MemoryError::NotFound),
        bytes_outcome(s, addr) == Err::<Seq<u8>, MemoryError>(MemoryError::NotFound),
{
}

} // verus!
