//! The hash index and the owner index: decisions over the links that the
//! substrate returns under one key.
use vstd::prelude::*;
use crate::entry::{AgentKey, EntryAddress, MemoryEntry, MemoryError, MemoryModel};

verus! {

/// The targets of a list of links, as addresses; a link whose target is not a
/// record is `None`.
pub open spec fn targets_view(links: Seq<Option<EntryAddress>>) -> Seq<Option<Seq<u8>>> {
    links.map_values(|l: Option<EntryAddress>| match l {
        Some(a) => Some(a@),
        None => None,
    })
}

/// The record addresses among link targets, in order.
pub open spec fn record_targets(links: Seq<Option<Seq<u8>>>) -> Seq<Seq<u8>>
    decreases links.len(),
{
    if links.len() == 0 {
        Seq::empty()
    } else {
        let rest = record_targets(links.drop_first());
        match links[0] {
            Some(a) => seq![a] + rest,
            None => rest,
        }
    }
}

/// What a lookup in the hash index answers: nothing when no record is
/// linked under the key, else every record address linked there.
pub open spec fn exists_result(links: Seq<Option<Seq<u8>>>) -> Option<Seq<Seq<u8>>> {
    if record_targets(links).len() == 0 {
        None
    } else {
        Some(record_targets(links))
    }
}

/// The manifests among fetch results, in order; failed fetches are dropped.
pub open spec fn found_entries(fetched: Seq<Result<MemoryEntry, MemoryError>>) -> Seq<MemoryModel>
    decreases fetched.len(),
{
    if fetched.len() == 0 {
        Seq::empty()
    } else {
        let rest = found_entries(fetched.drop_first());
        match fetched[0] {
            Ok(m) => seq![m@] + rest,
            Err(_) => rest,
        }
    }
}

pub open spec fn entries_view(v: Seq<MemoryEntry>) -> Seq<MemoryModel> {
    v.map_values(|m: MemoryEntry| m@)
}

pub open spec fn addrs_view(v: Seq<EntryAddress>) -> Seq<Seq<u8>> {
    v.map_values(|a: EntryAddress| a@)
}

/// Keeps the record addresses among link targets, in order.
pub fn record_addresses(links: Vec<Option<EntryAddress>>) -> (r: Vec<EntryAddress>)
    ensures
        addrs_view(r@) == record_targets(targets_view(links@)),
{
    let mut rest = links;
    let mut out: Vec<EntryAddress> = Vec::new();
    let ghost all = targets_view(rest@);
    while rest.len() > 0
        invariant
            record_targets(all) == addrs_view(out@) + record_targets(targets_view(rest@)),
        decreases rest.len(),
    {
        let ghost before = rest@;
        let first = rest.remove(0);
        proof {
            assert(targets_view(rest@) =~= targets_view(before).drop_first());
        }
        match first {
            Some(a) => {
                out.push(a);
                proof {
                    assert(addrs_view(out@) =~= addrs_view(out@.drop_last()).push(a@));
                }
            },
            None => {},
        }
    }
    proof {
        assert(addrs_view(out@) + Seq::empty() =~= addrs_view(out@));
    }
    out
}

/// Answers a lookup in the hash index from the links found under the content
/// hash's key: `None` when none of them points to a record, else every
/// record address among their targets. An empty index is no error.
pub fn memory_exists(links: Vec<Option<EntryAddress>>) -> (r: Option<Vec<EntryAddress>>)
    ensures
        r is None <==> record_targets(targets_view(links@)).len() == 0,
        r matches Some(v) ==> exists_result(targets_view(links@)) == Some(addrs_view(v@)),
{
    let addrs = record_addresses(links);
    if addrs.len() == 0 {
        None
    } else {
        Some(addrs)
    }
}

/// The owner whose manifests are listed: the one asked for, else the caller.
pub fn owner_or_caller(maybe_owner: Option<AgentKey>, caller: AgentKey) -> (r: AgentKey)
    ensures
        r@ == (match maybe_owner {
            Some(a) => a@,
            None => caller@,
        }),
{
    match maybe_owner {
        Some(a) => a,
        None => caller,
    }
}

/// Lists an owner's manifests from the results of fetching each address in
/// the owner index: every manifest that was found, in order; a fetch that
/// failed is skipped, never reported.
pub fn get_memory_entries_for_agent(fetched: Vec<Result<MemoryEntry, MemoryError>>) -> (r: Vec<
    MemoryEntry,
>)
    ensures
        entries_view(r@) == found_entries(fetched@),
{
    let mut rest = fetched;
    let mut out: Vec<MemoryEntry> = Vec::new();
    let ghost all = rest@;
    while rest.len() > 0
        invariant
            found_entries(all) == entries_view(out@) + found_entries(rest@),
        decreases rest.len(),
    {
        let ghost before = rest@;
        let first = rest.remove(0);
        proof {
            assert(rest@ =~= before.drop_first());
        }
        match first {
            Ok(m) => {
                out.push(m);
                proof {
                    assert(entries_view(out@) =~= entries_view(out@.drop_last()).push(m@));
                }
            },
            Err(_) => {},
        }
    }
    proof {
        assert(entries_view(out@) + Seq::empty() =~= entries_view(out@));
    }
    out
}

} // verus!
