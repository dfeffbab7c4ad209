use mere_memory::{
    create_memory_entry, get_memory_bytes, get_memory_entries_for_agent, get_memory_entry,
    get_memory_with_bytes, memory_exists, owner_or_caller, record_addresses, AgentKey,
    BlobAssembly, CreateAction, EntryAddress, MemoryEntry, MemoryError,
};

fn addr(b: &[u8]) -> EntryAddress {
    EntryAddress::new(b.to_vec())
}

fn manifest(hash: &str, size: u64, blocks: &[&[u8]]) -> MemoryEntry {
    MemoryEntry {
        hash: hash.to_string(),
        memory_size: size,
        block_addresses: blocks.iter().map(|b| addr(b)).collect(),
    }
}

/// Runs an assembly against a block store given as (address, bytes) pairs,
/// returning the result and the addresses fetched.
fn drive(mut run: BlobAssembly, store: &[(&[u8], &[u8])]) -> (Result<Vec<u8>, MemoryError>, Vec<Vec<u8>>) {
    let mut fetched = Vec::new();
    while let Some(a) = run.next_block() {
        fetched.push(a.bytes.clone());
        let answer = store
            .iter()
            .find(|(k, _)| *k == a.bytes.as_slice())
            .map(|(_, v)| v.to_vec())
            .ok_or(MemoryError::NotFound);
        run.on_block(answer);
    }
    (run.finish(), fetched)
}

#[test]
fn unknown_hash_has_no_entries() {
    assert!(memory_exists(vec![]).is_none());
}

#[test]
fn duplicate_hash_reports_both_manifests() {
    let r = memory_exists(vec![Some(addr(b"m1")), Some(addr(b"m2"))]).unwrap();
    let got: Vec<Vec<u8>> = r.into_iter().map(|a| a.bytes).collect();
    assert_eq!(got, vec![b"m1".to_vec(), b"m2".to_vec()]);
}

#[test]
fn exists_keeps_only_record_targets() {
    let r = memory_exists(vec![None, Some(addr(b"m1")), None]).unwrap();
    assert_eq!(r.len(), 1);
    assert_eq!(r[0].bytes, b"m1".to_vec());
    assert!(memory_exists(vec![None]).is_none());
    assert!(memory_exists(vec![None, None]).is_none());
}

#[test]
fn record_addresses_filters_in_order() {
    let r = record_addresses(vec![Some(addr(b"b")), None, Some(addr(b"a"))]);
    let got: Vec<Vec<u8>> = r.into_iter().map(|a| a.bytes).collect();
    assert_eq!(got, vec![b"b".to_vec(), b"a".to_vec()]);
}

#[test]
fn owner_defaults_to_caller() {
    let caller = AgentKey { bytes: b"me".to_vec() };
    assert_eq!(owner_or_caller(None, caller).bytes, b"me".to_vec());
    let caller = AgentKey { bytes: b"me".to_vec() };
    let other = AgentKey { bytes: b"you".to_vec() };
    assert_eq!(owner_or_caller(Some(other), caller).bytes, b"you".to_vec());
}

#[test]
fn listing_skips_unresolvable_entries() {
    let fetched = vec![
        Ok(manifest("h1", 2, &[b"x"])),
        Err(MemoryError::NotFound),
        Err(MemoryError::Malformed),
        Ok(manifest("h2", 4, &[b"y", b"z"])),
    ];
    let listed = get_memory_entries_for_agent(fetched);
    assert_eq!(listed.len(), 2);
    assert_eq!(listed[0].hash, "h1");
    assert_eq!(listed[1].hash, "h2");
    assert_eq!(listed[1].memory_size, 4);
}

#[test]
fn listing_with_no_entries_is_empty() {
    assert!(get_memory_entries_for_agent(vec![]).is_empty());
    assert!(get_memory_entries_for_agent(vec![Err(MemoryError::NotFound)]).is_empty());
}

#[test]
fn missing_manifest_is_not_found() {
    assert_eq!(get_memory_entry(Ok(None)).err(), Some(MemoryError::NotFound));
}

#[test]
fn manifest_fetch_errors_pass_through() {
    assert_eq!(
        get_memory_entry(Err(MemoryError::Unavailable)).err(),
        Some(MemoryError::Unavailable)
    );
    assert_eq!(
        get_memory_entry(Err(MemoryError::Malformed)).err(),
        Some(MemoryError::Malformed)
    );
}

#[test]
fn found_manifest_is_returned() {
    let m = get_memory_entry(Ok(Some(manifest("h", 3, &[b"a", b"b"])))).unwrap();
    assert_eq!(m.hash, "h");
    assert_eq!(m.memory_size, 3);
    assert_eq!(m.block_addresses.len(), 2);
    assert_eq!(m.block_addresses[1].bytes, b"b".to_vec());
}

#[test]
fn bytes_round_trip_over_blocks() {
    let store: &[(&[u8], &[u8])] = &[(b"b1", b"hello "), (b"b2", b"world")];
    let run = get_memory_bytes(Ok(manifest("h", 11, &[b"b1", b"b2"])));
    let (r, fetched) = drive(run, store);
    assert_eq!(r.unwrap(), b"hello world".to_vec());
    assert_eq!(fetched, vec![b"b1".to_vec(), b"b2".to_vec()]);
}

#[test]
fn bytes_of_empty_manifest_are_empty() {
    let run = get_memory_bytes(Ok(manifest("h", 0, &[])));
    let (r, fetched) = drive(run, &[]);
    assert_eq!(r.unwrap(), Vec::<u8>::new());
    assert!(fetched.is_empty());
}

#[test]
fn bytes_of_single_block() {
    let store: &[(&[u8], &[u8])] = &[(b"only", b"\x00\x01\xff")];
    let run = get_memory_bytes(Ok(manifest("h", 3, &[b"only"])));
    assert_eq!(drive(run, store).0.unwrap(), vec![0u8, 1, 255]);
}

#[test]
fn block_order_is_preserved() {
    let store: &[(&[u8], &[u8])] = &[(b"b1", b"AB"), (b"b2", b"CD")];
    let run = get_memory_bytes(Ok(manifest("h", 4, &[b"b2", b"b1"])));
    assert_eq!(drive(run, store).0.unwrap(), b"CDAB".to_vec());
}

#[test]
fn missing_block_fails_without_partial_bytes() {
    let store: &[(&[u8], &[u8])] = &[(b"b1", b"AB"), (b"b3", b"EF")];
    let run = get_memory_bytes(Ok(manifest("h", 6, &[b"b1", b"b2", b"b3"])));
    let (r, fetched) = drive(run, store);
    assert_eq!(r, Err(MemoryError::NotFound));
    assert_eq!(fetched, vec![b"b1".to_vec(), b"b2".to_vec()]);
}

#[test]
fn manifest_failure_ends_the_read() {
    let run = get_memory_bytes(Err(MemoryError::NotFound));
    let (r, fetched) = drive(run, &[]);
    assert_eq!(r, Err(MemoryError::NotFound));
    assert!(fetched.is_empty());
}

#[test]
fn with_bytes_pairs_manifest_and_payload() {
    let p = get_memory_with_bytes(Ok(manifest("h", 2, &[b"a"])), Ok(b"xy".to_vec())).unwrap();
    assert_eq!(p.0.hash, "h");
    assert_eq!(p.1, b"xy".to_vec());
}

#[test]
fn with_bytes_reports_first_failure() {
    let r = get_memory_with_bytes(Err(MemoryError::NotFound), Err(MemoryError::Unavailable));
    assert_eq!(r.err(), Some(MemoryError::NotFound));
    let r = get_memory_with_bytes(Ok(manifest("h", 0, &[])), Err(MemoryError::Unavailable));
    assert_eq!(r.err(), Some(MemoryError::Unavailable));
}

fn finish_of(action: CreateAction) -> Result<EntryAddress, MemoryError> {
    match action {
        CreateAction::Finish(r) => r,
        _ => panic!("creation is not over"),
    }
}

fn caller() -> AgentKey {
    AgentKey { bytes: b"agent-a".to_vec() }
}

#[test]
fn creation_writes_record_then_both_links() {
    let run = create_memory_entry(manifest("h1", 4, &[b"b2", b"b1"]), caller());
    match run.next_action() {
        CreateAction::WriteRecord(m) => {
            assert_eq!(m.hash, "h1");
            assert_eq!(m.memory_size, 4);
            assert_eq!(m.block_addresses.len(), 2);
            assert_eq!(m.block_addresses[0].bytes, b"b2".to_vec());
            assert_eq!(m.block_addresses[1].bytes, b"b1".to_vec());
        }
        _ => panic!("expected the record write"),
    }
    let run = run.on_record(Ok(addr(b"rec")));
    match run.next_action() {
        CreateAction::LinkByHash(h, a) => {
            assert_eq!(h, "h1");
            assert_eq!(a.bytes, b"rec".to_vec());
        }
        _ => panic!("expected the hash link"),
    }
    let run = run.on_link(Ok(()));
    match run.next_action() {
        CreateAction::LinkToOwner(o, a) => {
            assert_eq!(o.bytes, b"agent-a".to_vec());
            assert_eq!(a.bytes, b"rec".to_vec());
        }
        _ => panic!("expected the owner link"),
    }
    let run = run.on_link(Ok(()));
    assert_eq!(finish_of(run.next_action()).unwrap().bytes, b"rec".to_vec());
}

#[test]
fn creation_fails_when_record_write_fails() {
    let run = create_memory_entry(manifest("h", 0, &[]), caller()).on_record(Err(MemoryError::Unavailable));
    assert_eq!(finish_of(run.next_action()).err(), Some(MemoryError::Unavailable));
}

#[test]
fn creation_survives_index_failures() {
    let run = create_memory_entry(manifest("h", 0, &[]), caller()).on_record(Ok(addr(b"rec")));
    let run = run.on_link(Err(MemoryError::Unavailable));
    assert!(matches!(run.next_action(), CreateAction::LinkToOwner(_, _)));
    let run = run.on_link(Err(MemoryError::Unavailable));
    assert_eq!(finish_of(run.next_action()).unwrap().bytes, b"rec".to_vec());
}

#[test]
fn duplicate_creations_both_link_under_the_hash() {
    for rec in [b"rec1", b"rec2"] {
        let run = create_memory_entry(manifest("same", 1, &[b"b"]), caller()).on_record(Ok(addr(rec)));
        match run.next_action() {
            CreateAction::LinkByHash(h, a) => {
                assert_eq!(h, "same");
                assert_eq!(a.bytes, rec.to_vec());
            }
            _ => panic!("expected the hash link"),
        }
    }
}

#[test]
fn manifest_copy_keeps_fields() {
    let m = manifest("h", 7, &[b"x", b"y"]);
    let c = m.copy();
    assert_eq!(c.hash, m.hash);
    assert_eq!(c.memory_size, 7);
    assert_eq!(c.block_addresses[1].bytes, b"y".to_vec());
}

#[test]
fn address_copy_keeps_bytes() {
    let a = addr(b"\x84\x21\x24abc");
    assert_eq!(a.copy().bytes, a.bytes);
}
