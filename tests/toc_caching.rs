use cflib::{
    bytes_equal, decode_entry, encode_entry, entry_file_name, entry_temp_file_name, InMemoryTocCache,
    NoTocCache, TocCache,
};

#[test]
fn in_memory_lookup_returns_stored_table() {
    let mut c = InMemoryTocCache::new();
    let key = vec![1u8, 0x78, 0x56, 0x34, 0x12];
    let toc = b"{\"stabilizer.roll\":[1,\"Float\"]}".to_vec();
    assert_eq!(c.lookup(&key), None);
    c.store(&key, &toc);
    assert_eq!(c.lookup(&key), Some(toc.clone()));
    assert_eq!(c.len(), 1);
}

#[test]
fn in_memory_last_write_wins() {
    let mut c = InMemoryTocCache::new();
    let key = vec![1u8, 2, 3, 4, 5];
    c.store(&key, &vec![10u8]);
    c.store(&key, &vec![20u8, 21]);
    assert_eq!(c.lookup(&key), Some(vec![20u8, 21]));
    assert_eq!(c.len(), 1);
}

#[test]
fn in_memory_keys_are_independent() {
    let mut c = InMemoryTocCache::new();
    c.store(&vec![1u8], &vec![11u8]);
    c.store(&vec![2u8], &vec![22u8]);
    c.store(&vec![1u8, 0], &vec![]);
    assert_eq!(c.lookup(&vec![1u8]), Some(vec![11u8]));
    assert_eq!(c.lookup(&vec![2u8]), Some(vec![22u8]));
    assert_eq!(c.lookup(&vec![1u8, 0]), Some(vec![]));
    assert_eq!(c.lookup(&vec![3u8]), None);
    assert_eq!(c.len(), 3);
}

#[test]
fn no_cache_always_misses() {
    let mut c = NoTocCache::new();
    let key = vec![1u8, 2, 3, 4, 5];
    assert_eq!(c.lookup(&key), None);
    c.store(&key, &vec![1u8, 2]);
    assert_eq!(c.lookup(&key), None);
}

#[test]
fn bytes_equal_compares_content() {
    assert!(bytes_equal(&vec![1u8, 2], &vec![1u8, 2]));
    assert!(!bytes_equal(&vec![1u8, 2], &vec![1u8, 3]));
    assert!(!bytes_equal(&vec![1u8], &vec![1u8, 0]));
}

#[test]
fn file_name_is_hex_of_fingerprint() {
    let key = vec![0x01u8, 0xab, 0x00, 0xff, 0x10];
    assert_eq!(entry_file_name(&key), b"01ab00ff10.toc".to_vec());
    assert_eq!(entry_temp_file_name(&key), b"01ab00ff10.toc.tmp".to_vec());
}

#[test]
fn record_layout() {
    let r = encode_entry(&vec![0xaau8, 0xbb], &vec![7u8]);
    assert_eq!(
        r,
        vec![0x43, 0x46, 0x54, 0x43, 2, 0, 0, 0, 0, 0, 0, 0, 0xaa, 0xbb, 1, 0, 0, 0, 0, 0, 0, 0, 7]
    );
}

#[test]
fn record_round_trip() {
    let key = vec![1u8, 0x78, 0x56, 0x34, 0x12];
    let toc = b"{\"pm.vbat\":[3,\"Float\"]}".to_vec();
    let bytes = encode_entry(&key, &toc);
    assert_eq!(decode_entry(&key, &bytes), Some(toc));
    assert_eq!(decode_entry(&key, &encode_entry(&key, &vec![])), Some(vec![]));
}

#[test]
fn corrupted_record_is_a_miss() {
    let key = vec![1u8, 2, 3, 4, 5];
    let bytes = encode_entry(&key, &b"table".to_vec());
    assert_eq!(decode_entry(&key, &bytes[..bytes.len() - 1].to_vec()), None);
    let mut longer = bytes.clone();
    longer.push(0);
    assert_eq!(decode_entry(&key, &longer), None);
    let mut bad_magic = bytes.clone();
    bad_magic[0] = b'X';
    assert_eq!(decode_entry(&key, &bad_magic), None);
    assert_eq!(decode_entry(&key, &vec![]), None);
    assert_eq!(decode_entry(&key, &b"not a record at all".to_vec()), None);
    let mut huge_len = bytes.clone();
    huge_len[11] = 0xff;
    assert_eq!(decode_entry(&key, &huge_len), None);
}

#[test]
fn record_of_another_fingerprint_is_a_miss() {
    let bytes = encode_entry(&vec![1u8, 2, 3, 4, 5], &b"table".to_vec());
    assert_eq!(decode_entry(&vec![1u8, 2, 3, 4, 6], &bytes), None);
    assert_eq!(decode_entry(&vec![1u8, 2, 3, 4], &bytes), None);
}
