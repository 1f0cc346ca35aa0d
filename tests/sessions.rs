use cflib::{
    scan_address, FacadeHandle, InMemoryTocCache, NoTocCache, ScanError, SessionError, SessionId,
    SessionRegistry, Subsystem, TocCache, TocFacade, TocStep, BROADCAST_ADDRESS_BYTE,
};

#[test]
fn scan_without_address_uses_broadcast() {
    assert_eq!(scan_address(None), Ok([0xE7u8; 5]));
    assert_eq!(BROADCAST_ADDRESS_BYTE, 0xE7);
}

#[test]
fn scan_with_five_byte_address() {
    assert_eq!(scan_address(Some(vec![1, 2, 3, 4, 5])), Ok([1u8, 2, 3, 4, 5]));
}

#[test]
fn scan_rejects_other_lengths() {
    assert_eq!(scan_address(Some(vec![1, 2, 3, 4])), Err(ScanError::InvalidAddressLength { len: 4 }));
    assert_eq!(scan_address(Some(vec![])), Err(ScanError::InvalidAddressLength { len: 0 }));
    assert_eq!(scan_address(Some(vec![0; 6])), Err(ScanError::InvalidAddressLength { len: 6 }));
    assert_eq!(ScanError::InvalidAddressLength { len: 6 }.message(), "Address must be exactly 5 bytes");
}

#[test]
fn facades_fail_after_close() {
    let mut reg = SessionRegistry::new();
    let s = reg.open_session();
    let other = reg.open_session();
    let log = reg.attach(s, Subsystem::Log).unwrap();
    let console = reg.attach(s, Subsystem::Console).unwrap();
    let param = reg.attach(other, Subsystem::Param).unwrap();
    assert_eq!(reg.check_facade(&log), Ok(()));
    reg.close(s);
    assert_eq!(reg.check_facade(&log), Err(SessionError::ConnectionClosed));
    assert_eq!(reg.check_facade(&console), Err(SessionError::ConnectionClosed));
    assert_eq!(reg.check_facade(&param), Ok(()));
    assert_eq!(reg.attach(s, Subsystem::Memory), Err(SessionError::ConnectionClosed));
    let _third = reg.open_session();
    assert_eq!(reg.check_facade(&log), Err(SessionError::ConnectionClosed));
    assert_eq!(SessionError::ConnectionClosed.message(), "Connection closed");
}

#[test]
fn unknown_session_is_refused() {
    let reg = SessionRegistry::new();
    let h = FacadeHandle { session: SessionId { index: 3 }, subsystem: Subsystem::Commander };
    assert_eq!(reg.check_facade(&h), Err(SessionError::UnknownSession));
    assert_eq!(reg.check_open(SessionId { index: 0 }), Err(SessionError::UnknownSession));
}

#[test]
fn toc_miss_then_fetch_then_reuse() {
    let mut reg = SessionRegistry::new();
    let s = reg.open_session();
    let mut cache = InMemoryTocCache::new();
    let key = vec![1u8, 9, 9, 9, 9];
    let mut f = TocFacade::new(reg.attach(s, Subsystem::Param).unwrap());
    assert!(matches!(f.resolve(&reg, &cache, &key), Ok(TocStep::Fetch)));
    assert_eq!(f.install_fetched(&reg, &mut cache, &key, vec![5u8, 6]), Ok(vec![5u8, 6]));
    assert!(f.is_resolved());
    assert_eq!(cache.lookup(&key), Some(vec![5u8, 6]));
    cache.store(&key, &vec![9u8]);
    match f.resolve(&reg, &cache, &key) {
        Ok(TocStep::Ready(t)) => assert_eq!(t, vec![5u8, 6]),
        _ => panic!("resolved table expected"),
    }
    assert_eq!(f.install_fetched(&reg, &mut cache, &key, vec![7u8]), Ok(vec![5u8, 6]));
    assert_eq!(cache.lookup(&key), Some(vec![9u8]));
}

#[test]
fn toc_hit_skips_download() {
    let mut reg = SessionRegistry::new();
    let s = reg.open_session();
    let mut cache = InMemoryTocCache::new();
    let key = vec![1u8, 2, 2, 2, 2];
    cache.store(&key, &vec![3u8]);
    let mut f = TocFacade::new(reg.attach(s, Subsystem::Log).unwrap());
    match f.resolve(&reg, &cache, &key) {
        Ok(TocStep::Ready(t)) => assert_eq!(t, vec![3u8]),
        _ => panic!("cache hit expected"),
    }
    assert_eq!(f.handle().subsystem, Subsystem::Log);
}

#[test]
fn toc_with_disabled_cache_always_fetches() {
    let mut reg = SessionRegistry::new();
    let s = reg.open_session();
    let mut cache = NoTocCache::new();
    let key = vec![1u8, 2, 2, 2, 2];
    let mut a = TocFacade::new(reg.attach(s, Subsystem::Memory).unwrap());
    assert!(matches!(a.resolve(&reg, &cache, &key), Ok(TocStep::Fetch)));
    assert_eq!(a.install_fetched(&reg, &mut cache, &key, vec![4u8]), Ok(vec![4u8]));
    let mut b = TocFacade::new(reg.attach(s, Subsystem::Memory).unwrap());
    assert!(matches!(b.resolve(&reg, &cache, &key), Ok(TocStep::Fetch)));
}

#[test]
fn toc_facade_fails_after_close() {
    let mut reg = SessionRegistry::new();
    let s = reg.open_session();
    let mut cache = InMemoryTocCache::new();
    let key = vec![1u8, 2, 2, 2, 2];
    let mut f = TocFacade::new(reg.attach(s, Subsystem::Log).unwrap());
    assert_eq!(f.install_fetched(&reg, &mut cache, &key, vec![4u8]), Ok(vec![4u8]));
    reg.close(s);
    assert!(matches!(f.resolve(&reg, &cache, &key), Err(SessionError::ConnectionClosed)));
    assert_eq!(f.install_fetched(&reg, &mut cache, &key, vec![4u8]), Err(SessionError::ConnectionClosed));
}
