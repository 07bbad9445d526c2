use minion::linux::uid_alloc::UidAllocator;

#[test]
fn allocate_gives_the_lowest_free() {
    let mut a = UidAllocator::new(10, 13);
    assert_eq!(a.allocate(), Some(10));
    assert_eq!(a.allocate(), Some(11));
    assert_eq!(a.allocate(), Some(12));
    assert_eq!(a.allocate(), None);
    assert_eq!(a.allocate(), None);
    a.deallocate(11);
    assert!(!a.is_used(11));
    assert!(a.is_used(10) && a.is_used(12));
    assert_eq!(a.allocate(), Some(11));
    assert_eq!(a.allocate(), None);
}

#[test]
fn empty_range_has_no_user() {
    let mut a = UidAllocator::new(5, 5);
    assert_eq!(a.allocate(), None);
}

#[test]
fn users_are_never_shared() {
    let mut a = UidAllocator::new(1000, 1064);
    let mut live = std::collections::HashSet::new();
    for round in 0..500u32 {
        if round % 3 == 2 {
            let victim = live.iter().next().copied();
            if let Some(uid) = victim {
                live.remove(&uid);
                a.deallocate(uid);
            }
        } else if let Some(uid) = a.allocate() {
            assert!((1000..1064).contains(&uid));
            assert!(live.insert(uid), "uid {} handed out twice", uid);
        } else {
            assert_eq!(live.len(), 64);
        }
    }
}
