use dragoon_flight::cache::FrameCache;

#[test]
fn cache_returns_what_was_stored() {
    let mut c: FrameCache<u32> = FrameCache::new();
    assert!(c.get(&"enemy".to_string()).is_none());
    c.insert("enemy".to_string(), vec![1, 2, 3]);
    c.insert("bullet".to_string(), vec![7]);
    assert_eq!(c.get(&"enemy".to_string()), Some(&vec![1, 2, 3]));
    assert_eq!(c.get(&"bullet".to_string()), Some(&vec![7]));
    assert!(c.get(&"player".to_string()).is_none());
}

#[test]
fn cache_insert_replaces_earlier_frames() {
    let mut c: FrameCache<u32> = FrameCache::new();
    c.insert("enemy".to_string(), vec![1, 2, 3]);
    c.insert("bullet".to_string(), vec![7]);
    c.insert("enemy".to_string(), vec![4]);
    assert_eq!(c.get(&"enemy".to_string()), Some(&vec![4]));
    assert_eq!(c.get(&"bullet".to_string()), Some(&vec![7]));
    assert_eq!(c.sets.len(), 2);
}
