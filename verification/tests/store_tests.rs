use classgate::store::{DecryptedClassCache, ScannedArchiveRegistry};

#[test]
fn registry_starts_empty() {
    let registry = ScannedArchiveRegistry::new();
    assert!(!registry.is_scanned("opt/app.jar"));
}

#[test]
fn first_marking_wins() {
    let mut registry = ScannedArchiveRegistry::new();
    assert!(registry.mark_scanned("opt/app.jar".to_string()));
    assert!(registry.is_scanned("opt/app.jar"));
    let mut fresh = 0;
    for _ in 0..50 {
        if registry.mark_scanned("opt/app.jar".to_string()) {
            fresh += 1;
        }
    }
    assert_eq!(fresh, 0);
}

#[test]
fn marking_one_path_leaves_others() {
    let mut registry = ScannedArchiveRegistry::new();
    assert!(registry.mark_scanned("a.jar".to_string()));
    assert!(!registry.is_scanned("b.jar"));
    assert!(registry.mark_scanned("b.jar".to_string()));
    assert!(registry.is_scanned("a.jar"));
    assert!(!registry.mark_scanned("a.jar".to_string()));
}

#[test]
fn cache_starts_empty() {
    let cache = DecryptedClassCache::new();
    assert_eq!(cache.len(), 0);
    assert!(!cache.contains("pkg.Foo"));
    assert_eq!(cache.lookup("pkg.Foo"), None);
}

#[test]
fn cache_returns_what_was_stored() {
    let mut cache = DecryptedClassCache::new();
    cache.insert("pkg.Foo".to_string(), vec![1, 2, 3]);
    cache.insert("pkg.Bar".to_string(), vec![]);
    assert_eq!(cache.len(), 2);
    assert!(cache.contains("pkg.Foo"));
    assert_eq!(cache.lookup("pkg.Foo"), Some(vec![1, 2, 3]));
    assert_eq!(cache.lookup("pkg.Bar"), Some(vec![]));
    assert_eq!(cache.lookup("pkg/Foo"), None);
}

#[test]
fn last_write_wins() {
    let mut cache = DecryptedClassCache::new();
    cache.insert("pkg.Foo".to_string(), vec![1, 2, 3]);
    cache.insert("pkg.Foo".to_string(), vec![4]);
    assert_eq!(cache.len(), 1);
    assert_eq!(cache.lookup("pkg.Foo"), Some(vec![4]));
}
