use deskd::cache::ElementCache;
use deskd::element::{Element, ElementBounds, ElementSelector};

fn button() -> Element {
    Element {
        name: "Test Button".to_string(),
        role: "PushButton".to_string(),
        description: "".to_string(),
        states: vec![],
        bounds: None,
        path: "/org/a11y/atspi/accessible/1234".to_string(),
    }
}

#[test]
fn test_cache_basic() {
    let mut cache = ElementCache::new(60);
    let element = Element {
        name: "Test Button".to_string(),
        role: "PushButton".to_string(),
        description: "A test button".to_string(),
        states: vec!["Enabled".to_string()],
        bounds: Some(ElementBounds { x: 100, y: 200, width: 80, height: 30 }),
        path: "/org/a11y/atspi/accessible/1234".to_string(),
    };
    cache.set("test_key".to_string(), element.clone(), 0);
    let cached = cache.get("test_key", 0);
    assert!(cached.is_some());
    assert_eq!(cached.unwrap().name, "Test Button");
    let missing = cache.get("missing_key", 0);
    assert!(missing.is_none());
}

#[test]
fn test_cache_expiration() {
    let mut cache = ElementCache::new(1);
    cache.set("test_key".to_string(), button(), 0);
    assert!(cache.get("test_key", 0).is_some());
    assert!(cache.get("test_key", 2000).is_none());
}

#[test]
fn test_cache_invalidation() {
    let mut cache = ElementCache::new(60);
    cache.set("test_key".to_string(), button(), 0);
    assert!(cache.get("test_key", 0).is_some());
    cache.invalidate("test_key");
    assert!(cache.get("test_key", 0).is_none());
}

#[test]
fn test_cache_stats() {
    let mut cache = ElementCache::new(60);
    cache.set("key1".to_string(), button(), 0);
    cache.set("key2".to_string(), button(), 0);
    let stats = cache.stats(0);
    assert_eq!(stats.total_entries, 2);
    assert_eq!(stats.active_entries, 2);
}

#[test]
fn cache_get_returns_full_copy() {
    let mut cache = ElementCache::new(60);
    let mut e = button();
    e.states = vec!["Enabled".to_string(), "Focused".to_string()];
    e.bounds = Some(ElementBounds { x: 1, y: 2, width: 3, height: 4 });
    cache.set("k".to_string(), e, 10);
    let got = cache.get("k", 10).unwrap();
    assert_eq!(got.states, vec!["Enabled".to_string(), "Focused".to_string()]);
    assert_eq!(got.bounds, Some(ElementBounds { x: 1, y: 2, width: 3, height: 4 }));
    assert_eq!(got.path, "/org/a11y/atspi/accessible/1234");
}

#[test]
fn cache_expiry_boundary_and_overwrite() {
    let mut cache = ElementCache::new(1);
    cache.set("k".to_string(), button(), 1000);
    assert!(cache.get("k", 1999).is_some());
    assert!(cache.get("k", 2000).is_none());
    let mut newer = button();
    newer.name = "Other".to_string();
    cache.set("k".to_string(), newer, 2000);
    assert_eq!(cache.get("k", 2500).unwrap().name, "Other");
    assert_eq!(cache.stats(2500).total_entries, 1);
}

#[test]
fn cache_clear_expired_counts() {
    let mut cache = ElementCache::new(1);
    cache.set("old1".to_string(), button(), 0);
    cache.set("old2".to_string(), button(), 100);
    cache.set("new".to_string(), button(), 5000);
    let stats = cache.stats(5500);
    assert_eq!(stats.total_entries, 3);
    assert_eq!(stats.expired_entries, 2);
    assert_eq!(stats.active_entries, 1);
    assert_eq!(cache.clear_expired(5500), 2);
    assert!(cache.get("new", 5500).is_some());
    assert_eq!(cache.stats(5500).total_entries, 1);
    cache.clear_all();
    assert_eq!(cache.stats(5500).total_entries, 0);
}

#[test]
fn cache_zero_ttl_never_returns() {
    let mut cache = ElementCache::new(0);
    cache.set("k".to_string(), button(), 7);
    assert!(cache.get("k", 7).is_none());
}

#[test]
fn test_selector_creation() {
    let selector = ElementSelector::by_name("Submit");
    assert_eq!(selector.name, Some("Submit".to_string()));
    let selector = ElementSelector::by_role("PushButton");
    assert!(selector.role.is_some());
    let selector = ElementSelector::by_name_and_role("OK", "PushButton");
    assert_eq!(selector.name, Some("OK".to_string()));
    assert_eq!(selector.role, Some("PushButton".to_string()));
}
