use saml_mdq::{EntityMetadata, MdqCache};

fn sample_metadata(entity_id: &str) -> EntityMetadata {
    EntityMetadata {
        entity_id: Some(entity_id.to_string()),
        idp_sso_descriptors: Vec::new(),
        contact_person: Vec::new(),
    }
}

#[test]
fn cache_round_trip_within_ttl() {
    let mut cache = MdqCache::new(100, 300);
    let value = sample_metadata("https://idp.example.org/shibboleth");
    cache.insert("https://idp.example.org/shibboleth", &value);
    let hit = cache.get("https://idp.example.org/shibboleth");
    match hit {
        Some(m) => assert_eq!(m.entity_id.as_deref(), Some("https://idp.example.org/shibboleth")),
        None => panic!("expected a hit for a freshly inserted key"),
    }
}

#[test]
fn cache_miss_for_never_inserted_key() {
    let cache = MdqCache::new(100, 300);
    assert!(cache.get("https://never.example.org").is_none());
}

#[test]
fn cache_miss_after_invalidation() {
    let mut cache = MdqCache::new(100, 300);
    let value = sample_metadata("https://idp.example.org/shibboleth");
    cache.insert("https://idp.example.org/shibboleth", &value);
    cache.invalidate("https://idp.example.org/shibboleth");
    assert!(cache.get("https://idp.example.org/shibboleth").is_none());
}

#[test]
fn cache_insert_replaces_value() {
    let mut cache = MdqCache::new(100, 300);
    cache.insert("k", &sample_metadata("https://first.example.org"));
    cache.insert("k", &sample_metadata("https://second.example.org"));
    let hit = cache.get("k").expect("expected a hit after two inserts");
    assert_eq!(hit.entity_id.as_deref(), Some("https://second.example.org"));
}

#[test]
fn default_cache_starts_empty() {
    let cache = MdqCache::default();
    assert!(cache.get("anything").is_none());
}
