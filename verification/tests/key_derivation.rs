use saml_mdq::{encode_entity_id, hash_entity_id};

#[test]
fn hash_produces_40_hex_chars() {
    let hash = hash_entity_id("https://idp.example.org/shibboleth");
    assert_eq!(hash.len(), 40);
    assert!(hash.chars().all(|c| c.is_ascii_hexdigit()));
}

#[test]
fn hash_is_deterministic() {
    let a = hash_entity_id("https://idp.example.org/shibboleth");
    let b = hash_entity_id("https://idp.example.org/shibboleth");
    assert_eq!(a, b);
}

#[test]
fn encode_percent_encodes_url() {
    let encoded = encode_entity_id("https://idp.example.org/shibboleth");
    assert_eq!(encoded, "https%3A%2F%2Fidp.example.org%2Fshibboleth");
}

#[test]
fn hash_known_entity_id() {
    let hash = hash_entity_id("https://login.cmu.edu/idp/shibboleth");
    // Verified against: printf "https://login.cmu.edu/idp/shibboleth" | sha1sum
    assert_eq!(hash, "eae8d5aaf1ba1a6f08f0c66bb31b147974bd7560");
}

#[test]
fn hash_empty_string_is_sha1_of_nothing() {
    let hash = hash_entity_id("");
    assert_eq!(hash, "da39a3ee5e6b4b0d3255bfef95601890afd80709");
}

#[test]
fn hash_is_lowercase() {
    let hash = hash_entity_id("https://idp.example.org/shibboleth");
    assert!(hash.chars().all(|c| c.is_ascii_digit() || c.is_ascii_lowercase()));
}

#[test]
fn hash_non_ascii_hashes_utf8_bytes() {
    // Verified against: printf "\xc3\xa9" | sha1sum
    assert_eq!(hash_entity_id("\u{e9}"), "bf15be717ac1b080b4f1c456692825891ff5073d");
}

#[test]
fn encode_empty_string_is_empty() {
    assert_eq!(encode_entity_id(""), "");
}

#[test]
fn encode_space_becomes_plus() {
    assert_eq!(encode_entity_id("a b"), "a+b");
}

#[test]
fn encode_unreserved_bytes_unchanged() {
    assert_eq!(encode_entity_id("AZaz09*-._"), "AZaz09*-._");
}

#[test]
fn encode_non_ascii_percent_escapes_utf8_bytes() {
    assert_eq!(encode_entity_id("\u{e9}"), "%C3%A9");
}
