//! Client-side logic for the SAML Metadata Query (MDQ) protocol: deriving
//! lookup tokens from entity identifiers, building request URLs, classifying
//! responses, requiring XML signature verification, and caching parsed
//! metadata.

mod cache;
mod client;
mod error;
mod hash;
mod metadata;

pub use cache::{cache_entries, lemma_absent_key_never_hits, no_entries, MdqCache};
pub use error::MdqError;
pub use metadata::{
    parse_entity, ContactPerson, ContactPersonView, EntityMetadata, IdpSsoDescriptor,
    IdpSsoDescriptorView, MetadataView, SsoEndpoint,
    SsoEndpointView,
};
pub use client::{
    dec_digits, is_success_status, lemma_normalized_base_idempotent, lemma_normalized_base_no_slash,
    lemma_cached_refetch_agrees, normalized_base, request_url, signature_accepts, status_message,
    FetchStep, HttpOutcome, MdqClient, MdqClientBuilder, SignatureVerdict,
};
pub use hash::{
    encode_entity_id, entity_id_hash, form_urlencoded_of, hash_entity_id, hex_of,
    lemma_hash_entity_id_deterministic, sha1_of,
};
