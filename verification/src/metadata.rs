//! The parsed representation of a SAML entity descriptor, as this client
//! reads it: the entity identifier, the identity-provider descriptors with
//! their ordered single-sign-on endpoints, and the contact persons. Parsing
//! the XML itself is supplied by samael; the result is carried here as plain
//! values.

use vstd::prelude::*;

verus! {

/// A single-sign-on endpoint of an identity provider: a binding URN and a
/// location URL.
#[derive(Debug, Clone)]
pub struct SsoEndpoint {
    pub binding: String,
    pub location: String,
}

/// One identity-provider descriptor of the entity, holding its
/// single-sign-on endpoints in document order.
#[derive(Debug, Clone)]
pub struct IdpSsoDescriptor {
    pub sso_endpoints: Vec<SsoEndpoint>,
}

/// A contact person listed in the entity descriptor.
#[derive(Debug, Clone)]
pub struct ContactPerson {
    pub contact_type: Option<String>,
    pub company: Option<String>,
    pub given_name: Option<String>,
    pub email_addresses: Option<Vec<String>>,
}

/// The metadata describing one SAML entity, as a successful fetch returns it.
#[derive(Debug, Clone)]
pub struct EntityMetadata {
    pub entity_id: Option<String>,
    pub idp_sso_descriptors: Vec<IdpSsoDescriptor>,
    pub contact_person: Vec<ContactPerson>,
}

/// The mathematical value of an `SsoEndpoint`.
pub struct SsoEndpointView {
    pub binding: Seq<char>,
    pub location: Seq<char>,
}

/// The mathematical value of an `IdpSsoDescriptor`.
pub struct IdpSsoDescriptorView {
    pub sso_endpoints: Seq<SsoEndpointView>,
}

/// The mathematical value of a `ContactPerson`.
pub struct ContactPersonView {
    pub contact_type: Option<Seq<char>>,
    pub company: Option<Seq<char>>,
    pub given_name: Option<Seq<char>>,
    pub email_addresses: Option<Seq<Seq<char>>>,
}

/// The mathematical value of an `EntityMetadata`.
pub struct MetadataView {
    pub entity_id: Option<Seq<char>>,
    pub idp_sso_descriptors: Seq<IdpSsoDescriptorView>,
    pub contact_person: Seq<ContactPersonView>,
}

impl View for SsoEndpoint {
    type V = SsoEndpointView;

    open spec fn view(&self) -> SsoEndpointView {
        SsoEndpointView { binding: self.binding@, location: self.location@ }
    }
}

impl View for IdpSsoDescriptor {
    type V = IdpSsoDescriptorView;

    open spec fn view(&self) -> IdpSsoDescriptorView {
        IdpSsoDescriptorView {
            sso_endpoints: self.sso_endpoints@.map_values(|e: SsoEndpoint| e@),
        }
    }
}

impl View for ContactPerson {
    type V = ContactPersonView;

    open spec fn view(&self) -> ContactPersonView {
        ContactPersonView {
            contact_type: match self.contact_type {
                Some(s) => Some(s@),
                None => None,
            },
            company: match self.company {
                Some(s) => Some(s@),
                None => None,
            },
            given_name: match self.given_name {
                Some(s) => Some(s@),
                None => None,
            },
            email_addresses: match self.email_addresses {
                Some(v) => Some(v@.map_values(|s: String| s@)),
                None => None,
            },
        }
    }
}

impl View for EntityMetadata {
    type V = MetadataView;

    open spec fn view(&self) -> MetadataView {
        MetadataView {
            entity_id: match self.entity_id {
                Some(s) => Some(s@),
                None => None,
            },
            idp_sso_descriptors: self.idp_sso_descriptors@.map_values(|i: IdpSsoDescriptor| i@),
            contact_person: self.contact_person@.map_values(|c: ContactPerson| c@),
        }
    }
}

/// What parsing a metadata document yields: `Ok` with the parsed value when
/// the text is a well-formed entity descriptor, `Err` with the parser's
/// diagnostic description when it is not. Named here so that contracts can
/// speak of it; its value on given text is fixed only by the parser itself.
pub uninterp spec fn parse_entity(xml: Seq<char>) -> Result<MetadataView, Seq<char>>;

/// Relies on samael's `metadata::de::from_str` for `EntityDescriptor`: the
/// parse outcome, including the diagnostic on failure, is a function of the
/// text alone; the fields carried over here are moved from the parsed
/// descriptor unchanged, each identity-provider descriptor keeping its
/// single-sign-on endpoints in document order.
#[verifier::external_body]
pub(crate) fn parse_entity_xml(xml: &str) -> (r: Result<EntityMetadata, String>)
    ensures
        match r {
            Ok(m) => (parse_entity(xml@) matches Ok(v) && v == m@),
            Err(e) => (parse_entity(xml@) matches Err(d) && d == e@),
        },
{
    match samael::metadata::de::from_str::<samael::metadata::EntityDescriptor>(xml) {
        Err(e) => Err(e.to_string()),
        Ok(d) => Ok(EntityMetadata {
            entity_id: d.entity_id,
            idp_sso_descriptors: d.idp_sso_descriptors.unwrap_or_default().into_iter()
                .map(|i| IdpSsoDescriptor { sso_endpoints: i.single_sign_on_services.into_iter().map(|e| SsoEndpoint { binding: e.binding, location: e.location }).collect() })
                .collect(),
            contact_person: d.contact_person.unwrap_or_default().into_iter()
                .map(|c| ContactPerson { contact_type: c.contact_type, company: c.company, given_name: c.given_name, email_addresses: c.email_addresses })
                .collect(),
        }),
    }
}

} // verus!
