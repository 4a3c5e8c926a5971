//! The MDQ client: builder and configuration, request-URL construction,
//! response classification, the signature step, parsing, and cache
//! population. The HTTP transport and the XML-DSig verifier are
//! collaborators outside this module: a caller obtains the request to make
//! from `prepare_fetch` and hands the transport's outcome, together with the
//! verifier's verdict on the response body, to `complete_fetch`, which
//! decides the rest of the pipeline.

use vstd::prelude::*;

verus! {

use vstd::string::StrSliceExecFns;
use vstd::string::StringExecFns;
use vstd::utf8::encode_utf8;

use crate::cache::MdqCache;
use crate::error::MdqError;
use crate::hash::{encode_entity_id, form_urlencoded_of};
use crate::metadata::{parse_entity, parse_entity_xml, EntityMetadata, MetadataView};

/// A base URL with every trailing `/` stripped.
pub open spec fn normalized_base(s: Seq<char>) -> Seq<char>
    decreases s.len(),
{
    if s.len() > 0 && s[s.len() - 1] == '/' {
        normalized_base(s.drop_last())
    } else {
        s
    }
}

/// Law: normalization is idempotent; applying it to its own result changes
/// nothing.
pub proof fn lemma_normalized_base_idempotent(s: Seq<char>)
    ensures
        normalized_base(normalized_base(s)) == normalized_base(s),
    decreases s.len(),
{
    if s.len() > 0 && s[s.len() - 1] == '/' {
        lemma_normalized_base_idempotent(s.drop_last());
    }
}

/// A normalized base URL never ends in `/`.
pub proof fn lemma_normalized_base_no_slash(s: Seq<char>)
    ensures
        normalized_base(s).len() > 0 ==> normalized_base(s)[normalized_base(s).len() - 1] != '/',
    decreases s.len(),
{
    if s.len() > 0 && s[s.len() - 1] == '/' {
        lemma_normalized_base_no_slash(s.drop_last());
    }
}

proof fn lemma_normalized_base_prefix(s: Seq<char>, end: int)
    requires
        0 <= end <= s.len(),
        forall|j: int| end <= j < s.len() ==> s[j] == '/',
        end > 0 ==> s[end - 1] != '/',
    ensures
        normalized_base(s) == s.subrange(0, end),
    decreases s.len(),
{
    if s.len() == end {
        assert(s.subrange(0, end) =~= s);
    } else {
        lemma_normalized_base_prefix(s.drop_last(), end);
        assert(s.drop_last().subrange(0, end) =~= s.subrange(0, end));
    }
}

fn normalize_base_url(s: &str) -> (r: String)
    ensures
        r@ == normalized_base(s@),
{
    let n = s.unicode_len();
    let mut end: usize = n;
    while end > 0 && s.get_char(end - 1) == '/'
        invariant
            end <= n,
            n == s@.len(),
            forall|j: int| end <= j < n ==> s@[j] == '/',
        decreases end,
    {
        end = end - 1;
    }
    let t = s.substring_char(0, end);
    proof {
        lemma_normalized_base_prefix(s@, end as int);
    }
    t.to_owned()
}

/// The decimal digit character for a value below ten.
pub open spec fn dec_digit_char(n: nat) -> char
    recommends
        n < 10,
{
    ((48 + n) as u8) as char
}

/// The decimal rendering of a number, most significant digit first.
pub open spec fn dec_digits(n: nat) -> Seq<char>
    decreases n,
{
    if n < 10 {
        seq![dec_digit_char(n)]
    } else {
        dec_digits(n / 10) + seq![dec_digit_char(n % 10)]
    }
}

fn digit_str(d: u16) -> (r: &'static str)
    requires
        d < 10,
    ensures
        r@ == seq![dec_digit_char(d as nat)],
{
    match d {
        0 => {
            proof {
                reveal_strlit("0");
            }
            "0"
        },
        1 => {
            proof {
                reveal_strlit("1");
            }
            "1"
        },
        2 => {
            proof {
                reveal_strlit("2");
            }
            "2"
        },
        3 => {
            proof {
                reveal_strlit("3");
            }
            "3"
        },
        4 => {
            proof {
                reveal_strlit("4");
            }
            "4"
        },
        5 => {
            proof {
                reveal_strlit("5");
            }
            "5"
        },
        6 => {
            proof {
                reveal_strlit("6");
            }
            "6"
        },
        7 => {
            proof {
                reveal_strlit("7");
            }
            "7"
        },
        8 => {
            proof {
                reveal_strlit("8");
            }
            "8"
        },
        _ => {
            proof {
                reveal_strlit("9");
            }
            "9"
        },
    }
}

fn push_dec_digits(out: &mut String, n: u16)
    ensures
        final(out)@ == old(out)@ + dec_digits(n as nat),
    decreases n,
{
    if n < 10 {
        out.append(digit_str(n));
    } else {
        push_dec_digits(out, n / 10);
        out.append(digit_str(n % 10));
        proof {
            assert(out@ =~= old(out)@ + dec_digits(n as nat));
        }
    }
}

/// The diagnostic carried by `MdqError::InvalidXml` for a non-success,
/// non-404 HTTP status.
pub open spec fn status_message(status: u16) -> Seq<char> {
    "MDQ server returned status "@ + dec_digits(status as nat)
}

fn build_status_message(status: u16) -> (r: String)
    ensures
        r@ == status_message(status),
{
    let mut msg = String::from_str("MDQ server returned status ");
    push_dec_digits(&mut msg, status);
    msg
}

/// Whether an HTTP status code counts as success (2xx).
pub open spec fn is_success_status(status: u16) -> bool {
    200 <= status && status < 300
}

/// The URL an entity is fetched from: `{base}/entities/{encoded identifier}`.
pub open spec fn request_url(base: Seq<char>, id: Seq<char>) -> Seq<char> {
    base + "/entities/"@ + form_urlencoded_of(encode_utf8(id))
}

/// A verifier's verdict on a fetched document, supplied by the caller's
/// XML-DSig capability: the document was accepted, or rejected with the
/// verifier's cause description. The library consumes the verdict; it never
/// computes one.
#[derive(Debug, Clone)]
pub enum SignatureVerdict {
    Accepted,
    Rejected(String),
}

/// Whether the signature step lets a document through: with no certificate
/// configured every document passes; with one, the supplied verdict must be
/// an acceptance.
pub open spec fn signature_accepts(cert: Option<Vec<u8>>, verdict: SignatureVerdict) -> bool {
    cert is None || verdict is Accepted
}

/// Law: a completed fetch that succeeded with a configured cache stores the
/// returned metadata under the requested identifier, so a later cache hit
/// for that identifier yields the stored value itself — in particular the
/// same entity identifier — and needs no further request.
pub proof fn lemma_cached_refetch_agrees(
    entries: Map<Seq<char>, MetadataView>,
    id: Seq<char>,
    m: MetadataView,
)
    ensures
        entries.insert(id, m).dom().contains(id),
        entries.insert(id, m)[id] == m,
{
}

/// A client for one MDQ aggregator: its normalized base URL, an optional
/// result cache, an optional signing certificate, and the request timeout
/// the transport must apply.
pub struct MdqClient {
    pub base_url: String,
    pub cache: Option<MdqCache>,
    pub signing_cert: Option<Vec<u8>>,
    pub timeout_secs: u64,
}

/// Staged configuration for an `MdqClient`; `build` normalizes the base URL.
pub struct MdqClientBuilder {
    pub base_url: String,
    pub cache: Option<MdqCache>,
    pub signing_cert: Option<Vec<u8>>,
    pub timeout_secs: u64,
}

/// What a fetch needs next after consulting the cache: a cached value, or an
/// HTTP GET of the carried URL.
pub enum FetchStep {
    Cached(EntityMetadata),
    NeedsRequest(String),
}

/// What the HTTP transport came back with: a transport-level failure, or a
/// response with its status code and body text.
pub enum HttpOutcome {
    Failed(String),
    Response(u16, String),
}

impl MdqClientBuilder {
    /// Start configuring a client for the given aggregator base URL, with no
    /// cache, no signing certificate, and the default 10-second timeout.
    pub fn new(base_url: &str) -> (r: MdqClientBuilder)
        ensures
            r.base_url@ == base_url@,
            r.cache is None,
            r.signing_cert is None,
            r.timeout_secs == 10,
    {
        MdqClientBuilder {
            base_url: base_url.to_owned(),
            cache: None,
            signing_cert: None,
            timeout_secs: 10,
        }
    }

    /// Attach a result cache.
    pub fn cache(self, cache: MdqCache) -> (r: MdqClientBuilder)
        ensures
            r.base_url == self.base_url,
            r.cache == Some(cache),
            r.signing_cert == self.signing_cert,
            r.timeout_secs == self.timeout_secs,
    {
        MdqClientBuilder { cache: Some(cache), ..self }
    }

    /// Attach a DER-encoded signing certificate; a fetched document is then
    /// parsed and cached only after the caller's verifier accepts it against
    /// this certificate (the verdict is handed to `complete_fetch`).
    pub fn signing_cert(self, cert_der: Vec<u8>) -> (r: MdqClientBuilder)
        ensures
            r.base_url == self.base_url,
            r.cache == self.cache,
            r.signing_cert == Some(cert_der),
            r.timeout_secs == self.timeout_secs,
    {
        MdqClientBuilder { signing_cert: Some(cert_der), ..self }
    }

    /// Set the request timeout, in seconds.
    pub fn timeout(self, timeout_secs: u64) -> (r: MdqClientBuilder)
        ensures
            r.base_url == self.base_url,
            r.cache == self.cache,
            r.signing_cert == self.signing_cert,
            r.timeout_secs == timeout_secs,
    {
        MdqClientBuilder { timeout_secs, ..self }
    }

    /// Construct the client: the base URL is normalized by stripping trailing
    /// slashes; every other setting is taken as configured.
    pub fn build(self) -> (r: Result<MdqClient, MdqError>)
        ensures
            r matches Ok(c) && c.base_url@ == normalized_base(self.base_url@) && c.cache
                == self.cache && c.signing_cert == self.signing_cert && c.timeout_secs
                == self.timeout_secs,
            r matches Ok(c) ==> (c.base_url@.len() > 0 ==> c.base_url@[c.base_url@.len() - 1]
                != '/'),
    {
        proof {
            lemma_normalized_base_no_slash(self.base_url@);
        }
        let base_url = normalize_base_url(self.base_url.as_str());
        Ok(MdqClient {
            base_url,
            cache: self.cache,
            signing_cert: self.signing_cert,
            timeout_secs: self.timeout_secs,
        })
    }
}

impl MdqClient {
    /// Start configuring a client for the given aggregator base URL.
    pub fn builder(base_url: &str) -> (r: MdqClientBuilder)
        ensures
            r.base_url@ == base_url@,
            r.cache is None,
            r.signing_cert is None,
            r.timeout_secs == 10,
    {
        MdqClientBuilder::new(base_url)
    }

    /// Begin a fetch: a cache hit ends it at once with the stored metadata
    /// and needs no network access; otherwise the caller must GET the
    /// returned request URL and hand the outcome to `complete_fetch`.
    pub fn prepare_fetch(&self, entity_id: &str) -> (r: FetchStep)
        ensures
            (r matches FetchStep::Cached(m) ==> self.cache matches Some(c) && c.entries().dom()
                .contains(entity_id@) && m@ == c.entries()[entity_id@]),
            (r matches FetchStep::NeedsRequest(url) ==> url@ == request_url(
                self.base_url@,
                entity_id@,
            )),
            (self.cache is None ==> r is NeedsRequest),
    {
        match &self.cache {
            Some(c) => {
                if let Some(m) = c.get(entity_id) {
                    return FetchStep::Cached(m);
                }
            },
            None => {},
        }
        let encoded = encode_entity_id(entity_id);
        let mut url = self.base_url.clone();
        url.append("/entities/");
        url.append(encoded.as_str());
        FetchStep::NeedsRequest(url)
    }

    /// Finish a fetch from the transport's outcome and, where a certificate
    /// is configured, the verifier's verdict on the response body against
    /// it: a transport failure is surfaced as `Http`; a 404 means the entity
    /// does not exist (`EntityNotFound`); any other non-success status is a
    /// malformed response (`InvalidXml`); on success a rejected verdict
    /// fails with `SignatureError` carrying the verifier's cause before
    /// anything is parsed or cached (with no certificate the verdict is
    /// ignored), an unparseable body is `InvalidXml` carrying the parser's
    /// diagnostic, and only a fully successful result is stored in the
    /// cache.
    pub fn complete_fetch(
        &mut self,
        entity_id: &str,
        outcome: HttpOutcome,
        signature: SignatureVerdict,
    ) -> (r: Result<EntityMetadata, MdqError>)
        ensures
            final(self).base_url == old(self).base_url,
            final(self).signing_cert == old(self).signing_cert,
            final(self).timeout_secs == old(self).timeout_secs,
            (match outcome {
                HttpOutcome::Failed(m) => (r matches Err(MdqError::Http(d)) && d@ == m@),
                HttpOutcome::Response(status, body) => {
                    &&& (status == 404 ==> (r matches Err(MdqError::EntityNotFound(e)) && e@
                        == entity_id@))
                    &&& (status != 404 && !is_success_status(status) ==> (r matches Err(
                        MdqError::InvalidXml(d),
                    ) && d@ == status_message(status)))
                    &&& (is_success_status(status) && !signature_accepts(
                        old(self).signing_cert,
                        signature,
                    ) ==> (signature matches SignatureVerdict::Rejected(cause)
                        && r matches Err(MdqError::SignatureError(d)) && d@ == cause@))
                    &&& (is_success_status(status) && signature_accepts(
                        old(self).signing_cert,
                        signature,
                    ) ==> (match parse_entity(body@) {
                        Ok(v) => (r matches Ok(m) && m@ == v),
                        Err(x) => (r matches Err(MdqError::InvalidXml(d)) && d@ == x),
                    }))
                },
            }),
            (match r {
                Ok(m) => (match old(self).cache {
                    Some(c0) => (final(self).cache matches Some(c1) && c1.entries()
                        == c0.entries().insert(entity_id@, m@)),
                    None => final(self).cache is None,
                }),
                Err(_) => final(self).cache == old(self).cache,
            }),
    {
        match outcome {
            HttpOutcome::Failed(m) => Err(MdqError::Http(m)),
            HttpOutcome::Response(status, body) => {
                if status == 404 {
                    return Err(MdqError::EntityNotFound(entity_id.to_owned()));
                }
                if !(200 <= status && status < 300) {
                    return Err(MdqError::InvalidXml(build_status_message(status)));
                }
                if self.signing_cert.is_some() {
                    match signature {
                        SignatureVerdict::Accepted => {},
                        SignatureVerdict::Rejected(cause) => {
                            return Err(MdqError::SignatureError(cause));
                        },
                    }
                }
                match parse_entity_xml(body.as_str()) {
                    Err(cause) => Err(MdqError::InvalidXml(cause)),
                    Ok(m) => {
                        if let Some(c) = &mut self.cache {
                            c.insert(entity_id, &m);
                        }
                        Ok(m)
                    },
                }
            },
        }
    }
}

} // verus!
