//! Identifier URLs of federated objects.
//!
//! Every actor, activity and content object carries a globally unique
//! identifier URL. The pipeline's policy checks only ever read two things
//! from such a URL: the whole identifier (for equality and replay
//! detection) and its host (for the domain containment rules), so an
//! identifier is kept as those two strings.

use vstd::prelude::*;

verus! {

/// The identifier URL of a federated object: the full URL together with
/// the host that the URL names.
pub struct ObjectId {
    /// The identifier exactly as it appeared on the wire.
    pub full: String,
    /// The host of `full`.
    pub domain: String,
}

impl Clone for ObjectId {
    fn clone(&self) -> (r: Self)
        ensures
            r == *self,
    {
        ObjectId { full: self.full.clone(), domain: self.domain.clone() }
    }
}

impl ObjectId {
    /// Two identifiers denote the same object exactly when the full URLs
    /// are equal character for character.
    pub fn same_id(&self, other: &ObjectId) -> (r: bool)
        ensures
            r == (self.full@ == other.full@),
    {
        self.full == other.full
    }

    /// True when both identifiers name the same host.
    pub fn same_domain(&self, other: &ObjectId) -> (r: bool)
        ensures
            r == (self.domain@ == other.domain@),
    {
        self.domain == other.domain
    }
}

/// The host that `url::Url::parse` extracts from a URL string, or `None`
/// when the string is not an absolute URL with a host.
pub uninterp spec fn url_host_of(s: Seq<char>) -> Option<Seq<char>>;

/// Relies on url::Url::parse and url::Url::host_str: both depend on the
/// input string alone, and `host_str` returns the host component of what
/// was parsed.
#[verifier::external_body]
fn parse_url_host(s: &str) -> (r: Option<String>)
    ensures
        r is Some <==> url_host_of(s@) is Some,
        r is Some ==> r.unwrap()@ == url_host_of(s@).unwrap(),
{
    match url::Url::parse(s) {
        Ok(u) => u.host_str().map(|h| h.to_string()),
        Err(_) => None,
    }
}

/// Parses an identifier URL. Returns `None` when the string is not an
/// absolute URL naming a host.
pub fn object_id_from_str(s: &str) -> (r: Option<ObjectId>)
    ensures
        r is Some <==> url_host_of(s@) is Some,
        r is Some ==> r.unwrap().full@ == s@ && r.unwrap().domain@ == url_host_of(s@).unwrap(),
{
    match parse_url_host(s) {
        Some(host) => Some(ObjectId { full: s.to_owned(), domain: host }),
        None => None,
    }
}

} // verus!

verus! {

/// The actor resolver's anti-spoofing rule: a fetched document is
/// accepted only when its self-reported identifier is exactly the URL
/// it was requested under, so a redirect cannot smuggle in another
/// actor's record.
pub fn fetched_document_matches(requested: &ObjectId, document_id: &ObjectId) -> (r: bool)
    ensures
        r == (requested.full@ == document_id.full@),
{
    requested.same_id(document_id)
}

} // verus!
