//! The RDAP response model that the check engine walks.
//!
//! A response is a closed union of the ten top-level RDAP answer shapes.
//! The model is deliberately lenient: fields whose JSON encoding is often
//! wrong in the wild are held as small unions ([`Stringish`], [`Boolish`],
//! [`Numberish`], [`VectorStringish`]) so that a malformed field is still
//! representable and can be reported as a finding rather than a failure.
//! Instances are built by the deserialization layer outside this crate;
//! the engine only reads them.

use vstd::prelude::*;

pub mod search;

verus! {

/// A JSON value that ought to be a string.
#[derive(Debug, Clone)]
pub enum Stringish {
    /// The value was a string.
    Text(String),
    /// The value had some other JSON type.
    NotText,
}

/// A JSON value that ought to be a boolean.
#[derive(Debug, Clone)]
pub enum Boolish {
    /// The value was a boolean.
    Bool(bool),
    /// The value was a string.
    Text(String),
}

/// A JSON value that ought to be an unsigned number.
#[derive(Debug, Clone)]
pub enum Numberish {
    /// The value was a number.
    Num(u64),
    /// The value was a string.
    Text(String),
}

/// A JSON value that ought to be an array of strings, but is sometimes
/// served as a bare string.
#[derive(Debug, Clone)]
pub enum VectorStringish {
    /// The value was an array of strings.
    Many(Vec<String>),
    /// The value was a single bare string.
    One(String),
}

/// A link structure of RFC 9083.
#[derive(Debug, Clone)]
pub struct Link {
    pub value: Option<String>,
    pub rel: Option<String>,
    pub href: Option<String>,
    pub title: Option<String>,
    /// The `type` property: the media type of the link target.
    pub media_type: Option<String>,
}

/// An event structure of RFC 9083.
#[derive(Debug, Clone)]
pub struct Event {
    pub event_action: Option<String>,
    pub event_date: Option<String>,
}

/// A notice or remark of RFC 9083.
#[derive(Debug, Clone)]
pub struct NoticeOrRemark {
    pub title: Option<String>,
    pub description: Option<VectorStringish>,
    pub links: Option<Vec<Link>>,
}

/// A public ID structure of RFC 9083.
#[derive(Debug, Clone)]
pub struct PublicId {
    /// The `type` property of the public ID.
    pub id_type: Option<String>,
    pub identifier: Option<String>,
}

/// The fields shared by every top-level response: the conformance
/// declaration and the notices. RFC 9083 allows them only at the top.
#[derive(Debug, Clone)]
pub struct Common {
    pub rdap_conformance: Option<Vec<String>>,
    pub notices: Option<Vec<NoticeOrRemark>>,
}

/// The fields shared by every object class.
#[derive(Debug)]
pub struct ObjectCommon {
    pub handle: Option<Stringish>,
    pub status: Option<VectorStringish>,
    pub links: Option<Vec<Link>>,
    pub events: Option<Vec<Event>>,
    pub remarks: Option<Vec<NoticeOrRemark>>,
    pub port_43: Option<String>,
    /// The nested entities; empty when the response carries none.
    pub entities: Vec<Entity>,
}

/// One property of a jCard: its name and its text values.
#[derive(Debug, Clone)]
pub struct VcardProperty {
    pub name: String,
    pub values: Vec<String>,
}

/// An entity object class: a contact with roles and public IDs.
#[derive(Debug)]
pub struct Entity {
    pub common: Common,
    pub object_common: ObjectCommon,
    /// The jCard of the entity: the properties of the single vCard, or
    /// `None` when the response carries no vCard array at all.
    pub vcard_array: Option<Vec<VcardProperty>>,
    pub roles: Option<VectorStringish>,
    pub public_ids: Option<Vec<PublicId>>,
}

/// A domain name variant of RFC 9083.
#[derive(Debug, Clone)]
pub struct Variant {
    pub relations: Option<Vec<String>>,
    pub idn_table: Option<String>,
    pub variant_names: Option<Vec<Stringish>>,
}

/// DNSSEC key data of a domain's secure DNS block.
#[derive(Debug, Clone)]
pub struct KeyDatum {
    pub flags: Option<Numberish>,
    pub protocol: Option<Numberish>,
    pub public_key: Option<String>,
    pub algorithm: Option<Numberish>,
}

/// DNSSEC delegation signer data of a domain's secure DNS block.
#[derive(Debug, Clone)]
pub struct DsDatum {
    pub key_tag: Option<Numberish>,
    pub algorithm: Option<Numberish>,
    pub digest: Option<String>,
    pub digest_type: Option<Numberish>,
}

/// The secure DNS block of a domain object.
#[derive(Debug, Clone)]
pub struct SecureDns {
    pub zone_signed: Option<Boolish>,
    pub delegation_signed: Option<Boolish>,
    pub max_sig_life: Option<Numberish>,
    pub key_data: Option<Vec<KeyDatum>>,
    pub ds_data: Option<Vec<DsDatum>>,
}

/// A domain object class.
#[derive(Debug)]
pub struct Domain {
    pub common: Common,
    pub object_common: ObjectCommon,
    pub ldh_name: Option<Stringish>,
    pub unicode_name: Option<Stringish>,
    pub variants: Option<Vec<Variant>>,
    pub secure_dns: Option<SecureDns>,
    pub public_ids: Option<Vec<PublicId>>,
    pub nameservers: Option<Vec<Nameserver>>,
    pub network: Option<Network>,
}

/// The IP addresses of a nameserver.
#[derive(Debug, Clone)]
pub struct IpAddresses {
    pub v4: Option<VectorStringish>,
    pub v6: Option<VectorStringish>,
}

/// A nameserver object class.
#[derive(Debug)]
pub struct Nameserver {
    pub common: Common,
    pub object_common: ObjectCommon,
    pub ldh_name: Option<Stringish>,
    pub unicode_name: Option<Stringish>,
    pub ip_addresses: Option<IpAddresses>,
}

/// An autonomous system number object class.
#[derive(Debug)]
pub struct Autnum {
    pub common: Common,
    pub object_common: ObjectCommon,
    pub start_autnum: Option<Numberish>,
    pub end_autnum: Option<Numberish>,
    pub name: Option<Stringish>,
    pub autnum_type: Option<Stringish>,
}

/// One CIDR0 extension entry of an IP network object.
#[derive(Debug, Clone)]
pub enum Cidr0Cidr {
    /// An IPv4 prefix and length.
    V4Cidr { prefix: Option<String>, length: Option<u8> },
    /// An IPv6 prefix and length.
    V6Cidr { prefix: Option<String>, length: Option<u8> },
}

/// An IP network object class.
#[derive(Debug)]
pub struct Network {
    pub common: Common,
    pub object_common: ObjectCommon,
    pub start_address: Option<Stringish>,
    pub end_address: Option<Stringish>,
    pub ip_version: Option<Stringish>,
    pub name: Option<Stringish>,
    pub network_type: Option<Stringish>,
    pub cidr0_cidrs: Option<Vec<Cidr0Cidr>>,
}

/// An RFC 9083 error response.
#[derive(Debug)]
pub struct Rfc9083Error {
    pub common: Common,
    pub error_code: Option<u32>,
    pub title: Option<String>,
    pub description: Option<Vec<String>>,
}

/// A help response: only the common fields.
#[derive(Debug)]
pub struct Help {
    pub common: Common,
}

/// The discriminant of a response shape, used as the parent-type context
/// while checks recurse into nested objects.
#[derive(Debug, Clone, Copy, PartialEq, Eq, Structural)]
pub enum ResponseKind {
    Entity,
    Domain,
    Nameserver,
    Autnum,
    Network,
    DomainSearchResults,
    EntitySearchResults,
    NameserverSearchResults,
    ErrorResponse,
    Help,
}

/// The closed union of the ten top-level RDAP response shapes.
#[derive(Debug)]
pub enum RdapResponse {
    Entity(Box<Entity>),
    Domain(Box<Domain>),
    Nameserver(Box<Nameserver>),
    Autnum(Box<Autnum>),
    Network(Box<Network>),
    DomainSearchResults(Box<search::DomainSearchResults>),
    EntitySearchResults(Box<search::EntitySearchResults>),
    NameserverSearchResults(Box<search::NameserverSearchResults>),
    ErrorResponse(Box<Rfc9083Error>),
    Help(Box<Help>),
}

impl Common {
    /// Builds the common block of a constructed response: the base
    /// conformance identifier, then the given extension identifiers,
    /// and no notices.
    pub fn level0_with_extensions(extensions: Vec<String>) -> (r: Common)
        ensures
            r.rdap_conformance matches Some(c) && c.deep_view() == seq!["rdap_level_0"@]
                + extensions.deep_view(),
            r.notices is None,
    {
        let mut conformance: Vec<String> = Vec::new();
        conformance.push("rdap_level_0".to_owned());
        let ghost exts = extensions.deep_view();
        let mut rest = extensions;
        conformance.append(&mut rest);
        proof {
            assert forall|i: int|
                0 <= i < conformance.deep_view().len() implies conformance.deep_view()[i]
                == (seq!["rdap_level_0"@] + exts)[i] by {
                assert(conformance.deep_view()[i] == conformance@[i]@);
                if i > 0 {
                    assert(exts[i - 1] == conformance@[i]@);
                }
            }
            assert(conformance.deep_view() =~= seq!["rdap_level_0"@] + exts);
        }
        Common { rdap_conformance: Some(conformance), notices: None }
    }
}

/// The extension identifiers of a common block, as character sequences.
pub open spec fn spec_common_conformance(c: Common) -> Option<Seq<Seq<char>>> {
    match c.rdap_conformance {
        Some(v) => Some(v.deep_view()),
        None => None,
    }
}

/// True when the identifier is in the IANA RDAP extensions registry
/// (the base conformance identifier included).
pub open spec fn spec_registered_extension(s: Seq<char>) -> bool {
    ||| s == "rdap_level_0"@
    ||| s == "arin_originas0"@
    ||| s == "artRecord"@
    ||| s == "cidr0"@
    ||| s == "farv1"@
    ||| s == "fred"@
    ||| s == "icann_rdap_response_profile_0"@
    ||| s == "icann_rdap_response_profile_1"@
    ||| s == "icann_rdap_technical_implementation_guide_0"@
    ||| s == "icann_rdap_technical_implementation_guide_1"@
    ||| s == "nro_rdap_profile_0"@
    ||| s == "nro_rdap_profile_asn_flat_0"@
    ||| s == "nro_rdap_profile_asn_hierarchical_0"@
    ||| s == "paging"@
    ||| s == "platformNS"@
    ||| s == "rdap_objectTag"@
    ||| s == "redacted"@
    ||| s == "redirect_with_content"@
    ||| s == "regType"@
    ||| s == "reverse_search"@
    ||| s == "sorting"@
    ||| s == "subsetting"@
}

/// Returns true if the identifier is a registered IANA RDAP extension.
pub fn is_registered_extension(s: &str) -> (r: bool)
    ensures
        r == spec_registered_extension(s@),
{
    crate::check::string::str_eq(s, "rdap_level_0") || crate::check::string::str_eq(
        s,
        "arin_originas0",
    ) || crate::check::string::str_eq(s, "artRecord") || crate::check::string::str_eq(s, "cidr0")
        || crate::check::string::str_eq(s, "farv1") || crate::check::string::str_eq(s, "fred")
        || crate::check::string::str_eq(s, "icann_rdap_response_profile_0")
        || crate::check::string::str_eq(s, "icann_rdap_response_profile_1")
        || crate::check::string::str_eq(s, "icann_rdap_technical_implementation_guide_0")
        || crate::check::string::str_eq(s, "icann_rdap_technical_implementation_guide_1")
        || crate::check::string::str_eq(s, "nro_rdap_profile_0") || crate::check::string::str_eq(
        s,
        "nro_rdap_profile_asn_flat_0",
    ) || crate::check::string::str_eq(s, "nro_rdap_profile_asn_hierarchical_0")
        || crate::check::string::str_eq(s, "paging") || crate::check::string::str_eq(
        s,
        "platformNS",
    ) || crate::check::string::str_eq(s, "rdap_objectTag") || crate::check::string::str_eq(
        s,
        "redacted",
    ) || crate::check::string::str_eq(s, "redirect_with_content") || crate::check::string::str_eq(
        s,
        "regType",
    ) || crate::check::string::str_eq(s, "reverse_search") || crate::check::string::str_eq(
        s,
        "sorting",
    ) || crate::check::string::str_eq(s, "subsetting")
}

/// True when the value is an entity role of the RFC 9083 vocabulary.
pub open spec fn spec_registered_role(s: Seq<char>) -> bool {
    ||| s == "registrant"@
    ||| s == "technical"@
    ||| s == "administrative"@
    ||| s == "abuse"@
    ||| s == "billing"@
    ||| s == "registrar"@
    ||| s == "reseller"@
    ||| s == "sponsor"@
    ||| s == "proxy"@
    ||| s == "notifications"@
    ||| s == "noc"@
}

/// Returns true if the value is a registered entity role.
pub fn is_registered_role(s: &str) -> (r: bool)
    ensures
        r == spec_registered_role(s@),
{
    crate::check::string::str_eq(s, "registrant") || crate::check::string::str_eq(s, "technical")
        || crate::check::string::str_eq(s, "administrative") || crate::check::string::str_eq(
        s,
        "abuse",
    ) || crate::check::string::str_eq(s, "billing") || crate::check::string::str_eq(s, "registrar")
        || crate::check::string::str_eq(s, "reseller") || crate::check::string::str_eq(s, "sponsor")
        || crate::check::string::str_eq(s, "proxy") || crate::check::string::str_eq(
        s,
        "notifications",
    ) || crate::check::string::str_eq(s, "noc")
}

impl RdapResponse {
    /// The common fields of the response, whichever shape it has.
    pub open spec fn spec_common(self) -> Common {
        match self {
            RdapResponse::Entity(e) => e.common,
            RdapResponse::Domain(d) => d.common,
            RdapResponse::Nameserver(n) => n.common,
            RdapResponse::Autnum(a) => a.common,
            RdapResponse::Network(n) => n.common,
            RdapResponse::DomainSearchResults(r) => r.common,
            RdapResponse::EntitySearchResults(r) => r.common,
            RdapResponse::NameserverSearchResults(r) => r.common,
            RdapResponse::ErrorResponse(e) => e.common,
            RdapResponse::Help(h) => h.common,
        }
    }

    /// The extension identifiers the response declares at its top.
    pub open spec fn spec_conformance(self) -> Option<Seq<Seq<char>>> {
        spec_common_conformance(self.spec_common())
    }

    /// The common fields of the response.
    pub fn common(&self) -> (r: &Common)
        ensures
            *r == self.spec_common(),
    {
        match self {
            RdapResponse::Entity(e) => &e.common,
            RdapResponse::Domain(d) => &d.common,
            RdapResponse::Nameserver(n) => &n.common,
            RdapResponse::Autnum(a) => &a.common,
            RdapResponse::Network(n) => &n.common,
            RdapResponse::DomainSearchResults(r) => &r.common,
            RdapResponse::EntitySearchResults(r) => &r.common,
            RdapResponse::NameserverSearchResults(r) => &r.common,
            RdapResponse::ErrorResponse(e) => &e.common,
            RdapResponse::Help(h) => &h.common,
        }
    }

    /// The discriminant of this response.
    pub open spec fn spec_kind(self) -> ResponseKind {
        match self {
            RdapResponse::Entity(_) => ResponseKind::Entity,
            RdapResponse::Domain(_) => ResponseKind::Domain,
            RdapResponse::Nameserver(_) => ResponseKind::Nameserver,
            RdapResponse::Autnum(_) => ResponseKind::Autnum,
            RdapResponse::Network(_) => ResponseKind::Network,
            RdapResponse::DomainSearchResults(_) => ResponseKind::DomainSearchResults,
            RdapResponse::EntitySearchResults(_) => ResponseKind::EntitySearchResults,
            RdapResponse::NameserverSearchResults(_) => ResponseKind::NameserverSearchResults,
            RdapResponse::ErrorResponse(_) => ResponseKind::ErrorResponse,
            RdapResponse::Help(_) => ResponseKind::Help,
        }
    }

    /// The discriminant of this response.
    pub fn kind(&self) -> (r: ResponseKind)
        ensures
            r == self.spec_kind(),
    {
        match self {
            RdapResponse::Entity(_) => ResponseKind::Entity,
            RdapResponse::Domain(_) => ResponseKind::Domain,
            RdapResponse::Nameserver(_) => ResponseKind::Nameserver,
            RdapResponse::Autnum(_) => ResponseKind::Autnum,
            RdapResponse::Network(_) => ResponseKind::Network,
            RdapResponse::DomainSearchResults(_) => ResponseKind::DomainSearchResults,
            RdapResponse::EntitySearchResults(_) => ResponseKind::EntitySearchResults,
            RdapResponse::NameserverSearchResults(_) => ResponseKind::NameserverSearchResults,
            RdapResponse::ErrorResponse(_) => ResponseKind::ErrorResponse,
            RdapResponse::Help(_) => ResponseKind::Help,
        }
    }
}

} // verus!
