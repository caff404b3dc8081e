//! The check taxonomy and the checks tree.
//!
//! A [`Check`] is one conformance finding that the engine can report. Every
//! check belongs to exactly one [`CheckClass`] (its severity), given by the
//! total classification function [`classify`]. Checks are gathered into a
//! [`Checks`] tree whose nodes are labeled by the [`RdapStructure`] they
//! were found on; the tree mirrors the shape of the checked response.

use vstd::prelude::*;

use crate::response::{RdapResponse, ResponseKind};

pub mod string;
pub mod types;
pub mod objects;

verus! {

/// The classes (severities) of checks, in display and filtering order.
#[derive(Debug, Clone, Copy, PartialEq, Eq, PartialOrd, Ord, Structural)]
pub enum CheckClass {
    /// Informational items: expected, common situations worth flagging.
    Informational,
    /// Notes about the response with respect to the RDAP specifications.
    SpecificationNote,
    /// Warnings that may cause some clients to be unable to conduct
    /// some operations, per STD 95.
    StdWarning,
    /// Errors in the RDAP response with respect to STD 95.
    StdError,
    /// Errors with respect to the CIDR0 extension.
    Cidr0Error,
    /// Errors with respect to the ICANN gTLD RDAP profile.
    IcannError,
}

impl CheckClass {
    /// The short name of the class, as it appears in rendered findings.
    pub open spec fn spec_name(self) -> Seq<char> {
        match self {
            CheckClass::Informational => "Info"@,
            CheckClass::SpecificationNote => "SpecNote"@,
            CheckClass::StdWarning => "StdWarn"@,
            CheckClass::StdError => "StdErr"@,
            CheckClass::Cidr0Error => "Cidr0Err"@,
            CheckClass::IcannError => "IcannErr"@,
        }
    }

    /// The short name of the class, as it appears in rendered findings.
    pub fn name(&self) -> (r: &'static str)
        ensures
            r@ == self.spec_name(),
    {
        match self {
            CheckClass::Informational => "Info",
            CheckClass::SpecificationNote => "SpecNote",
            CheckClass::StdWarning => "StdWarn",
            CheckClass::StdError => "StdErr",
            CheckClass::Cidr0Error => "Cidr0Err",
            CheckClass::IcannError => "IcannErr",
        }
    }
}

/// The name of an RDAP structure on which a check can appear.
///
/// An RDAP data structure is not the same as a Rust struct: RDAP
/// structures may be arrays, or structured data within a string. The
/// label is used for path naming during traversal and for sub-tree
/// lookup; it does not drive any engine behavior.
#[derive(Debug, Clone, Copy, PartialEq, Eq, PartialOrd, Ord, Structural)]
pub enum RdapStructure {
    Autnum,
    Cidr0,
    Domain,
    DomainSearchResults,
    Entity,
    EntitySearchResults,
    Events,
    Error,
    Help,
    Handle,
    HttpData,
    IpNetwork,
    Link,
    Links,
    Nameserver,
    NameserverSearchResults,
    NoticeOrRemark,
    Notices,
    PublidIds,
    Port43,
    RdapConformance,
    Redacted,
    Remarks,
    SecureDns,
    Status,
}

impl RdapStructure {
    /// The label of this structure, as it appears in traversal paths.
    pub open spec fn spec_name(self) -> Seq<char> {
        match self {
            RdapStructure::Autnum => "autnum"@,
            RdapStructure::Cidr0 => "cidr0"@,
            RdapStructure::Domain => "domain"@,
            RdapStructure::DomainSearchResults => "domain_search_results"@,
            RdapStructure::Entity => "entity"@,
            RdapStructure::EntitySearchResults => "entity_search_results"@,
            RdapStructure::Events => "events"@,
            RdapStructure::Error => "error"@,
            RdapStructure::Help => "help"@,
            RdapStructure::Handle => "handle"@,
            RdapStructure::HttpData => "http_data"@,
            RdapStructure::IpNetwork => "ip_network"@,
            RdapStructure::Link => "link"@,
            RdapStructure::Links => "links"@,
            RdapStructure::Nameserver => "nameserver"@,
            RdapStructure::NameserverSearchResults => "nameserver_search_results"@,
            RdapStructure::NoticeOrRemark => "notice_or_remark"@,
            RdapStructure::Notices => "notices"@,
            RdapStructure::PublidIds => "publid_ids"@,
            RdapStructure::Port43 => "port43"@,
            RdapStructure::RdapConformance => "rdap_conformance"@,
            RdapStructure::Redacted => "redacted"@,
            RdapStructure::Remarks => "remarks"@,
            RdapStructure::SecureDns => "secure_dns"@,
            RdapStructure::Status => "status"@,
        }
    }

    /// The label of this structure, as it appears in traversal paths.
    pub fn name(&self) -> (r: &'static str)
        ensures
            r@ == self.spec_name(),
    {
        match self {
            RdapStructure::Autnum => "autnum",
            RdapStructure::Cidr0 => "cidr0",
            RdapStructure::Domain => "domain",
            RdapStructure::DomainSearchResults => "domain_search_results",
            RdapStructure::Entity => "entity",
            RdapStructure::EntitySearchResults => "entity_search_results",
            RdapStructure::Events => "events",
            RdapStructure::Error => "error",
            RdapStructure::Help => "help",
            RdapStructure::Handle => "handle",
            RdapStructure::HttpData => "http_data",
            RdapStructure::IpNetwork => "ip_network",
            RdapStructure::Link => "link",
            RdapStructure::Links => "links",
            RdapStructure::Nameserver => "nameserver",
            RdapStructure::NameserverSearchResults => "nameserver_search_results",
            RdapStructure::NoticeOrRemark => "notice_or_remark",
            RdapStructure::Notices => "notices",
            RdapStructure::PublidIds => "publid_ids",
            RdapStructure::Port43 => "port43",
            RdapStructure::RdapConformance => "rdap_conformance",
            RdapStructure::Redacted => "redacted",
            RdapStructure::Remarks => "remarks",
            RdapStructure::SecureDns => "secure_dns",
            RdapStructure::Status => "status",
        }
    }
}

/// The check variants.
///
/// Each check has a fixed numeric code (see [`Check::code`]) inside a
/// band reserved for its structural area, and a fixed severity class
/// (see [`classify`]). Codes and messages are a semi-public contract:
/// released identifiers keep their numbers; new checks take new numbers
/// within or beyond their band.
#[derive(Debug, Clone, Copy, PartialEq, Eq, PartialOrd, Ord, Structural)]
pub enum Check {
    // RDAP conformance: codes 100 and up.
    RdapConformanceMissing,
    RdapConformanceInvalidParent,
    UnknownExtention,
    // Links: codes 200 and up.
    LinkMissingValueProperty,
    LinkMissingRelProperty,
    LinkRelatedHasNoType,
    LinkRelatedIsNotRdap,
    LinkSelfHasNoType,
    LinkSelfIsNotRdap,
    LinkObjectClassHasNoSelf,
    LinkMissingHrefProperty,
    // Domain variants: codes 300 and up.
    VariantEmptyDomain,
    // Events: codes 400 and up.
    EventDateIsAbsent,
    EventDateIsNotRfc3339,
    EventActionIsAbsent,
    // Notices and remarks: codes 500 and up.
    NoticeOrRemarkDescriptionIsAbsent,
    NoticeOrRemarkDescriptionIsString,
    // Handles: codes 600 and up.
    HandleIsEmpty,
    HandleIsNotString,
    // Status: codes 700 and up.
    StatusIsEmpty,
    // Entity roles: codes 800 and up.
    RoleIsEmpty,
    UnknownRole,
    RoleIsString,
    // LDH names: codes 900 and up.
    LdhNameInvalid,
    LdhNameDocumentation,
    LdhNameDoesNotMatchUnicode,
    // Unicode names: codes 1000 and up.
    UnicodeNameInvalidDomain,
    UnicodeNameInvalidUnicode,
    // Network or autnum names: codes 1100 and up.
    NetworkOrAutnumNameIsEmpty,
    NetworkOrAutnumNameIsNotString,
    // Network or autnum types: codes 1200 and up.
    NetworkOrAutnumTypeIsEmpty,
    NetworkOrAutnumTypeIsNotString,
    // IP addresses: codes 1300 and up.
    IpAddressMissing,
    IpAddressMalformed,
    IpAddressEndBeforeStart,
    IpAddressVersionMismatch,
    IpAddressMalformedVersion,
    IpAddressListIsEmpty,
    IpAddressThisNetwork,
    IpAddressPrivateUse,
    IpAddressSharedNat,
    IpAddressLoopback,
    IpAddressLinkLocal,
    IpAddressUniqueLocal,
    IpAddressDocumentationNet,
    IpAddressReservedNet,
    IpAddressArrayIsString,
    IpVersionIsNotString,
    // Autonomous system numbers: codes 1400 and up.
    AutnumMissing,
    AutnumEndBeforeStart,
    AutnumPrivateUse,
    AutnumDocumentation,
    AutnumReserved,
    // vCards: codes 1500 and up.
    VcardArrayIsEmpty,
    VcardHasNoFn,
    VcardFnIsEmpty,
    // Port 43: codes 1600 and up.
    Port43IsEmpty,
    // Public IDs: codes 1700 and up.
    PublicIdTypeIsAbsent,
    PublicIdIdentifierIsAbsent,
    // HTTP transport data: codes 1800 and up.
    CorsAllowOriginRecommended,
    CorsAllowOriginStarRecommended,
    CorsAllowCredentialsNotRecommended,
    ContentTypeIsAbsent,
    ContentTypeIsNotRdap,
    // CIDR0 extension: codes 1900 and up.
    Cidr0V4PrefixIsAbsent,
    Cidr0V4LengthIsAbsent,
    Cidr0V6PrefixIsAbsent,
    Cidr0V6LengthIsAbsent,
    // ICANN gTLD profile: codes 2000 and up.
    MustUseHttps,
    AllowOriginNotStar,
    // Explicit network testing: codes 2100 and up.
    CnameWithoutARecords,
    CnameWithoutAAAARecords,
    NoARecords,
    NoAAAARecords,
    ExpectedExtensionNotFound,
    Ipv6SupportRequiredByIcann,
    // Secure DNS: codes 2200 and up.
    DelegationSignedIsString,
    ZoneSignedIsString,
    MaxSigLifeIsString,
    KeyDatumAlgorithmIsString,
    KeyDatumAlgorithmIsOutOfRange,
    KeyDatumFlagsIsString,
    KeyDatumFlagsIsOutOfRange,
    KeyDatumProtocolIsString,
    KeyDatumProtocolIsOutOfRange,
    DsDatumAlgorithmIsString,
    DsDatumAlgorithmIsOutOfRange,
    DsDatumKeyTagIsString,
    DsDatumKeyTagIsOutOfRange,
    DsDatumDigestTypeIsString,
    DsDatumDigestTypeIsOutOfRange,
}

/// The severity class of each check: a total function over the check set.
///
/// Every check resolves to exactly one class. Adding a check without
/// extending this match is a build-time error, which is the chief
/// correctness invariant of the taxonomy.
pub open spec fn classify(check: Check) -> CheckClass {
    match check {
        Check::RdapConformanceMissing | Check::RdapConformanceInvalidParent
            => CheckClass::StdError,
        Check::UnknownExtention => CheckClass::StdWarning,

        Check::LinkMissingValueProperty | Check::LinkMissingRelProperty
            => CheckClass::StdError,
        Check::LinkRelatedHasNoType
        | Check::LinkRelatedIsNotRdap
        | Check::LinkSelfHasNoType
        | Check::LinkSelfIsNotRdap => CheckClass::StdWarning,
        Check::LinkObjectClassHasNoSelf => CheckClass::SpecificationNote,
        Check::LinkMissingHrefProperty => CheckClass::StdError,

        Check::VariantEmptyDomain => CheckClass::StdWarning,

        Check::EventDateIsAbsent
        | Check::EventDateIsNotRfc3339
        | Check::EventActionIsAbsent
        | Check::NoticeOrRemarkDescriptionIsAbsent
        | Check::NoticeOrRemarkDescriptionIsString => CheckClass::StdError,

        Check::HandleIsEmpty => CheckClass::StdWarning,
        Check::HandleIsNotString => CheckClass::StdError,

        Check::StatusIsEmpty | Check::RoleIsEmpty => CheckClass::StdWarning,
        Check::UnknownRole => CheckClass::StdWarning,
        Check::RoleIsString | Check::LdhNameInvalid => CheckClass::StdError,
        Check::LdhNameDocumentation => CheckClass::Informational,
        Check::LdhNameDoesNotMatchUnicode => CheckClass::StdWarning,

        Check::UnicodeNameInvalidDomain | Check::UnicodeNameInvalidUnicode
            => CheckClass::StdError,

        Check::NetworkOrAutnumNameIsEmpty => CheckClass::StdWarning,
        Check::NetworkOrAutnumNameIsNotString => CheckClass::StdError,
        Check::NetworkOrAutnumTypeIsEmpty => CheckClass::StdWarning,
        Check::NetworkOrAutnumTypeIsNotString => CheckClass::StdError,

        Check::IpAddressMissing => CheckClass::StdWarning,
        Check::IpAddressMalformed => CheckClass::StdError,
        Check::IpAddressEndBeforeStart | Check::IpAddressVersionMismatch
            => CheckClass::StdWarning,
        Check::IpAddressMalformedVersion | Check::IpAddressListIsEmpty
            => CheckClass::StdError,
        Check::IpAddressThisNetwork
        | Check::IpAddressPrivateUse
        | Check::IpAddressSharedNat
        | Check::IpAddressLoopback
        | Check::IpAddressLinkLocal
        | Check::IpAddressUniqueLocal
        | Check::IpAddressDocumentationNet
        | Check::IpAddressReservedNet => CheckClass::Informational,
        Check::IpAddressArrayIsString => CheckClass::StdError,
        Check::IpVersionIsNotString => CheckClass::StdError,

        Check::AutnumMissing | Check::AutnumEndBeforeStart => CheckClass::StdWarning,
        Check::AutnumPrivateUse | Check::AutnumDocumentation | Check::AutnumReserved
            => CheckClass::Informational,

        Check::VcardArrayIsEmpty | Check::VcardHasNoFn => CheckClass::StdError,
        Check::VcardFnIsEmpty => CheckClass::SpecificationNote,

        Check::Port43IsEmpty
        | Check::PublicIdTypeIsAbsent
        | Check::PublicIdIdentifierIsAbsent => CheckClass::StdError,

        Check::CorsAllowOriginRecommended
        | Check::CorsAllowOriginStarRecommended
        | Check::CorsAllowCredentialsNotRecommended => CheckClass::StdWarning,
        Check::ContentTypeIsAbsent | Check::ContentTypeIsNotRdap => CheckClass::StdError,

        Check::Cidr0V4PrefixIsAbsent
        | Check::Cidr0V4LengthIsAbsent
        | Check::Cidr0V6PrefixIsAbsent
        | Check::Cidr0V6LengthIsAbsent => CheckClass::Cidr0Error,

        Check::MustUseHttps | Check::AllowOriginNotStar => CheckClass::IcannError,

        Check::CnameWithoutARecords | Check::CnameWithoutAAAARecords => CheckClass::StdError,
        Check::NoARecords | Check::NoAAAARecords => CheckClass::SpecificationNote,
        Check::ExpectedExtensionNotFound => CheckClass::StdError,
        Check::Ipv6SupportRequiredByIcann => CheckClass::IcannError,

        Check::DelegationSignedIsString
        | Check::ZoneSignedIsString
        | Check::MaxSigLifeIsString
        | Check::KeyDatumAlgorithmIsString
        | Check::KeyDatumAlgorithmIsOutOfRange
        | Check::KeyDatumFlagsIsString
        | Check::KeyDatumFlagsIsOutOfRange
        | Check::KeyDatumProtocolIsString
        | Check::KeyDatumProtocolIsOutOfRange
        | Check::DsDatumAlgorithmIsString
        | Check::DsDatumAlgorithmIsOutOfRange
        | Check::DsDatumKeyTagIsString
        | Check::DsDatumKeyTagIsOutOfRange
        | Check::DsDatumDigestTypeIsString
        | Check::DsDatumDigestTypeIsOutOfRange => CheckClass::StdError,
    }
}

/// A specific check finding: the check and its severity class.
///
/// The class is a denormalized copy of [`classify`] of the check, fixed
/// at construction. [`Check::check_item`] is the canonical constructor;
/// building items there and nowhere else keeps classification from
/// drifting at call sites. Ordering is by class, then by check.
#[derive(Debug, Clone, Copy, PartialEq, Eq, PartialOrd, Ord, Structural)]
pub struct CheckItem {
    pub check_class: CheckClass,
    pub check: Check,
}

impl Check {
    /// The canonical check item of this check, carrying its class.
    pub open spec fn spec_check_item(self) -> CheckItem {
        CheckItem { check_class: classify(self), check: self }
    }

    /// Builds the canonical [`CheckItem`] for this check: the sole
    /// constructor of check items, so the class always agrees with
    /// [`classify`].
    pub fn check_item(self) -> (r: CheckItem)
        ensures
            r == self.spec_check_item(),
    {
        let check_class = match self {
            Self::RdapConformanceMissing | Self::RdapConformanceInvalidParent => {
                CheckClass::StdError
            },
            Self::UnknownExtention => CheckClass::StdWarning,

            Self::LinkMissingValueProperty | Self::LinkMissingRelProperty => CheckClass::StdError,
            Self::LinkRelatedHasNoType
            | Self::LinkRelatedIsNotRdap
            | Self::LinkSelfHasNoType
            | Self::LinkSelfIsNotRdap => CheckClass::StdWarning,
            Self::LinkObjectClassHasNoSelf => CheckClass::SpecificationNote,
            Self::LinkMissingHrefProperty => CheckClass::StdError,

            Self::VariantEmptyDomain => CheckClass::StdWarning,

            Self::EventDateIsAbsent
            | Self::EventDateIsNotRfc3339
            | Self::EventActionIsAbsent
            | Self::NoticeOrRemarkDescriptionIsAbsent
            | Self::NoticeOrRemarkDescriptionIsString => CheckClass::StdError,

            Self::HandleIsEmpty => CheckClass::StdWarning,
            Self::HandleIsNotString => CheckClass::StdError,

            Self::StatusIsEmpty | Self::RoleIsEmpty => CheckClass::StdWarning,
            Self::UnknownRole => CheckClass::StdWarning,
            Self::RoleIsString | Self::LdhNameInvalid => CheckClass::StdError,
            Self::LdhNameDocumentation => CheckClass::Informational,
            Self::LdhNameDoesNotMatchUnicode => CheckClass::StdWarning,

            Self::UnicodeNameInvalidDomain | Self::UnicodeNameInvalidUnicode => {
                CheckClass::StdError
            },

            Self::NetworkOrAutnumNameIsEmpty => CheckClass::StdWarning,
            Self::NetworkOrAutnumNameIsNotString => CheckClass::StdError,
            Self::NetworkOrAutnumTypeIsEmpty => CheckClass::StdWarning,
            Self::NetworkOrAutnumTypeIsNotString => CheckClass::StdError,
            Self::IpAddressMissing => CheckClass::StdWarning,
            Self::IpAddressMalformed => CheckClass::StdError,
            Self::IpAddressEndBeforeStart | Self::IpAddressVersionMismatch => {
                CheckClass::StdWarning
            },
            Self::IpAddressMalformedVersion | Self::IpAddressListIsEmpty => CheckClass::StdError,
            Self::IpAddressThisNetwork
            | Self::IpAddressPrivateUse
            | Self::IpAddressSharedNat
            | Self::IpAddressLoopback
            | Self::IpAddressLinkLocal
            | Self::IpAddressUniqueLocal
            | Self::IpAddressDocumentationNet
            | Self::IpAddressReservedNet => CheckClass::Informational,
            Self::IpAddressArrayIsString => CheckClass::StdError,
            Self::IpVersionIsNotString => CheckClass::StdError,

            Self::AutnumMissing | Self::AutnumEndBeforeStart => CheckClass::StdWarning,
            Self::AutnumPrivateUse | Self::AutnumDocumentation | Self::AutnumReserved => {
                CheckClass::Informational
            },

            Self::VcardArrayIsEmpty | Self::VcardHasNoFn => CheckClass::StdError,
            Self::VcardFnIsEmpty => CheckClass::SpecificationNote,

            Self::Port43IsEmpty | Self::PublicIdTypeIsAbsent | Self::PublicIdIdentifierIsAbsent => {
                CheckClass::StdError
            },

            Self::CorsAllowOriginRecommended
            | Self::CorsAllowOriginStarRecommended
            | Self::CorsAllowCredentialsNotRecommended => CheckClass::StdWarning,
            Self::ContentTypeIsAbsent | Self::ContentTypeIsNotRdap => CheckClass::StdError,

            Self::Cidr0V4PrefixIsAbsent
            | Self::Cidr0V4LengthIsAbsent
            | Self::Cidr0V6PrefixIsAbsent
            | Self::Cidr0V6LengthIsAbsent => CheckClass::Cidr0Error,

            Self::MustUseHttps | Self::AllowOriginNotStar => CheckClass::IcannError,

            Self::CnameWithoutARecords | Self::CnameWithoutAAAARecords => CheckClass::StdError,
            Self::NoARecords | Self::NoAAAARecords => CheckClass::SpecificationNote,
            Self::ExpectedExtensionNotFound => CheckClass::StdError,
            Self::Ipv6SupportRequiredByIcann => CheckClass::IcannError,

            Self::DelegationSignedIsString
            | Self::ZoneSignedIsString
            | Self::MaxSigLifeIsString
            | Self::KeyDatumAlgorithmIsString
            | Self::KeyDatumAlgorithmIsOutOfRange
            | Self::KeyDatumFlagsIsString
            | Self::KeyDatumFlagsIsOutOfRange
            | Self::KeyDatumProtocolIsString
            | Self::KeyDatumProtocolIsOutOfRange
            | Self::DsDatumAlgorithmIsString
            | Self::DsDatumAlgorithmIsOutOfRange
            | Self::DsDatumKeyTagIsString
            | Self::DsDatumKeyTagIsOutOfRange
            | Self::DsDatumDigestTypeIsString
            | Self::DsDatumDigestTypeIsOutOfRange => CheckClass::StdError,
        };
        CheckItem { check_class, check: self }
    }
}


impl Check {
    /// The fixed numeric code of this check: a semi-public contract
    /// that stays stable once released.
    pub open spec fn spec_code(self) -> u32 {
        match self {
            Check::RdapConformanceMissing => 100,
            Check::RdapConformanceInvalidParent => 101,
            Check::UnknownExtention => 102,
            Check::LinkMissingValueProperty => 200,
            Check::LinkMissingRelProperty => 201,
            Check::LinkRelatedHasNoType => 202,
            Check::LinkRelatedIsNotRdap => 203,
            Check::LinkSelfHasNoType => 204,
            Check::LinkSelfIsNotRdap => 205,
            Check::LinkObjectClassHasNoSelf => 206,
            Check::LinkMissingHrefProperty => 207,
            Check::VariantEmptyDomain => 300,
            Check::EventDateIsAbsent => 400,
            Check::EventDateIsNotRfc3339 => 401,
            Check::EventActionIsAbsent => 402,
            Check::NoticeOrRemarkDescriptionIsAbsent => 500,
            Check::NoticeOrRemarkDescriptionIsString => 501,
            Check::HandleIsEmpty => 600,
            Check::HandleIsNotString => 601,
            Check::StatusIsEmpty => 700,
            Check::RoleIsEmpty => 800,
            Check::UnknownRole => 801,
            Check::RoleIsString => 802,
            Check::LdhNameInvalid => 900,
            Check::LdhNameDocumentation => 901,
            Check::LdhNameDoesNotMatchUnicode => 902,
            Check::UnicodeNameInvalidDomain => 1000,
            Check::UnicodeNameInvalidUnicode => 1001,
            Check::NetworkOrAutnumNameIsEmpty => 1100,
            Check::NetworkOrAutnumNameIsNotString => 1101,
            Check::NetworkOrAutnumTypeIsEmpty => 1200,
            Check::NetworkOrAutnumTypeIsNotString => 1201,
            Check::IpAddressMissing => 1300,
            Check::IpAddressMalformed => 1301,
            Check::IpAddressEndBeforeStart => 1302,
            Check::IpAddressVersionMismatch => 1303,
            Check::IpAddressMalformedVersion => 1304,
            Check::IpAddressListIsEmpty => 1305,
            Check::IpAddressThisNetwork => 1306,
            Check::IpAddressPrivateUse => 1307,
            Check::IpAddressSharedNat => 1308,
            Check::IpAddressLoopback => 1309,
            Check::IpAddressLinkLocal => 1310,
            Check::IpAddressUniqueLocal => 1311,
            Check::IpAddressDocumentationNet => 1312,
            Check::IpAddressReservedNet => 1313,
            Check::IpAddressArrayIsString => 1314,
            Check::IpVersionIsNotString => 1315,
            Check::AutnumMissing => 1400,
            Check::AutnumEndBeforeStart => 1401,
            Check::AutnumPrivateUse => 1402,
            Check::AutnumDocumentation => 1403,
            Check::AutnumReserved => 1404,
            Check::VcardArrayIsEmpty => 1500,
            Check::VcardHasNoFn => 1501,
            Check::VcardFnIsEmpty => 1502,
            Check::Port43IsEmpty => 1600,
            Check::PublicIdTypeIsAbsent => 1700,
            Check::PublicIdIdentifierIsAbsent => 1701,
            Check::CorsAllowOriginRecommended => 1800,
            Check::CorsAllowOriginStarRecommended => 1801,
            Check::CorsAllowCredentialsNotRecommended => 1802,
            Check::ContentTypeIsAbsent => 1803,
            Check::ContentTypeIsNotRdap => 1804,
            Check::Cidr0V4PrefixIsAbsent => 1900,
            Check::Cidr0V4LengthIsAbsent => 1901,
            Check::Cidr0V6PrefixIsAbsent => 1902,
            Check::Cidr0V6LengthIsAbsent => 1903,
            Check::MustUseHttps => 2000,
            Check::AllowOriginNotStar => 2001,
            Check::CnameWithoutARecords => 2100,
            Check::CnameWithoutAAAARecords => 2101,
            Check::NoARecords => 2102,
            Check::NoAAAARecords => 2103,
            Check::ExpectedExtensionNotFound => 2104,
            Check::Ipv6SupportRequiredByIcann => 2105,
            Check::DelegationSignedIsString => 2200,
            Check::ZoneSignedIsString => 2201,
            Check::MaxSigLifeIsString => 2202,
            Check::KeyDatumAlgorithmIsString => 2203,
            Check::KeyDatumAlgorithmIsOutOfRange => 2204,
            Check::KeyDatumFlagsIsString => 2205,
            Check::KeyDatumFlagsIsOutOfRange => 2206,
            Check::KeyDatumProtocolIsString => 2207,
            Check::KeyDatumProtocolIsOutOfRange => 2208,
            Check::DsDatumAlgorithmIsString => 2213,
            Check::DsDatumAlgorithmIsOutOfRange => 2214,
            Check::DsDatumKeyTagIsString => 2215,
            Check::DsDatumKeyTagIsOutOfRange => 2216,
            Check::DsDatumDigestTypeIsString => 2217,
            Check::DsDatumDigestTypeIsOutOfRange => 2218,
        }
    }

    /// The numeric code of this check.
    pub fn code(&self) -> (r: u32)
        ensures
            r == self.spec_code(),
    {
        match self {
            Check::RdapConformanceMissing => 100,
            Check::RdapConformanceInvalidParent => 101,
            Check::UnknownExtention => 102,
            Check::LinkMissingValueProperty => 200,
            Check::LinkMissingRelProperty => 201,
            Check::LinkRelatedHasNoType => 202,
            Check::LinkRelatedIsNotRdap => 203,
            Check::LinkSelfHasNoType => 204,
            Check::LinkSelfIsNotRdap => 205,
            Check::LinkObjectClassHasNoSelf => 206,
            Check::LinkMissingHrefProperty => 207,
            Check::VariantEmptyDomain => 300,
            Check::EventDateIsAbsent => 400,
            Check::EventDateIsNotRfc3339 => 401,
            Check::EventActionIsAbsent => 402,
            Check::NoticeOrRemarkDescriptionIsAbsent => 500,
            Check::NoticeOrRemarkDescriptionIsString => 501,
            Check::HandleIsEmpty => 600,
            Check::HandleIsNotString => 601,
            Check::StatusIsEmpty => 700,
            Check::RoleIsEmpty => 800,
            Check::UnknownRole => 801,
            Check::RoleIsString => 802,
            Check::LdhNameInvalid => 900,
            Check::LdhNameDocumentation => 901,
            Check::LdhNameDoesNotMatchUnicode => 902,
            Check::UnicodeNameInvalidDomain => 1000,
            Check::UnicodeNameInvalidUnicode => 1001,
            Check::NetworkOrAutnumNameIsEmpty => 1100,
            Check::NetworkOrAutnumNameIsNotString => 1101,
            Check::NetworkOrAutnumTypeIsEmpty => 1200,
            Check::NetworkOrAutnumTypeIsNotString => 1201,
            Check::IpAddressMissing => 1300,
            Check::IpAddressMalformed => 1301,
            Check::IpAddressEndBeforeStart => 1302,
            Check::IpAddressVersionMismatch => 1303,
            Check::IpAddressMalformedVersion => 1304,
            Check::IpAddressListIsEmpty => 1305,
            Check::IpAddressThisNetwork => 1306,
            Check::IpAddressPrivateUse => 1307,
            Check::IpAddressSharedNat => 1308,
            Check::IpAddressLoopback => 1309,
            Check::IpAddressLinkLocal => 1310,
            Check::IpAddressUniqueLocal => 1311,
            Check::IpAddressDocumentationNet => 1312,
            Check::IpAddressReservedNet => 1313,
            Check::IpAddressArrayIsString => 1314,
            Check::IpVersionIsNotString => 1315,
            Check::AutnumMissing => 1400,
            Check::AutnumEndBeforeStart => 1401,
            Check::AutnumPrivateUse => 1402,
            Check::AutnumDocumentation => 1403,
            Check::AutnumReserved => 1404,
            Check::VcardArrayIsEmpty => 1500,
            Check::VcardHasNoFn => 1501,
            Check::VcardFnIsEmpty => 1502,
            Check::Port43IsEmpty => 1600,
            Check::PublicIdTypeIsAbsent => 1700,
            Check::PublicIdIdentifierIsAbsent => 1701,
            Check::CorsAllowOriginRecommended => 1800,
            Check::CorsAllowOriginStarRecommended => 1801,
            Check::CorsAllowCredentialsNotRecommended => 1802,
            Check::ContentTypeIsAbsent => 1803,
            Check::ContentTypeIsNotRdap => 1804,
            Check::Cidr0V4PrefixIsAbsent => 1900,
            Check::Cidr0V4LengthIsAbsent => 1901,
            Check::Cidr0V6PrefixIsAbsent => 1902,
            Check::Cidr0V6LengthIsAbsent => 1903,
            Check::MustUseHttps => 2000,
            Check::AllowOriginNotStar => 2001,
            Check::CnameWithoutARecords => 2100,
            Check::CnameWithoutAAAARecords => 2101,
            Check::NoARecords => 2102,
            Check::NoAAAARecords => 2103,
            Check::ExpectedExtensionNotFound => 2104,
            Check::Ipv6SupportRequiredByIcann => 2105,
            Check::DelegationSignedIsString => 2200,
            Check::ZoneSignedIsString => 2201,
            Check::MaxSigLifeIsString => 2202,
            Check::KeyDatumAlgorithmIsString => 2203,
            Check::KeyDatumAlgorithmIsOutOfRange => 2204,
            Check::KeyDatumFlagsIsString => 2205,
            Check::KeyDatumFlagsIsOutOfRange => 2206,
            Check::KeyDatumProtocolIsString => 2207,
            Check::KeyDatumProtocolIsOutOfRange => 2208,
            Check::DsDatumAlgorithmIsString => 2213,
            Check::DsDatumAlgorithmIsOutOfRange => 2214,
            Check::DsDatumKeyTagIsString => 2215,
            Check::DsDatumKeyTagIsOutOfRange => 2216,
            Check::DsDatumDigestTypeIsString => 2217,
            Check::DsDatumDigestTypeIsOutOfRange => 2218,
        }
    }

    /// The fixed descriptive message of this check: a semi-public
    /// contract that stays stable once released.
    pub open spec fn spec_message(self) -> Seq<char> {
        match self {
            Check::RdapConformanceMissing => "RFC 9083 requires 'rdapConformance' on the root object."@,
            Check::RdapConformanceInvalidParent => "'rdapConformance' can only appear at the top of response."@,
            Check::UnknownExtention => "declared extension may not be registered."@,
            Check::LinkMissingValueProperty => "'value' property not found in Link structure as required by RFC 9083"@,
            Check::LinkMissingRelProperty => "'rel' property not found in Link structure as required by RFC 9083"@,
            Check::LinkRelatedHasNoType => "ambiguous follow because related link has no 'type' property"@,
            Check::LinkRelatedIsNotRdap => "ambiguous follow because related link does not have RDAP media type"@,
            Check::LinkSelfHasNoType => "self link has no 'type' property"@,
            Check::LinkSelfIsNotRdap => "self link does not have RDAP media type"@,
            Check::LinkObjectClassHasNoSelf => "RFC 9083 recommends self links for all object classes"@,
            Check::LinkMissingHrefProperty => "'href' property not found in Link structure as required by RFC 9083"@,
            Check::VariantEmptyDomain => "empty domain variant is ambiguous"@,
            Check::EventDateIsAbsent => "event date is absent"@,
            Check::EventDateIsNotRfc3339 => "event date is not RFC 3339 compliant"@,
            Check::EventActionIsAbsent => "event action is absent"@,
            Check::NoticeOrRemarkDescriptionIsAbsent => "RFC 9083 requires a description in a notice or remark"@,
            Check::NoticeOrRemarkDescriptionIsString => "RFC 9083 requires a description to be an array of strings"@,
            Check::HandleIsEmpty => "handle appears to be empty or only whitespace"@,
            Check::HandleIsNotString => "handle is not a string"@,
            Check::StatusIsEmpty => "status appears to be empty or only whitespace"@,
            Check::RoleIsEmpty => "role appears to be empty or only whitespace"@,
            Check::UnknownRole => "entity role may not be registered"@,
            Check::RoleIsString => "role is a string, not array of strings"@,
            Check::LdhNameInvalid => "ldhName does not appear to be an LDH name"@,
            Check::LdhNameDocumentation => "Documentation domain name. See RFC 6761"@,
            Check::LdhNameDoesNotMatchUnicode => "Unicode name does not match LDH"@,
            Check::UnicodeNameInvalidDomain => "unicodeName does not appear to be a domain name"@,
            Check::UnicodeNameInvalidUnicode => "unicodeName does not appear to be valid Unicode"@,
            Check::NetworkOrAutnumNameIsEmpty => "name appears to be empty or only whitespace"@,
            Check::NetworkOrAutnumNameIsNotString => "name is not a string"@,
            Check::NetworkOrAutnumTypeIsEmpty => "type appears to be empty or only whitespace"@,
            Check::NetworkOrAutnumTypeIsNotString => "type is not a string"@,
            Check::IpAddressMissing => "start or end IP address is missing"@,
            Check::IpAddressMalformed => "IP address is malformed"@,
            Check::IpAddressEndBeforeStart => "end IP address comes before start IP address"@,
            Check::IpAddressVersionMismatch => "IP version does not match IP address"@,
            Check::IpAddressMalformedVersion => "IP version is malformed"@,
            Check::IpAddressListIsEmpty => "IP address list is empty"@,
            Check::IpAddressThisNetwork => "\"This network.\" See RFC 791"@,
            Check::IpAddressPrivateUse => "Private use. See RFC 1918"@,
            Check::IpAddressSharedNat => "Shared NAT network. See RFC 6598"@,
            Check::IpAddressLoopback => "Loopback network. See RFC 1122"@,
            Check::IpAddressLinkLocal => "Link local network. See RFC 3927"@,
            Check::IpAddressUniqueLocal => "Unique local network. See RFC 8190"@,
            Check::IpAddressDocumentationNet => "Documentation network. See RFC 5737"@,
            Check::IpAddressReservedNet => "Reserved network. See RFC 1112"@,
            Check::IpAddressArrayIsString => "IP address array is a string."@,
            Check::IpVersionIsNotString => "IP version is not a string"@,
            Check::AutnumMissing => "start or end autnum is missing"@,
            Check::AutnumEndBeforeStart => "end AS number comes before start AS number"@,
            Check::AutnumPrivateUse => "Private use. See RFC 6996"@,
            Check::AutnumDocumentation => "Documentation AS number. See RFC 5398"@,
            Check::AutnumReserved => "Reserved AS number. See RFC 6996"@,
            Check::VcardArrayIsEmpty => "vCard array does not contain a vCard"@,
            Check::VcardHasNoFn => "vCard has no fn property"@,
            Check::VcardFnIsEmpty => "vCard fn property is empty"@,
            Check::Port43IsEmpty => "port43 appears to be empty or only whitespace"@,
            Check::PublicIdTypeIsAbsent => "publicId type is absent"@,
            Check::PublicIdIdentifierIsAbsent => "publicId identifier is absent"@,
            Check::CorsAllowOriginRecommended => "Use of access-control-allow-origin is recommended."@,
            Check::CorsAllowOriginStarRecommended => "Use of access-control-allow-origin with asterisk is recommended."@,
            Check::CorsAllowCredentialsNotRecommended => "Use of access-control-allow-credentials is not recommended."@,
            Check::ContentTypeIsAbsent => "No content-type header received."@,
            Check::ContentTypeIsNotRdap => "Content-type is not application/rdap+json."@,
            Check::Cidr0V4PrefixIsAbsent => "Cidr0 v4 prefix is absent"@,
            Check::Cidr0V4LengthIsAbsent => "Cidr0 v4 length is absent"@,
            Check::Cidr0V6PrefixIsAbsent => "Cidr0 v6 prefix is absent"@,
            Check::Cidr0V6LengthIsAbsent => "Cidr0 v6 length is absent"@,
            Check::MustUseHttps => "RDAP Service Must use HTTPS."@,
            Check::AllowOriginNotStar => "access-control-allow-origin is not asterisk"@,
            Check::CnameWithoutARecords => "CNAME without A records."@,
            Check::CnameWithoutAAAARecords => "CNAME without AAAA records."@,
            Check::NoARecords => "No A records."@,
            Check::NoAAAARecords => "No AAAA records."@,
            Check::ExpectedExtensionNotFound => "Expected extension not found."@,
            Check::Ipv6SupportRequiredByIcann => "IPv6 Support Required."@,
            Check::DelegationSignedIsString => "delegationSigned is a string not a bool."@,
            Check::ZoneSignedIsString => "zoneSigned is a string not a bool."@,
            Check::MaxSigLifeIsString => "maxSigLife is a string not a number."@,
            Check::KeyDatumAlgorithmIsString => "keyData algorithm is a string not a number."@,
            Check::KeyDatumAlgorithmIsOutOfRange => "keyData algorithm is out of range."@,
            Check::KeyDatumFlagsIsString => "keyData flags is a string not a number."@,
            Check::KeyDatumFlagsIsOutOfRange => "keyData flags is out of range."@,
            Check::KeyDatumProtocolIsString => "keyData protocol is a string not a number."@,
            Check::KeyDatumProtocolIsOutOfRange => "keyData protocol is out of range."@,
            Check::DsDatumAlgorithmIsString => "dsData algorithm is a string not a number."@,
            Check::DsDatumAlgorithmIsOutOfRange => "dsData algorithm is out of range."@,
            Check::DsDatumKeyTagIsString => "dsData keyTag is a string not a number."@,
            Check::DsDatumKeyTagIsOutOfRange => "dsData keyTag is out of range."@,
            Check::DsDatumDigestTypeIsString => "dsData digestType is a string not a number."@,
            Check::DsDatumDigestTypeIsOutOfRange => "dsData digestType is out of range."@,
        }
    }

    /// The descriptive message of this check.
    pub fn message(&self) -> (r: &'static str)
        ensures
            r@ == self.spec_message(),
    {
        match self {
            Check::RdapConformanceMissing => "RFC 9083 requires 'rdapConformance' on the root object.",
            Check::RdapConformanceInvalidParent => "'rdapConformance' can only appear at the top of response.",
            Check::UnknownExtention => "declared extension may not be registered.",
            Check::LinkMissingValueProperty => "'value' property not found in Link structure as required by RFC 9083",
            Check::LinkMissingRelProperty => "'rel' property not found in Link structure as required by RFC 9083",
            Check::LinkRelatedHasNoType => "ambiguous follow because related link has no 'type' property",
            Check::LinkRelatedIsNotRdap => "ambiguous follow because related link does not have RDAP media type",
            Check::LinkSelfHasNoType => "self link has no 'type' property",
            Check::LinkSelfIsNotRdap => "self link does not have RDAP media type",
            Check::LinkObjectClassHasNoSelf => "RFC 9083 recommends self links for all object classes",
            Check::LinkMissingHrefProperty => "'href' property not found in Link structure as required by RFC 9083",
            Check::VariantEmptyDomain => "empty domain variant is ambiguous",
            Check::EventDateIsAbsent => "event date is absent",
            Check::EventDateIsNotRfc3339 => "event date is not RFC 3339 compliant",
            Check::EventActionIsAbsent => "event action is absent",
            Check::NoticeOrRemarkDescriptionIsAbsent => "RFC 9083 requires a description in a notice or remark",
            Check::NoticeOrRemarkDescriptionIsString => "RFC 9083 requires a description to be an array of strings",
            Check::HandleIsEmpty => "handle appears to be empty or only whitespace",
            Check::HandleIsNotString => "handle is not a string",
            Check::StatusIsEmpty => "status appears to be empty or only whitespace",
            Check::RoleIsEmpty => "role appears to be empty or only whitespace",
            Check::UnknownRole => "entity role may not be registered",
            Check::RoleIsString => "role is a string, not array of strings",
            Check::LdhNameInvalid => "ldhName does not appear to be an LDH name",
            Check::LdhNameDocumentation => "Documentation domain name. See RFC 6761",
            Check::LdhNameDoesNotMatchUnicode => "Unicode name does not match LDH",
            Check::UnicodeNameInvalidDomain => "unicodeName does not appear to be a domain name",
            Check::UnicodeNameInvalidUnicode => "unicodeName does not appear to be valid Unicode",
            Check::NetworkOrAutnumNameIsEmpty => "name appears to be empty or only whitespace",
            Check::NetworkOrAutnumNameIsNotString => "name is not a string",
            Check::NetworkOrAutnumTypeIsEmpty => "type appears to be empty or only whitespace",
            Check::NetworkOrAutnumTypeIsNotString => "type is not a string",
            Check::IpAddressMissing => "start or end IP address is missing",
            Check::IpAddressMalformed => "IP address is malformed",
            Check::IpAddressEndBeforeStart => "end IP address comes before start IP address",
            Check::IpAddressVersionMismatch => "IP version does not match IP address",
            Check::IpAddressMalformedVersion => "IP version is malformed",
            Check::IpAddressListIsEmpty => "IP address list is empty",
            Check::IpAddressThisNetwork => "\"This network.\" See RFC 791",
            Check::IpAddressPrivateUse => "Private use. See RFC 1918",
            Check::IpAddressSharedNat => "Shared NAT network. See RFC 6598",
            Check::IpAddressLoopback => "Loopback network. See RFC 1122",
            Check::IpAddressLinkLocal => "Link local network. See RFC 3927",
            Check::IpAddressUniqueLocal => "Unique local network. See RFC 8190",
            Check::IpAddressDocumentationNet => "Documentation network. See RFC 5737",
            Check::IpAddressReservedNet => "Reserved network. See RFC 1112",
            Check::IpAddressArrayIsString => "IP address array is a string.",
            Check::IpVersionIsNotString => "IP version is not a string",
            Check::AutnumMissing => "start or end autnum is missing",
            Check::AutnumEndBeforeStart => "end AS number comes before start AS number",
            Check::AutnumPrivateUse => "Private use. See RFC 6996",
            Check::AutnumDocumentation => "Documentation AS number. See RFC 5398",
            Check::AutnumReserved => "Reserved AS number. See RFC 6996",
            Check::VcardArrayIsEmpty => "vCard array does not contain a vCard",
            Check::VcardHasNoFn => "vCard has no fn property",
            Check::VcardFnIsEmpty => "vCard fn property is empty",
            Check::Port43IsEmpty => "port43 appears to be empty or only whitespace",
            Check::PublicIdTypeIsAbsent => "publicId type is absent",
            Check::PublicIdIdentifierIsAbsent => "publicId identifier is absent",
            Check::CorsAllowOriginRecommended => "Use of access-control-allow-origin is recommended.",
            Check::CorsAllowOriginStarRecommended => "Use of access-control-allow-origin with asterisk is recommended.",
            Check::CorsAllowCredentialsNotRecommended => "Use of access-control-allow-credentials is not recommended.",
            Check::ContentTypeIsAbsent => "No content-type header received.",
            Check::ContentTypeIsNotRdap => "Content-type is not application/rdap+json.",
            Check::Cidr0V4PrefixIsAbsent => "Cidr0 v4 prefix is absent",
            Check::Cidr0V4LengthIsAbsent => "Cidr0 v4 length is absent",
            Check::Cidr0V6PrefixIsAbsent => "Cidr0 v6 prefix is absent",
            Check::Cidr0V6LengthIsAbsent => "Cidr0 v6 length is absent",
            Check::MustUseHttps => "RDAP Service Must use HTTPS.",
            Check::AllowOriginNotStar => "access-control-allow-origin is not asterisk",
            Check::CnameWithoutARecords => "CNAME without A records.",
            Check::CnameWithoutAAAARecords => "CNAME without AAAA records.",
            Check::NoARecords => "No A records.",
            Check::NoAAAARecords => "No AAAA records.",
            Check::ExpectedExtensionNotFound => "Expected extension not found.",
            Check::Ipv6SupportRequiredByIcann => "IPv6 Support Required.",
            Check::DelegationSignedIsString => "delegationSigned is a string not a bool.",
            Check::ZoneSignedIsString => "zoneSigned is a string not a bool.",
            Check::MaxSigLifeIsString => "maxSigLife is a string not a number.",
            Check::KeyDatumAlgorithmIsString => "keyData algorithm is a string not a number.",
            Check::KeyDatumAlgorithmIsOutOfRange => "keyData algorithm is out of range.",
            Check::KeyDatumFlagsIsString => "keyData flags is a string not a number.",
            Check::KeyDatumFlagsIsOutOfRange => "keyData flags is out of range.",
            Check::KeyDatumProtocolIsString => "keyData protocol is a string not a number.",
            Check::KeyDatumProtocolIsOutOfRange => "keyData protocol is out of range.",
            Check::DsDatumAlgorithmIsString => "dsData algorithm is a string not a number.",
            Check::DsDatumAlgorithmIsOutOfRange => "dsData algorithm is out of range.",
            Check::DsDatumKeyTagIsString => "dsData keyTag is a string not a number.",
            Check::DsDatumKeyTagIsOutOfRange => "dsData keyTag is out of range.",
            Check::DsDatumDigestTypeIsString => "dsData digestType is a string not a number.",
            Check::DsDatumDigestTypeIsOutOfRange => "dsData digestType is out of range.",
        }
    }
}

/// The character of one decimal digit.
pub open spec fn spec_digit_char(d: int) -> char {
    ((48 + d) as u8) as char
}

/// A check code as four zero-padded decimal digits.
pub open spec fn spec_code_digits(c: u32) -> Seq<char> {
    seq![
        spec_digit_char(c as int / 1000 % 10),
        spec_digit_char(c as int / 100 % 10),
        spec_digit_char(c as int / 10 % 10),
        spec_digit_char(c as int % 10),
    ]
}

/// The text of one decimal digit.
fn digit_str(d: u32) -> (r: &'static str)
    requires
        d < 10,
    ensures
        r@ == seq![spec_digit_char(d as int)],
{
    proof {
        reveal_strlit("0");
        reveal_strlit("1");
        reveal_strlit("2");
        reveal_strlit("3");
        reveal_strlit("4");
        reveal_strlit("5");
        reveal_strlit("6");
        reveal_strlit("7");
        reveal_strlit("8");
        reveal_strlit("9");
    }
    match d {
        0 => "0",
        1 => "1",
        2 => "2",
        3 => "3",
        4 => "4",
        5 => "5",
        6 => "6",
        7 => "7",
        8 => "8",
        _ => "9",
    }
}

impl CheckItem {
    /// The rendered text of the item: the class's short name, the
    /// zero-padded four-digit code in parentheses, and the message.
    pub open spec fn spec_text(self) -> Seq<char> {
        self.check_class.spec_name() + ":("@ + spec_code_digits(self.check.spec_code()) + ") "@
            + self.check.spec_message()
    }

    /// Renders the item as text, as a finding is displayed.
    pub fn to_text(&self) -> (r: String)
        ensures
            r@ == self.spec_text(),
    {
        let mut s: String = self.check_class.name().to_owned();
        s.append(":(");
        let code = self.check.code();
        s.append(digit_str(code / 1000 % 10));
        s.append(digit_str(code / 100 % 10));
        s.append(digit_str(code / 10 % 10));
        s.append(digit_str(code % 10));
        s.append(") ");
        s.append(self.check.message());
        proof {
            assert(s@ =~= self.spec_text());
        }
        s
    }
}

/// Every check item built by [`Check::check_item`] carries the check it
/// was built from, and the class that [`classify`] assigns to that
/// check: the classification is total and cannot drift at call sites.
pub proof fn lemma_check_item_classifies(c: Check)
    ensures
        c.spec_check_item().check == c,
        c.spec_check_item().check_class == classify(c),
{
}

/// The mathematical shape of a [`Checks`] tree.
#[verifier::ext_equal]
pub ghost struct SpecChecks {
    pub rdap_struct: RdapStructure,
    pub items: Seq<CheckItem>,
    pub sub_checks: Seq<SpecChecks>,
}

/// A node of the checks tree: the structure the node corresponds to, the
/// findings on that structure, and one child per recursively checked
/// sub-structure. Each node exclusively owns its subtree: the tree
/// mirrors the response, which has no shared substructures.
#[derive(Debug, PartialEq, Eq)]
pub struct Checks {
    pub rdap_struct: RdapStructure,
    pub items: Vec<CheckItem>,
    pub sub_checks: Vec<Checks>,
}

/// The shape of a checks tree.
pub open spec fn checks_view(c: Checks) -> SpecChecks
    decreases c,
{
    SpecChecks {
        rdap_struct: c.rdap_struct,
        items: c.items@,
        sub_checks: checks_seq_view(c.sub_checks@),
    }
}

/// The shapes of a sequence of checks trees.
pub open spec fn checks_seq_view(s: Seq<Checks>) -> Seq<SpecChecks>
    decreases s,
{
    if s.len() == 0 {
        Seq::empty()
    } else {
        checks_seq_view(s.drop_last()).push(checks_view(s.last()))
    }
}

/// The view of a concatenation is the concatenation of the views.
pub proof fn lemma_checks_seq_view_concat(a: Seq<Checks>, b: Seq<Checks>)
    ensures
        checks_seq_view(a + b) =~= checks_seq_view(a) + checks_seq_view(b),
    decreases b,
{
    if b.len() == 0 {
        assert(a + b =~= a);
    } else {
        lemma_checks_seq_view_concat(a, b.drop_last());
        assert((a + b).drop_last() =~= a + b.drop_last());
        assert((a + b).last() == b.last());
    }
}

/// The view of a push is a push of the view.
pub proof fn lemma_checks_seq_view_push(s: Seq<Checks>, c: Checks)
    ensures
        checks_seq_view(s.push(c)) =~= checks_seq_view(s).push(checks_view(c)),
{
    assert(s.push(c).drop_last() =~= s);
    assert(s.push(c).last() == c);
}

/// The view of a sequence of trees has one entry per tree, in order.
pub proof fn lemma_checks_seq_view(s: Seq<Checks>)
    ensures
        checks_seq_view(s).len() == s.len(),
        forall|i: int| 0 <= i < s.len() ==> checks_seq_view(s)[i] == checks_view(s[i]),
    decreases s,
{
    if s.len() > 0 {
        lemma_checks_seq_view(s.drop_last());
    }
}

impl View for Checks {
    type V = SpecChecks;

    open spec fn view(&self) -> SpecChecks {
        checks_view(*self)
    }
}

/// The index of the first tree in `s` labeled `rdap_struct`, if any.
pub open spec fn spec_first_sub(s: Seq<Checks>, rdap_struct: RdapStructure) -> Option<int> {
    if exists|i: int| 0 <= i < s.len() && s[i].rdap_struct == rdap_struct {
        Some(choose|i: int|
            0 <= i < s.len() && s[i].rdap_struct == rdap_struct && forall|j: int|
                0 <= j < i ==> s[j].rdap_struct != rdap_struct)
    } else {
        None
    }
}

impl Checks {
    /// First-match lookup of an immediate child by structural label:
    /// returns the first sub-tree labeled `rdap_struct`, or `None` when
    /// this node has no such child.
    pub fn sub(&self, rdap_struct: RdapStructure) -> (r: Option<&Checks>)
        ensures
            match r {
                Some(c) => {
                    &&& spec_first_sub(self.sub_checks@, rdap_struct) matches Some(i)
                    &&& 0 <= i < self.sub_checks@.len()
                    &&& *c == self.sub_checks@[i]
                    &&& c.rdap_struct == rdap_struct
                },
                None => forall|i: int|
                    0 <= i < self.sub_checks@.len()
                        ==> self.sub_checks@[i].rdap_struct != rdap_struct,
            },
    {
        let n = self.sub_checks.len();
        let mut k: usize = 0;
        while k < n
            invariant
                n == self.sub_checks@.len(),
                k <= n,
                forall|j: int| 0 <= j < k ==> self.sub_checks@[j].rdap_struct != rdap_struct,
            decreases n - k,
        {
            if self.sub_checks[k].rdap_struct == rdap_struct {
                proof {
                    let i = k as int;
                    assert(0 <= i < self.sub_checks@.len()
                        && self.sub_checks@[i].rdap_struct == rdap_struct);
                    let w = choose|w: int|
                        0 <= w < self.sub_checks@.len()
                            && self.sub_checks@[w].rdap_struct == rdap_struct && forall|j: int|
                            0 <= j < w ==> self.sub_checks@[j].rdap_struct != rdap_struct;
                    assert(w == i);
                }
                return Some(&self.sub_checks[k]);
            }
            k += 1;
        }
        None
    }
}

/// True when `check` appears verbatim in the node's own item list (the
/// lookup is not recursive).
pub open spec fn spec_is_checked_item(check: Check, checks: Checks) -> bool {
    exists|i: int| 0 <= i < checks.items@.len() && checks.items@[i].check == check
}

/// Returns true if the check is in the node's own list of check items.
pub fn is_checked_item(check: Check, checks: &Checks) -> (r: bool)
    ensures
        r == spec_is_checked_item(check, *checks),
{
    let n = checks.items.len();
    let mut k: usize = 0;
    while k < n
        invariant
            n == checks.items@.len(),
            k <= n,
            forall|j: int| 0 <= j < k ==> checks.items@[j].check != check,
        decreases n - k,
    {
        if checks.items[k].check == check {
            return true;
        }
        k += 1;
    }
    false
}

/// Returns true if the check is in the item list of one of the given
/// trees: the form used for a list of independent top-level trees.
pub fn is_checked(check: Check, checks: &[Checks]) -> (r: bool)
    ensures
        r == exists|i: int| 0 <= i < checks@.len() && spec_is_checked_item(check, checks@[i]),
{
    let n = checks.len();
    let mut k: usize = 0;
    while k < n
        invariant
            n == checks@.len(),
            k <= n,
            forall|j: int| 0 <= j < k ==> !spec_is_checked_item(check, checks@[j]),
        decreases n - k,
    {
        if is_checked_item(check, &checks[k]) {
            return true;
        }
        k += 1;
    }
    false
}

/// The context of one check pass, as the contracts see it.
#[verifier::ext_equal]
pub ghost struct SpecParams {
    pub do_subchecks: bool,
    pub root_kind: ResponseKind,
    pub root_exts: Option<Seq<Seq<char>>>,
    pub parent_type: ResponseKind,
    pub at_root: bool,
    pub allow_unreg_ext: bool,
}

/// Parameters for finding checks, threaded through the whole recursion
/// of one check pass.
#[derive(Clone, Copy)]
pub struct CheckParams<'a> {
    /// Whether to recurse into sub-structures at all; `false` gives only
    /// the top-level validation.
    pub do_subchecks: bool,
    /// The whole response under check; some rules need global context,
    /// such as the extensions the root declares.
    pub root: &'a RdapResponse,
    /// The kind of the object class whose structures are being checked.
    pub parent_type: ResponseKind,
    /// Whether the structures under check belong to the root itself:
    /// true for the top call, false once the recursion has descended
    /// into a nested object. A kind comparison would not do, since a
    /// nested object can have the root's own kind (an entity within an
    /// entity response).
    pub at_root: bool,
    /// Whether extension identifiers outside the IANA registry pass
    /// without a finding.
    pub allow_unreg_ext: bool,
}

impl<'a> View for CheckParams<'a> {
    type V = SpecParams;

    open spec fn view(&self) -> SpecParams {
        SpecParams {
            do_subchecks: self.do_subchecks,
            root_kind: self.root.spec_kind(),
            root_exts: self.root.spec_conformance(),
            parent_type: self.parent_type,
            at_root: self.at_root,
            allow_unreg_ext: self.allow_unreg_ext,
        }
    }
}

impl SpecParams {
    /// The same context with the parent type replaced and the root left
    /// behind: the recursion has descended into a nested object.
    pub open spec fn spec_from_parent(self, parent_type: ResponseKind) -> SpecParams {
        SpecParams { parent_type, at_root: false, ..self }
    }

    /// Whether the structures under check belong to the root itself.
    pub open spec fn is_root(self) -> bool {
        self.at_root
    }
}

impl<'a> CheckParams<'a> {
    /// The same parameters with the parent type replaced: used when the
    /// recursion descends into a nested object, which is never the root.
    pub fn from_parent(&self, parent_type: ResponseKind) -> (r: Self)
        ensures
            r@ == self@.spec_from_parent(parent_type),
            r.root == self.root,
    {
        Self {
            do_subchecks: self.do_subchecks,
            root: self.root,
            parent_type,
            at_root: false,
            allow_unreg_ext: self.allow_unreg_ext,
        }
    }

    /// The parameters of a full check pass over `rdap`: sub-checks on,
    /// unregistered extensions flagged, and the response as its own
    /// parent, standing at the root.
    pub fn for_rdap(rdap: &RdapResponse) -> (r: CheckParams<'_>)
        ensures
            r@ == (SpecParams {
                do_subchecks: true,
                root_kind: rdap.spec_kind(),
                root_exts: rdap.spec_conformance(),
                parent_type: rdap.spec_kind(),
                at_root: true,
                allow_unreg_ext: false,
            }),
            r.root == rdap,
    {
        CheckParams {
            do_subchecks: true,
            root: rdap,
            parent_type: rdap.kind(),
            at_root: true,
            allow_unreg_ext: false,
        }
    }
}

/// Trait for a response shape whose checks the engine can gather.
pub trait GetChecks {
    /// The checks tree this value yields under the given context.
    spec fn spec_checks(&self, params: SpecParams) -> SpecChecks;

    /// Gathers the checks of this value: a pure function of the value
    /// and the parameters.
    fn get_checks(&self, params: CheckParams) -> (r: Checks)
        ensures
            r@ == self.spec_checks(params@),
    ;
}

/// Trait for structures below the object classes, whose checks stand in
/// zero or more trees of their own.
pub trait GetSubChecks {
    /// The check trees this structure yields under the given context.
    spec fn spec_sub_checks(&self, params: SpecParams) -> Seq<SpecChecks>;

    /// Gathers the check trees of this structure: a pure function of the
    /// structure and the parameters.
    fn get_sub_checks(&self, params: CheckParams) -> (r: Vec<Checks>)
        ensures
            checks_seq_view(r@) == self.spec_sub_checks(params@),
    ;
}

/// The traversal path of a node: its label appended to the parent path.
pub open spec fn spec_child_path(parent: Seq<char>, rdap_struct: RdapStructure) -> Seq<char> {
    parent + "/"@ + rdap_struct.spec_name()
}

/// The path a `None` parent stands for: the fixed sentinel of the root.
pub open spec fn spec_parent_path(parent: Option<String>) -> Seq<char> {
    match parent {
        Some(p) => p@,
        None => "[ROOT]"@,
    }
}

/// The visits a filtered traversal makes on one node's own items: one
/// visit per item whose class is in `classes`, in declaration order,
/// each under the node's path.
pub open spec fn spec_matched_items(
    items: Seq<CheckItem>,
    classes: Seq<CheckClass>,
    path: Seq<char>,
) -> Seq<(Seq<char>, CheckItem)>
    decreases items,
{
    if items.len() == 0 {
        Seq::empty()
    } else {
        spec_matched_items(items.drop_last(), classes, path) + (
        if classes.contains(items.last().check_class) {
            seq![(path, items.last())]
        } else {
            Seq::empty()
        })
    }
}

/// The visits of a filtered depth-first traversal below `parent`: the
/// node's own matched items first, then the visits of each child in
/// order, under the node's path.
pub open spec fn spec_traverse(
    c: SpecChecks,
    classes: Seq<CheckClass>,
    parent: Seq<char>,
) -> Seq<(Seq<char>, CheckItem)>
    decreases c,
{
    spec_matched_items(c.items, classes, spec_child_path(parent, c.rdap_struct))
        + spec_traverse_seq(c.sub_checks, classes, spec_child_path(parent, c.rdap_struct))
}

/// The concatenated visits of a sequence of trees, in order.
pub open spec fn spec_traverse_seq(
    s: Seq<SpecChecks>,
    classes: Seq<CheckClass>,
    parent: Seq<char>,
) -> Seq<(Seq<char>, CheckItem)>
    decreases s,
{
    if s.len() == 0 {
        Seq::empty()
    } else {
        spec_traverse_seq(s.drop_last(), classes, parent) + spec_traverse(
            s.last(),
            classes,
            parent,
        )
    }
}

/// The views of the visits an exec traversal returns.
pub open spec fn spec_visits_view(v: Seq<(String, CheckItem)>) -> Seq<(Seq<char>, CheckItem)> {
    v.map_values(|p: (String, CheckItem)| (p.0@, p.1))
}

/// True when no item anywhere in the tree has a class among `classes`.
pub open spec fn spec_no_matching_item(c: SpecChecks, classes: Seq<CheckClass>) -> bool
    decreases c,
{
    (forall|i: int| 0 <= i < c.items.len() ==> !classes.contains(#[trigger] c.items[i].check_class))
        && (forall|i: int|
        0 <= i < c.sub_checks.len() ==> spec_no_matching_item(
            #[trigger] c.sub_checks[i],
            classes,
        ))
}

/// A node's own matched items are none when no item's class is in the
/// filter.
proof fn lemma_matched_items_empty(items: Seq<CheckItem>, classes: Seq<CheckClass>, path: Seq<char>)
    requires
        forall|i: int| 0 <= i < items.len() ==> !classes.contains(#[trigger] items[i].check_class),
    ensures
        spec_matched_items(items, classes, path).len() == 0,
    decreases items,
{
    if items.len() > 0 {
        lemma_matched_items_empty(items.drop_last(), classes, path);
    }
}

/// Class filtering is exact: a traversal whose filter matches no item's
/// class anywhere in the tree visits nothing and finds nothing.
pub proof fn lemma_traverse_filter_exact(c: SpecChecks, classes: Seq<CheckClass>, parent: Seq<char>)
    requires
        spec_no_matching_item(c, classes),
    ensures
        spec_traverse(c, classes, parent).len() == 0,
    decreases c,
{
    lemma_matched_items_empty(c.items, classes, spec_child_path(parent, c.rdap_struct));
    lemma_traverse_seq_filter_exact(c.sub_checks, classes, spec_child_path(parent, c.rdap_struct));
}

/// The visits of a list of trees are none when the filter matches no
/// item's class in any of them.
proof fn lemma_traverse_seq_filter_exact(
    s: Seq<SpecChecks>,
    classes: Seq<CheckClass>,
    parent: Seq<char>,
)
    requires
        forall|i: int|
            0 <= i < s.len() ==> spec_no_matching_item(#[trigger] s[i], classes),
    ensures
        spec_traverse_seq(s, classes, parent).len() == 0,
    decreases s,
{
    if s.len() > 0 {
        lemma_traverse_seq_filter_exact(s.drop_last(), classes, parent);
        lemma_traverse_filter_exact(s.last(), classes, parent);
    }
}

/// Returns true if `c` is among the given classes.
fn class_in(classes: &[CheckClass], c: CheckClass) -> (r: bool)
    ensures
        r == classes@.contains(c),
{
    let n = classes.len();
    let mut k: usize = 0;
    while k < n
        invariant
            n == classes@.len(),
            k <= n,
            forall|j: int| 0 <= j < k ==> classes@[j] != c,
        decreases n - k,
    {
        if classes[k] == c {
            return true;
        }
        k += 1;
    }
    false
}

/// Depth-first traversal of a checks tree, filtered by class.
///
/// At each node the traversal extends the parent path (a `None` parent
/// stands for the root sentinel) with the node's label, takes every item
/// whose class is among `classes`, then walks the children in order.
/// It returns whether any item anywhere in the subtree matched, and the
/// matched items with their paths, in visiting order.
pub fn traverse_checks(
    checks: &Checks,
    classes: &[CheckClass],
    parent_tree: Option<String>,
) -> (r: (bool, Vec<(String, CheckItem)>))
    ensures
        spec_visits_view(r.1@) == spec_traverse(checks@, classes@, spec_parent_path(parent_tree)),
        r.0 == (spec_traverse(checks@, classes@, spec_parent_path(parent_tree)).len() > 0),
    decreases *checks,
{
    let mut struct_tree: String = match parent_tree {
        None => "[ROOT]".to_owned(),
        Some(p) => p,
    };
    struct_tree.append("/");
    struct_tree.append(checks.rdap_struct.name());
    let ghost path = struct_tree@;

    let mut visits: Vec<(String, CheckItem)> = Vec::new();

    let n = checks.items.len();
    let mut k: usize = 0;
    while k < n
        invariant
            n == checks.items@.len(),
            k <= n,
            struct_tree@ == path,
            spec_visits_view(visits@) =~= spec_matched_items(
                checks.items@.take(k as int),
                classes@,
                path,
            ),
        decreases n - k,
    {
        if class_in(classes, checks.items[k].check_class) {
            visits.push((struct_tree.clone(), checks.items[k]));
        }
        k += 1;
        proof {
            assert(checks.items@.take(k as int).drop_last() =~= checks.items@.take(k as int - 1));
            assert(checks.items@.take(k as int).last() == checks.items@[k as int - 1]);
        }
    }
    proof {
        assert(checks.items@.take(n as int) =~= checks.items@);
    }

    let m = checks.sub_checks.len();
    let mut j: usize = 0;
    while j < m
        invariant
            m == checks.sub_checks@.len(),
            j <= m,
            struct_tree@ == path,
            spec_visits_view(visits@) =~= spec_matched_items(checks.items@, classes@, path)
                + spec_traverse_seq(
                checks_seq_view(checks.sub_checks@.take(j as int)),
                classes@,
                path,
            ),
        decreases m - j,
    {
        proof {
            assert(decreases_to!(*checks => checks.sub_checks@[j as int]));
        }
        let (_, mut sub_visits) = traverse_checks(
            &checks.sub_checks[j],
            classes,
            Some(struct_tree.clone()),
        );
        let ghost pre = visits@;
        let ghost psub = sub_visits@;
        visits.append(&mut sub_visits);
        j += 1;
        proof {
            let taken = checks.sub_checks@.take(j as int);
            lemma_checks_seq_view(taken);
            lemma_checks_seq_view(checks.sub_checks@.take(j as int - 1));
            assert(checks_seq_view(taken).drop_last() =~= checks_seq_view(
                checks.sub_checks@.take(j as int - 1),
            ));
            assert(checks_seq_view(taken).last() == checks_view(checks.sub_checks@[j as int - 1]));
            assert(visits@ == pre + psub);
            assert(spec_visits_view(pre + psub) =~= spec_visits_view(pre) + spec_visits_view(psub));
        }
    }
    proof {
        assert(checks.sub_checks@.take(m as int) =~= checks.sub_checks@);
    }

    let found = visits.len() > 0;
    proof {
        assert(spec_visits_view(visits@).len() == visits@.len());
    }
    (found, visits)
}

} // verus!
