//! Tests of the check engine over the response model.

use rdap_checks::addr::{autnum_special, parse_ipv4, parse_u32, v4_special};
use rdap_checks::check::types::{links_checks, secure_dns_checks};
use rdap_checks::check::{
    is_checked_item, traverse_checks, Check, CheckClass, CheckParams, Checks, GetChecks,
    GetSubChecks, RdapStructure,
};
use rdap_checks::datetime::is_rfc3339;
use rdap_checks::dirs::{bootstrap_cache_path, config_path, rdap_cache_path};
use rdap_checks::httpdata::HttpData;
use rdap_checks::names::{is_documentation_name, is_ldh_name};
use rdap_checks::response::{
    Boolish, Common, Domain, Entity, Link, Network, Numberish, ObjectCommon, RdapResponse,
    SecureDns, Stringish,
};

fn empty_common() -> Common {
    Common { rdap_conformance: None, notices: None }
}

fn conformant_common() -> Common {
    Common { rdap_conformance: Some(vec!["rdap_level_0".to_string()]), notices: None }
}

fn empty_oc() -> ObjectCommon {
    ObjectCommon {
        handle: None,
        status: None,
        links: None,
        events: None,
        remarks: None,
        port_43: None,
        entities: vec![],
    }
}

fn network_with(start: &str, end: &str, version: &str) -> RdapResponse {
    RdapResponse::Network(Box::new(Network {
        common: conformant_common(),
        object_common: empty_oc(),
        start_address: Some(Stringish::Text(start.to_string())),
        end_address: Some(Stringish::Text(end.to_string())),
        ip_version: Some(Stringish::Text(version.to_string())),
        name: None,
        network_type: None,
        cidr0_cidrs: None,
    }))
}

fn all_classes() -> Vec<CheckClass> {
    vec![
        CheckClass::Informational,
        CheckClass::SpecificationNote,
        CheckClass::StdWarning,
        CheckClass::StdError,
        CheckClass::Cidr0Error,
        CheckClass::IcannError,
    ]
}

fn visited_checks(tree: &Checks) -> Vec<(String, Check, CheckClass)> {
    let (_, visits) = traverse_checks(tree, &all_classes(), None);
    visits.into_iter().map(|(p, item)| (p, item.check, item.check_class)).collect()
}

#[test]
fn loopback_network_is_informational_not_an_error() {
    let resp = network_with("127.0.0.1", "127.0.0.1", "v4");
    let checks = resp.get_checks(CheckParams::for_rdap(&resp));
    let items = visited_checks(&checks);
    assert!(items
        .iter()
        .any(|v| v.1 == Check::IpAddressLoopback && v.2 == CheckClass::Informational));
    assert!(!items.iter().any(|v| v.1 == Check::IpAddressMalformed));
}

#[test]
fn malformed_network_address_is_an_error() {
    let resp = network_with("999.1.1.1", "999.1.1.2", "v4");
    let checks = resp.get_checks(CheckParams::for_rdap(&resp));
    let items = visited_checks(&checks);
    assert!(items.iter().any(|v| v.1 == Check::IpAddressMalformed && v.2 == CheckClass::StdError));
}

#[test]
fn end_before_start_and_version_mismatch_are_flagged() {
    let resp = network_with("10.0.0.9", "10.0.0.1", "v6");
    let checks = resp.get_checks(CheckParams::for_rdap(&resp));
    let items = visited_checks(&checks);
    assert!(items.iter().any(|v| v.1 == Check::IpAddressEndBeforeStart));
    assert!(items.iter().any(|v| v.1 == Check::IpAddressVersionMismatch));
}

#[test]
fn ipv6_loopback_network_is_informational() {
    let resp = network_with("::1", "::1", "v6");
    let checks = resp.get_checks(CheckParams::for_rdap(&resp));
    let items = visited_checks(&checks);
    assert!(items.iter().any(|v| v.1 == Check::IpAddressLoopback));
    assert!(!items.iter().any(|v| v.1 == Check::IpAddressMalformed));
}

#[test]
fn checking_twice_yields_equal_trees() {
    let resp = network_with("127.0.0.1", "127.0.0.255", "v4");
    let first = resp.get_checks(CheckParams::for_rdap(&resp));
    let second = resp.get_checks(CheckParams::for_rdap(&resp));
    assert_eq!(first, second);
}

#[test]
fn conformance_on_a_nested_object_is_flagged_where_it_stands() {
    let nested = Entity {
        common: Common {
            rdap_conformance: Some(vec!["rdap_level_0".to_string()]),
            notices: None,
        },
        object_common: empty_oc(),
        vcard_array: None,
        roles: None,
        public_ids: None,
    };
    let mut oc = empty_oc();
    oc.entities = vec![nested];
    let resp = RdapResponse::Domain(Box::new(Domain {
        common: conformant_common(),
        object_common: oc,
        ldh_name: Some(Stringish::Text("example.com".to_string())),
        unicode_name: None,
        variants: None,
        secure_dns: None,
        public_ids: None,
        nameservers: None,
        network: None,
    }));
    let checks = resp.get_checks(CheckParams::for_rdap(&resp));
    // The finding stands in the nested entity's own conformance node.
    let entity = checks.sub(RdapStructure::Entity).expect("entity subtree");
    let conformance = entity.sub(RdapStructure::RdapConformance).expect("conformance subtree");
    assert!(is_checked_item(Check::RdapConformanceInvalidParent, conformance));
    assert_eq!(
        conformance.items[0].check_class,
        CheckClass::StdError,
    );
    // The root's own conformance node carries no such finding.
    let root_conf = checks.sub(RdapStructure::RdapConformance).expect("root conformance");
    assert!(!is_checked_item(Check::RdapConformanceInvalidParent, root_conf));
}

#[test]
fn conformance_on_a_nested_entity_of_the_roots_own_kind_is_still_flagged() {
    // The root is an entity; so is the nested object. Only the root
    // itself may declare the conformance.
    let nested = Entity {
        common: Common {
            rdap_conformance: Some(vec!["rdap_level_0".to_string()]),
            notices: None,
        },
        object_common: empty_oc(),
        vcard_array: None,
        roles: None,
        public_ids: None,
    };
    let mut oc = empty_oc();
    oc.entities = vec![nested, Entity {
        common: empty_common(),
        object_common: empty_oc(),
        vcard_array: None,
        roles: None,
        public_ids: None,
    }];
    let resp = RdapResponse::Entity(Box::new(Entity {
        common: conformant_common(),
        object_common: oc,
        vcard_array: None,
        roles: None,
        public_ids: None,
    }));
    let checks = resp.get_checks(CheckParams::for_rdap(&resp));
    let first_nested = checks.sub(RdapStructure::Entity).expect("nested entity subtree");
    let conformance =
        first_nested.sub(RdapStructure::RdapConformance).expect("conformance subtree");
    assert!(is_checked_item(Check::RdapConformanceInvalidParent, conformance));
    // The second nested entity declares nothing, which on a nested
    // object is fine: no conformance node, no missing-finding.
    let second_nested = &checks.sub_checks[checks.sub_checks.len() - 1];
    assert_eq!(second_nested.rdap_struct, RdapStructure::Entity);
    assert!(second_nested.sub(RdapStructure::RdapConformance).is_none());
}

#[test]
fn unregistered_extension_is_a_warning_unless_allowed() {
    let resp = RdapResponse::Entity(Box::new(Entity {
        common: Common { rdap_conformance: Some(vec!["foo".to_string()]), notices: None },
        object_common: empty_oc(),
        vcard_array: None,
        roles: None,
        public_ids: None,
    }));
    let checks = resp.get_checks(CheckParams::for_rdap(&resp));
    let conformance = checks.sub(RdapStructure::RdapConformance).expect("conformance subtree");
    assert!(is_checked_item(Check::UnknownExtention, conformance));
    assert_eq!(conformance.items[0].check_class, CheckClass::StdWarning);

    let mut params = CheckParams::for_rdap(&resp);
    params.allow_unreg_ext = true;
    let lenient = resp.get_checks(params);
    let conformance = lenient.sub(RdapStructure::RdapConformance).expect("conformance subtree");
    assert!(!is_checked_item(Check::UnknownExtention, conformance));
}

#[test]
fn missing_conformance_at_the_root_is_an_error() {
    let resp = RdapResponse::Entity(Box::new(Entity {
        common: empty_common(),
        object_common: empty_oc(),
        vcard_array: None,
        roles: None,
        public_ids: None,
    }));
    let checks = resp.get_checks(CheckParams::for_rdap(&resp));
    let conformance = checks.sub(RdapStructure::RdapConformance).expect("conformance subtree");
    assert!(is_checked_item(Check::RdapConformanceMissing, conformance));
}

#[test]
fn link_property_rules_fire_per_link() {
    let links = vec![
        Link { value: None, rel: None, href: None, title: None, media_type: None },
        Link {
            value: Some("https://example.com/1".to_string()),
            rel: Some("related".to_string()),
            href: Some("https://example.com/2".to_string()),
            title: None,
            media_type: None,
        },
        Link {
            value: Some("https://example.com/1".to_string()),
            rel: Some("self".to_string()),
            href: Some("https://example.com/2".to_string()),
            title: None,
            media_type: Some("application/rdap+json".to_string()),
        },
    ];
    let node = links_checks(&links, true);
    // No self-link note: the third link is a typed self link.
    assert!(!is_checked_item(Check::LinkObjectClassHasNoSelf, &node));
    let first = &node.sub_checks[0];
    assert!(is_checked_item(Check::LinkMissingValueProperty, first));
    assert!(is_checked_item(Check::LinkMissingRelProperty, first));
    assert!(is_checked_item(Check::LinkMissingHrefProperty, first));
    let second = &node.sub_checks[1];
    assert!(is_checked_item(Check::LinkRelatedHasNoType, second));
    let third = &node.sub_checks[2];
    assert!(third.items.is_empty());

    let no_self = links_checks(&Vec::new(), true);
    assert!(is_checked_item(Check::LinkObjectClassHasNoSelf, &no_self));
}

#[test]
fn secure_dns_fields_keep_their_own_codes() {
    let sd = SecureDns {
        zone_signed: Some(Boolish::Text("true".to_string())),
        delegation_signed: Some(Boolish::Bool(true)),
        max_sig_life: Some(Numberish::Num(604800)),
        key_data: Some(vec![rdap_checks::response::KeyDatum {
            flags: Some(Numberish::Num(70000)),
            protocol: Some(Numberish::Num(3)),
            public_key: Some("AwEAAa".to_string()),
            algorithm: Some(Numberish::Text("8".to_string())),
        }]),
        ds_data: Some(vec![rdap_checks::response::DsDatum {
            key_tag: Some(Numberish::Num(70000)),
            algorithm: Some(Numberish::Num(300)),
            digest: Some("ABCDEF".to_string()),
            digest_type: Some(Numberish::Num(2)),
        }]),
    };
    let node = secure_dns_checks(&sd);
    assert!(is_checked_item(Check::ZoneSignedIsString, &node));
    assert!(!is_checked_item(Check::DelegationSignedIsString, &node));
    assert!(!is_checked_item(Check::MaxSigLifeIsString, &node));
    assert!(is_checked_item(Check::KeyDatumFlagsIsOutOfRange, &node));
    assert!(is_checked_item(Check::KeyDatumAlgorithmIsString, &node));
    assert!(!is_checked_item(Check::KeyDatumProtocolIsOutOfRange, &node));
    assert!(is_checked_item(Check::DsDatumKeyTagIsOutOfRange, &node));
    assert!(is_checked_item(Check::DsDatumAlgorithmIsOutOfRange, &node));
    assert!(!is_checked_item(Check::DsDatumDigestTypeIsOutOfRange, &node));
}

#[test]
fn documentation_domain_name_is_informational() {
    let resp = RdapResponse::Domain(Box::new(Domain {
        common: conformant_common(),
        object_common: empty_oc(),
        ldh_name: Some(Stringish::Text("example.com".to_string())),
        unicode_name: None,
        variants: None,
        secure_dns: None,
        public_ids: None,
        nameservers: None,
        network: None,
    }));
    let checks = resp.get_checks(CheckParams::for_rdap(&resp));
    assert!(is_checked_item(Check::LdhNameDocumentation, &checks));
    assert!(!is_checked_item(Check::LdhNameInvalid, &checks));
}

#[test]
fn autnum_special_ranges_per_their_rfcs() {
    assert_eq!(autnum_special(64512), Some(Check::AutnumPrivateUse));
    assert_eq!(autnum_special(64496), Some(Check::AutnumDocumentation));
    assert_eq!(autnum_special(65535), Some(Check::AutnumReserved));
    assert_eq!(autnum_special(0), Some(Check::AutnumReserved));
    assert_eq!(autnum_special(4200000000), Some(Check::AutnumPrivateUse));
    assert_eq!(autnum_special(3356), None);
}

#[test]
fn v4_special_ranges_per_their_rfcs() {
    assert_eq!(parse_ipv4("10.1.2.3").map(v4_special), Some(Some(Check::IpAddressPrivateUse)));
    assert_eq!(parse_ipv4("100.64.0.1").map(v4_special), Some(Some(Check::IpAddressSharedNat)));
    assert_eq!(parse_ipv4("169.254.0.1").map(v4_special), Some(Some(Check::IpAddressLinkLocal)));
    assert_eq!(
        parse_ipv4("192.0.2.7").map(v4_special),
        Some(Some(Check::IpAddressDocumentationNet))
    );
    assert_eq!(parse_ipv4("240.0.0.1").map(v4_special), Some(Some(Check::IpAddressReservedNet)));
    assert_eq!(parse_ipv4("0.1.2.3").map(v4_special), Some(Some(Check::IpAddressThisNetwork)));
    assert_eq!(parse_ipv4("8.8.8.8").map(v4_special), Some(None));
    assert_eq!(parse_ipv4("1.2.3"), None);
    assert_eq!(parse_ipv4("1.2.3.4.5"), None);
    assert_eq!(parse_ipv4("256.1.1.1"), None);
    assert_eq!(parse_ipv4("127.0.0.1"), Some(0x7F000001));
}

#[test]
fn u32_parse_follows_the_standard_grammar() {
    assert_eq!(parse_u32("0"), Some(0));
    assert_eq!(parse_u32("+17"), Some(17));
    assert_eq!(parse_u32("4294967295"), Some(4294967295));
    assert_eq!(parse_u32("4294967296"), None);
    assert_eq!(parse_u32(""), None);
    assert_eq!(parse_u32("12a"), None);
    assert_eq!(parse_u32("-1"), None);
}

#[test]
fn rfc3339_dates_are_judged_with_the_calendar() {
    assert!(is_rfc3339("2024-01-07T10:11:12Z"));
    assert!(is_rfc3339("2024-02-29T00:00:00Z"));
    assert!(!is_rfc3339("2023-02-29T00:00:00Z"));
    assert!(!is_rfc3339("1900-02-29T00:00:00Z"));
    assert!(is_rfc3339("2000-02-29T00:00:00Z"));
    assert!(is_rfc3339("2024-01-07T10:11:12.345Z"));
    assert!(is_rfc3339("2024-01-07t10:11:12+05:30"));
    assert!(!is_rfc3339("2024-13-07T10:11:12Z"));
    assert!(!is_rfc3339("2024-01-32T10:11:12Z"));
    assert!(!is_rfc3339("2024-01-07T24:00:00Z"));
    assert!(!is_rfc3339("2024-01-07 10:11:12Z"));
    assert!(!is_rfc3339("2024-01-07T10:11:12"));
    assert!(!is_rfc3339("2024-01-07T10:11:12.Z"));
    assert!(!is_rfc3339("not a date"));
}

#[test]
fn ldh_names_are_judged_by_their_labels() {
    assert!(is_ldh_name("example.com"));
    assert!(is_ldh_name("xn--zckzah.jp"));
    assert!(is_ldh_name("a"));
    assert!(!is_ldh_name(""));
    assert!(!is_ldh_name(".com"));
    assert!(!is_ldh_name("example..com"));
    assert!(!is_ldh_name("-example.com"));
    assert!(!is_ldh_name("example-.com"));
    assert!(!is_ldh_name("exam ple.com"));
    assert!(is_documentation_name("foo.example"));
    assert!(is_documentation_name("example.net"));
    assert!(!is_documentation_name("icann.org"));
}

#[test]
fn transport_rules_harden_under_the_icann_profile() {
    let http = HttpData {
        scheme: "http".to_string(),
        host: "rdap.example.com".to_string(),
        allow_origin: Some("https://example.net".to_string()),
        allow_credentials: Some("true".to_string()),
        content_type: Some("text/html".to_string()),
    };
    let plain = RdapResponse::Help(Box::new(rdap_checks::response::Help {
        common: conformant_common(),
    }));
    let nodes = http.get_sub_checks(CheckParams::for_rdap(&plain));
    let node = &nodes[0];
    assert!(is_checked_item(Check::CorsAllowOriginStarRecommended, node));
    assert!(is_checked_item(Check::CorsAllowCredentialsNotRecommended, node));
    assert!(is_checked_item(Check::ContentTypeIsNotRdap, node));
    assert!(!is_checked_item(Check::MustUseHttps, node));
    assert!(!is_checked_item(Check::AllowOriginNotStar, node));

    let icann = RdapResponse::Help(Box::new(rdap_checks::response::Help {
        common: Common {
            rdap_conformance: Some(vec![
                "rdap_level_0".to_string(),
                "icann_rdap_response_profile_0".to_string(),
            ]),
            notices: None,
        },
    }));
    let nodes = http.get_sub_checks(CheckParams::for_rdap(&icann));
    let node = &nodes[0];
    assert!(is_checked_item(Check::AllowOriginNotStar, node));
    assert!(is_checked_item(Check::MustUseHttps, node));
}

#[test]
fn cli_paths_stand_under_their_directories() {
    assert_eq!(rdap_cache_path("/home/someone/.cache/rdap"), "/home/someone/.cache/rdap/rdap_cache");
    assert_eq!(
        bootstrap_cache_path(None, "/home/someone/.cache/rdap"),
        "/home/someone/.cache/rdap/bootstrap_cache"
    );
    assert_eq!(bootstrap_cache_path(Some("/xdg"), "/unused"), "/xdg/bootstrap_cache");
    assert_eq!(config_path(Some("/xdg"), "/unused"), "/xdg/rdap.env");
    assert_eq!(config_path(None, "/etc/rdap"), "/etc/rdap/rdap.env");
}

#[test]
fn nameserver_addresses_are_judged_per_family() {
    let resp = RdapResponse::Nameserver(Box::new(rdap_checks::response::Nameserver {
        common: conformant_common(),
        object_common: empty_oc(),
        ldh_name: Some(Stringish::Text("ns1.example.com".to_string())),
        unicode_name: Some(Stringish::Text("NS1.example.com".to_string())),
        ip_addresses: Some(rdap_checks::response::IpAddresses {
            v4: Some(rdap_checks::response::VectorStringish::Many(vec![
                "10.0.0.1".to_string(),
                "999.0.0.1".to_string(),
            ])),
            v6: Some(rdap_checks::response::VectorStringish::One("::1".to_string())),
        }),
    }));
    let checks = resp.get_checks(CheckParams::for_rdap(&resp));
    assert!(is_checked_item(Check::IpAddressPrivateUse, &checks));
    assert!(is_checked_item(Check::IpAddressMalformed, &checks));
    assert!(is_checked_item(Check::IpAddressArrayIsString, &checks));
    // The ASCII unicode name agrees with the LDH name up to case.
    assert!(!is_checked_item(Check::LdhNameDoesNotMatchUnicode, &checks));

    let empty = RdapResponse::Nameserver(Box::new(rdap_checks::response::Nameserver {
        common: conformant_common(),
        object_common: empty_oc(),
        ldh_name: Some(Stringish::Text("ns1.example.com".to_string())),
        unicode_name: Some(Stringish::Text("ns2.example.com".to_string())),
        ip_addresses: Some(rdap_checks::response::IpAddresses { v4: None, v6: None }),
    }));
    let checks = empty.get_checks(CheckParams::for_rdap(&empty));
    assert!(is_checked_item(Check::IpAddressListIsEmpty, &checks));
    assert!(is_checked_item(Check::LdhNameDoesNotMatchUnicode, &checks));
}

#[test]
fn cidr0_entries_need_their_prefixes_and_lengths() {
    let resp = RdapResponse::Network(Box::new(Network {
        common: conformant_common(),
        object_common: empty_oc(),
        start_address: None,
        end_address: None,
        ip_version: Some(Stringish::NotText),
        name: Some(Stringish::NotText),
        network_type: Some(Stringish::Text(" ".to_string())),
        cidr0_cidrs: Some(vec![
            rdap_checks::response::Cidr0Cidr::V4Cidr { prefix: None, length: Some(24) },
            rdap_checks::response::Cidr0Cidr::V6Cidr {
                prefix: Some("2001:db8::".to_string()),
                length: None,
            },
        ]),
    }));
    let checks = resp.get_checks(CheckParams::for_rdap(&resp));
    assert!(is_checked_item(Check::IpAddressMissing, &checks));
    assert!(is_checked_item(Check::IpVersionIsNotString, &checks));
    assert!(is_checked_item(Check::NetworkOrAutnumNameIsNotString, &checks));
    assert!(is_checked_item(Check::NetworkOrAutnumTypeIsEmpty, &checks));
    let cidr0 = checks.sub(rdap_checks::check::RdapStructure::Cidr0).expect("cidr0 subtree");
    assert!(is_checked_item(Check::Cidr0V4PrefixIsAbsent, cidr0));
    assert!(!is_checked_item(Check::Cidr0V4LengthIsAbsent, cidr0));
    assert!(!is_checked_item(Check::Cidr0V6PrefixIsAbsent, cidr0));
    assert!(is_checked_item(Check::Cidr0V6LengthIsAbsent, cidr0));

    let bad_version = network_with("10.0.0.1", "10.0.0.2", "ipv4");
    let checks = bad_version.get_checks(CheckParams::for_rdap(&bad_version));
    assert!(is_checked_item(Check::IpAddressMalformedVersion, &checks));
}

#[test]
fn autnum_ranges_need_both_bounds_in_order() {
    let resp = RdapResponse::Autnum(Box::new(rdap_checks::response::Autnum {
        common: conformant_common(),
        object_common: empty_oc(),
        start_autnum: Some(Numberish::Num(65000)),
        end_autnum: None,
        name: Some(Stringish::Text("TEST-NET".to_string())),
        autnum_type: None,
    }));
    let checks = resp.get_checks(CheckParams::for_rdap(&resp));
    assert!(is_checked_item(Check::AutnumMissing, &checks));
    assert!(is_checked_item(Check::AutnumPrivateUse, &checks));

    let backwards = RdapResponse::Autnum(Box::new(rdap_checks::response::Autnum {
        common: conformant_common(),
        object_common: empty_oc(),
        start_autnum: Some(Numberish::Num(3356)),
        end_autnum: Some(Numberish::Num(3300)),
        name: None,
        autnum_type: None,
    }));
    let checks = backwards.get_checks(CheckParams::for_rdap(&backwards));
    assert!(is_checked_item(Check::AutnumEndBeforeStart, &checks));
    assert!(!is_checked_item(Check::AutnumMissing, &checks));
}

#[test]
fn variants_and_unicode_names_are_judged_on_the_domain() {
    let resp = RdapResponse::Domain(Box::new(Domain {
        common: conformant_common(),
        object_common: empty_oc(),
        ldh_name: Some(Stringish::Text("xn--zckzah.example".to_string())),
        unicode_name: Some(Stringish::Text("bad..name".to_string())),
        variants: Some(vec![rdap_checks::response::Variant {
            relations: Some(vec!["registered".to_string()]),
            idn_table: None,
            variant_names: None,
        }]),
        secure_dns: None,
        public_ids: None,
        nameservers: None,
        network: None,
    }));
    let checks = resp.get_checks(CheckParams::for_rdap(&resp));
    assert!(is_checked_item(Check::VariantEmptyDomain, &checks));
    assert!(is_checked_item(Check::UnicodeNameInvalidDomain, &checks));
    let mut oc = empty_oc();
    oc.handle = Some(Stringish::NotText);
    let e = RdapResponse::Entity(Box::new(rdap_checks::response::Entity {
        common: conformant_common(),
        object_common: oc,
        vcard_array: None,
        roles: None,
        public_ids: None,
    }));
    let t = e.get_checks(CheckParams::for_rdap(&e));
    let h = t.sub(RdapStructure::Handle).expect("handle subtree");
    assert!(is_checked_item(Check::HandleIsNotString, h));
}
