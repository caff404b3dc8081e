//! Tests of the check taxonomy and the checks tree.

use rdap_checks::check::{
    is_checked, is_checked_item, traverse_checks, Check, CheckClass, CheckItem, Checks,
    RdapStructure,
};

fn all_checks() -> Vec<Check> {
    vec![
        Check::RdapConformanceMissing,
        Check::RdapConformanceInvalidParent,
        Check::UnknownExtention,
        Check::LinkMissingValueProperty,
        Check::LinkMissingRelProperty,
        Check::LinkRelatedHasNoType,
        Check::LinkRelatedIsNotRdap,
        Check::LinkSelfHasNoType,
        Check::LinkSelfIsNotRdap,
        Check::LinkObjectClassHasNoSelf,
        Check::LinkMissingHrefProperty,
        Check::VariantEmptyDomain,
        Check::EventDateIsAbsent,
        Check::EventDateIsNotRfc3339,
        Check::EventActionIsAbsent,
        Check::NoticeOrRemarkDescriptionIsAbsent,
        Check::NoticeOrRemarkDescriptionIsString,
        Check::HandleIsEmpty,
        Check::HandleIsNotString,
        Check::StatusIsEmpty,
        Check::RoleIsEmpty,
        Check::UnknownRole,
        Check::RoleIsString,
        Check::LdhNameInvalid,
        Check::LdhNameDocumentation,
        Check::LdhNameDoesNotMatchUnicode,
        Check::UnicodeNameInvalidDomain,
        Check::UnicodeNameInvalidUnicode,
        Check::NetworkOrAutnumNameIsEmpty,
        Check::NetworkOrAutnumNameIsNotString,
        Check::NetworkOrAutnumTypeIsEmpty,
        Check::NetworkOrAutnumTypeIsNotString,
        Check::IpAddressMissing,
        Check::IpAddressMalformed,
        Check::IpAddressEndBeforeStart,
        Check::IpAddressVersionMismatch,
        Check::IpAddressMalformedVersion,
        Check::IpAddressListIsEmpty,
        Check::IpAddressThisNetwork,
        Check::IpAddressPrivateUse,
        Check::IpAddressSharedNat,
        Check::IpAddressLoopback,
        Check::IpAddressLinkLocal,
        Check::IpAddressUniqueLocal,
        Check::IpAddressDocumentationNet,
        Check::IpAddressReservedNet,
        Check::IpAddressArrayIsString,
        Check::IpVersionIsNotString,
        Check::AutnumMissing,
        Check::AutnumEndBeforeStart,
        Check::AutnumPrivateUse,
        Check::AutnumDocumentation,
        Check::AutnumReserved,
        Check::VcardArrayIsEmpty,
        Check::VcardHasNoFn,
        Check::VcardFnIsEmpty,
        Check::Port43IsEmpty,
        Check::PublicIdTypeIsAbsent,
        Check::PublicIdIdentifierIsAbsent,
        Check::CorsAllowOriginRecommended,
        Check::CorsAllowOriginStarRecommended,
        Check::CorsAllowCredentialsNotRecommended,
        Check::ContentTypeIsAbsent,
        Check::ContentTypeIsNotRdap,
        Check::Cidr0V4PrefixIsAbsent,
        Check::Cidr0V4LengthIsAbsent,
        Check::Cidr0V6PrefixIsAbsent,
        Check::Cidr0V6LengthIsAbsent,
        Check::MustUseHttps,
        Check::AllowOriginNotStar,
        Check::CnameWithoutARecords,
        Check::CnameWithoutAAAARecords,
        Check::NoARecords,
        Check::NoAAAARecords,
        Check::ExpectedExtensionNotFound,
        Check::Ipv6SupportRequiredByIcann,
        Check::DelegationSignedIsString,
        Check::ZoneSignedIsString,
        Check::MaxSigLifeIsString,
        Check::KeyDatumAlgorithmIsString,
        Check::KeyDatumAlgorithmIsOutOfRange,
        Check::KeyDatumFlagsIsString,
        Check::KeyDatumFlagsIsOutOfRange,
        Check::KeyDatumProtocolIsString,
        Check::KeyDatumProtocolIsOutOfRange,
        Check::DsDatumAlgorithmIsString,
        Check::DsDatumAlgorithmIsOutOfRange,
        Check::DsDatumKeyTagIsString,
        Check::DsDatumKeyTagIsOutOfRange,
        Check::DsDatumDigestTypeIsString,
        Check::DsDatumDigestTypeIsOutOfRange,
    ]
}

#[test]
fn classify_is_total_over_the_taxonomy() {
    let checks = all_checks();
    assert_eq!(checks.len(), 91);
    for c in checks {
        let item = c.check_item();
        assert_eq!(item.check, c);
        // The denormalized class is one of the six classes, and the
        // item's message and code are fixed.
        let _class: CheckClass = item.check_class;
        assert!(!c.message().is_empty());
        assert!(c.code() >= 100);
    }
}

#[test]
fn codes_keep_their_released_values() {
    assert_eq!(Check::RdapConformanceMissing.code(), 100);
    assert_eq!(Check::RdapConformanceInvalidParent.code(), 101);
    assert_eq!(Check::UnknownExtention.code(), 102);
    assert_eq!(Check::LinkMissingValueProperty.code(), 200);
    assert_eq!(Check::VariantEmptyDomain.code(), 300);
    assert_eq!(Check::EventDateIsAbsent.code(), 400);
    assert_eq!(Check::NoticeOrRemarkDescriptionIsAbsent.code(), 500);
    assert_eq!(Check::HandleIsEmpty.code(), 600);
    assert_eq!(Check::StatusIsEmpty.code(), 700);
    assert_eq!(Check::RoleIsEmpty.code(), 800);
    assert_eq!(Check::LdhNameInvalid.code(), 900);
    assert_eq!(Check::UnicodeNameInvalidDomain.code(), 1000);
    assert_eq!(Check::NetworkOrAutnumNameIsEmpty.code(), 1100);
    assert_eq!(Check::NetworkOrAutnumTypeIsEmpty.code(), 1200);
    assert_eq!(Check::IpAddressMissing.code(), 1300);
    assert_eq!(Check::IpAddressLoopback.code(), 1309);
    assert_eq!(Check::AutnumMissing.code(), 1400);
    assert_eq!(Check::VcardArrayIsEmpty.code(), 1500);
    assert_eq!(Check::Port43IsEmpty.code(), 1600);
    assert_eq!(Check::PublicIdTypeIsAbsent.code(), 1700);
    assert_eq!(Check::CorsAllowOriginRecommended.code(), 1800);
    assert_eq!(Check::Cidr0V4PrefixIsAbsent.code(), 1900);
    assert_eq!(Check::MustUseHttps.code(), 2000);
    assert_eq!(Check::CnameWithoutARecords.code(), 2100);
    assert_eq!(Check::DelegationSignedIsString.code(), 2200);
    assert_eq!(Check::DsDatumAlgorithmIsString.code(), 2213);
    assert_eq!(Check::DsDatumDigestTypeIsOutOfRange.code(), 2218);
}

#[test]
fn classification_follows_the_taxonomy() {
    assert_eq!(Check::RdapConformanceMissing.check_item().check_class, CheckClass::StdError);
    assert_eq!(Check::UnknownExtention.check_item().check_class, CheckClass::StdWarning);
    assert_eq!(Check::LinkObjectClassHasNoSelf.check_item().check_class, CheckClass::SpecificationNote);
    assert_eq!(Check::StatusIsEmpty.check_item().check_class, CheckClass::StdWarning);
    assert_eq!(Check::RoleIsEmpty.check_item().check_class, CheckClass::StdWarning);
    assert_eq!(Check::RoleIsString.check_item().check_class, CheckClass::StdError);
    assert_eq!(Check::HandleIsNotString.check_item().check_class, CheckClass::StdError);
    assert_eq!(Check::LdhNameDocumentation.check_item().check_class, CheckClass::Informational);
    assert_eq!(Check::IpAddressLoopback.check_item().check_class, CheckClass::Informational);
    assert_eq!(Check::IpAddressMalformed.check_item().check_class, CheckClass::StdError);
    assert_eq!(Check::Cidr0V4PrefixIsAbsent.check_item().check_class, CheckClass::Cidr0Error);
    assert_eq!(Check::MustUseHttps.check_item().check_class, CheckClass::IcannError);
    assert_eq!(Check::Ipv6SupportRequiredByIcann.check_item().check_class, CheckClass::IcannError);
}

#[test]
#[allow(non_snake_case)]
fn GIVEN_info_checks_WHEN_traversed_for_info_THEN_found() {
    // GIVEN
    let checks = Checks {
        rdap_struct: RdapStructure::Entity,
        items: vec![CheckItem {
            check_class: CheckClass::Informational,
            check: Check::VariantEmptyDomain,
        }],
        sub_checks: vec![],
    };

    // WHEN
    let (found, visits) = traverse_checks(&checks, &[CheckClass::Informational], None);
    for (struct_tree, check_item) in &visits {
        println!("{struct_tree} -> {:?}", check_item);
    }

    // THEN
    assert!(found);
}

#[test]
#[allow(non_snake_case)]
fn GIVEN_specwarn_checks_WHEN_traversed_for_info_THEN_not_found() {
    // GIVEN
    let checks = Checks {
        rdap_struct: RdapStructure::Entity,
        items: vec![CheckItem {
            check_class: CheckClass::StdWarning,
            check: Check::VariantEmptyDomain,
        }],
        sub_checks: vec![],
    };

    // WHEN
    let (found, _visits) = traverse_checks(&checks, &[CheckClass::Informational], None);

    // THEN
    assert!(!found);
}

#[test]
#[allow(non_snake_case)]
fn GIVEN_info_subchecks_WHEN_traversed_for_info_THEN_found() {
    // GIVEN
    let checks = Checks {
        rdap_struct: RdapStructure::Entity,
        items: vec![],
        sub_checks: vec![Checks {
            rdap_struct: RdapStructure::Autnum,
            items: vec![CheckItem {
                check_class: CheckClass::Informational,
                check: Check::VariantEmptyDomain,
            }],
            sub_checks: vec![],
        }],
    };

    // WHEN
    let (found, _visits) = traverse_checks(&checks, &[CheckClass::Informational], None);

    // THEN
    assert!(found);
}

#[test]
#[allow(non_snake_case)]
fn GIVEN_specwarn_subchecks_WHEN_traversed_for_info_THEN_not_found() {
    // GIVEN
    let checks = Checks {
        rdap_struct: RdapStructure::Entity,
        items: vec![],
        sub_checks: vec![Checks {
            rdap_struct: RdapStructure::Autnum,
            items: vec![CheckItem {
                check_class: CheckClass::StdWarning,
                check: Check::VariantEmptyDomain,
            }],
            sub_checks: vec![],
        }],
    };

    // WHEN
    let (found, _visits) = traverse_checks(&checks, &[CheckClass::Informational], None);

    // THEN
    assert!(!found);
}

#[test]
#[allow(non_snake_case)]
fn GIVEN_checks_and_subchecks_WHEN_traversed_THEN_tree_structure_shows_tree() {
    // GIVEN
    let checks = Checks {
        rdap_struct: RdapStructure::Entity,
        items: vec![CheckItem {
            check_class: CheckClass::Informational,
            check: Check::RdapConformanceInvalidParent,
        }],
        sub_checks: vec![Checks {
            rdap_struct: RdapStructure::Autnum,
            items: vec![CheckItem {
                check_class: CheckClass::Informational,
                check: Check::VariantEmptyDomain,
            }],
            sub_checks: vec![],
        }],
    };

    // WHEN
    let (found, visits) = traverse_checks(&checks, &[CheckClass::Informational], None);
    let structs: Vec<String> = visits.into_iter().map(|v| v.0).collect();

    // THEN
    assert!(found);
    assert!(structs.contains(&"[ROOT]/entity".to_string()));
    assert!(structs.contains(&"[ROOT]/entity/autnum".to_string()));
}

#[test]
fn traversal_visits_paths_in_order_exactly_once() {
    let checks = Checks {
        rdap_struct: RdapStructure::Entity,
        items: vec![CheckItem {
            check_class: CheckClass::Informational,
            check: Check::LdhNameDocumentation,
        }],
        sub_checks: vec![Checks {
            rdap_struct: RdapStructure::Autnum,
            items: vec![CheckItem {
                check_class: CheckClass::Informational,
                check: Check::AutnumReserved,
            }],
            sub_checks: vec![],
        }],
    };
    let (found, visits) = traverse_checks(&checks, &[CheckClass::Informational], None);
    assert!(found);
    let paths: Vec<&str> = visits.iter().map(|v| v.0.as_str()).collect();
    assert_eq!(paths, vec!["[ROOT]/entity", "[ROOT]/entity/autnum"]);
}

#[test]
fn items_render_with_class_code_and_message() {
    assert_eq!(
        Check::RdapConformanceMissing.check_item().to_text(),
        "StdErr:(0100) RFC 9083 requires 'rdapConformance' on the root object."
    );
    assert_eq!(
        Check::LdhNameDocumentation.check_item().to_text(),
        "Info:(0901) Documentation domain name. See RFC 6761"
    );
    assert_eq!(
        Check::Ipv6SupportRequiredByIcann.check_item().to_text(),
        "IcannErr:(2105) IPv6 Support Required."
    );
}

#[test]
fn membership_is_verbatim() {
    let tree = Checks {
        rdap_struct: RdapStructure::Domain,
        items: vec![CheckItem {
            check_class: CheckClass::StdError,
            check: Check::LdhNameInvalid,
        }],
        sub_checks: vec![],
    };
    let trees = vec![tree];
    assert!(is_checked(Check::LdhNameInvalid, &trees));
    // A structurally similar but distinct identifier must not match.
    assert!(!is_checked(Check::LdhNameDocumentation, &trees));
    assert!(is_checked_item(Check::LdhNameInvalid, &trees[0]));
    assert!(!is_checked_item(Check::UnicodeNameInvalidDomain, &trees[0]));
}

#[test]
fn sub_finds_the_first_child_with_the_label() {
    let tree = Checks {
        rdap_struct: RdapStructure::Domain,
        items: vec![],
        sub_checks: vec![
            Checks { rdap_struct: RdapStructure::Links, items: vec![], sub_checks: vec![] },
            Checks {
                rdap_struct: RdapStructure::Entity,
                items: vec![CheckItem {
                    check_class: CheckClass::StdWarning,
                    check: Check::HandleIsEmpty,
                }],
                sub_checks: vec![],
            },
        ],
    };
    let found = tree.sub(RdapStructure::Entity).expect("entity subtree");
    assert_eq!(found.items.len(), 1);
    assert!(tree.sub(RdapStructure::SecureDns).is_none());
}
