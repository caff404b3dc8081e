//! Tests of the test harness's extension normalization.

use rdap_checks::rt::{normalize_extension_ids, ExtensionGroup, TestOptions};

#[test]
#[allow(non_snake_case)]
fn GIVEN_gtld_WHEN_normalize_extensions_THEN_list_contains_gtld_ids() {
    // GIVEN
    let given = vec![ExtensionGroup::Gtld];

    // WHEN
    let options = TestOptions { expect_groups: given, ..Default::default() };
    let actual = normalize_extension_ids(&options).unwrap();

    // THEN
    let expected1 = "icann_rdap_response_profile_0|icann_rdap_response_profile_1".to_string();
    assert!(actual.contains(&expected1));

    let expected2 =
        "icann_rdap_technical_implementation_guide_0|icann_rdap_technical_implementation_guide_1"
        .to_string();
    assert!(actual.contains(&expected2));
}

#[test]
#[allow(non_snake_case)]
fn GIVEN_nro_and_foo_WHEN_normalize_extensions_THEN_list_contains_nro_ids_and_foo() {
    // GIVEN
    let groups = vec![ExtensionGroup::Nro];
    let exts = vec!["foo1".to_string()];

    // WHEN
    let options = TestOptions {
        allow_unregistered_extensions: true,
        expect_extensions: exts,
        expect_groups: groups,
        ..Default::default()
    };
    let actual = normalize_extension_ids(&options).unwrap();

    // THEN
    assert!(actual.contains(&"nro_rdap_profile_0".to_string()));
    assert!(actual.contains(&"cidr0".to_string()));
    assert!(actual.contains(&"foo1".to_string()));
}

#[test]
#[allow(non_snake_case)]
fn GIVEN_nro_and_foo_WHEN_unreg_disallowed_THEN_err() {
    // GIVEN
    let groups = vec![ExtensionGroup::Nro];
    let exts = vec!["foo1".to_string()];

    // WHEN
    let options =
        TestOptions { expect_extensions: exts, expect_groups: groups, ..Default::default() };
    let actual = normalize_extension_ids(&options);

    // THEN
    assert!(actual.is_err())
}

#[test]
#[allow(non_snake_case)]
fn GIVEN_unregistered_ext_WHEN_normalize_extensions_THEN_error() {
    // GIVEN
    let given = vec!["foo".to_string()];

    // WHEN
    let options = TestOptions { expect_extensions: given, ..Default::default() };
    let actual = normalize_extension_ids(&options);

    // THEN
    assert!(actual.is_err());
}

#[test]
#[allow(non_snake_case)]
fn GIVEN_unregistered_ext_WHEN_allowed_THEN_no_error() {
    // GIVEN
    let given = vec!["foo".to_string()];

    // WHEN
    let options = TestOptions {
        expect_extensions: given,
        allow_unregistered_extensions: true,
        ..Default::default()
    };
    let actual = normalize_extension_ids(&options);

    // THEN
    assert!(actual.is_ok());
}

#[test]
#[allow(non_snake_case)]
fn GIVEN_nro_asn_group_WHEN_normalize_extensions_THEN_list_contains_asn_ids() {
    let options = TestOptions {
        expect_groups: vec![ExtensionGroup::NroAsn],
        ..Default::default()
    };
    let actual = normalize_extension_ids(&options).unwrap();
    assert!(actual.contains(&"nro_rdap_profile_0".to_string()));
    assert!(actual
        .contains(&"nro_rdap_profile_asn_flat_0|nro_rdap_profile_asn_hierarchical_0".to_string()));
}
