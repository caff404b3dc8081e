//! Tests of the IANA bootstrap registries.

use rdap_checks::iana::{
    get_preferred_url, BootstrapRegistry, IanaRegistry, IanaRegistryType, RdapBootstrapRegistry,
};

fn strings(v: &[&str]) -> Vec<String> {
    v.iter().map(|s| s.to_string()).collect()
}

fn registry(services: Vec<Vec<Vec<String>>>) -> IanaRegistry {
    IanaRegistry::RdapBootstrapRegistry(RdapBootstrapRegistry {
        version: "1.0".to_string(),
        publication: "2024-01-07T10:11:12Z".to_string(),
        description: Some("Some text".to_string()),
        services,
    })
}

#[test]
fn registry_files_carry_their_names() {
    assert_eq!(IanaRegistryType::RdapBootstrapDns.file_name(), "dns.json");
    assert_eq!(IanaRegistryType::RdapBootstrapAsn.file_name(), "asn.json");
    assert_eq!(IanaRegistryType::RdapBootstrapIpv4.file_name(), "ipv4.json");
    assert_eq!(IanaRegistryType::RdapBootstrapIpv6.file_name(), "ipv6.json");
    assert_eq!(IanaRegistryType::RdapObjectTags.file_name(), "object-tags.json");
    assert_eq!(IanaRegistryType::RdapBootstrapDns.url(), "https://data.iana.org/rdap/dns.json");
}

#[test]
#[allow(non_snake_case)]
fn GIVEN_one_url_WHEN_preferred_urls_THEN_that_is_the_one() {
    // GIVEN
    let urls = vec!["http://foo.example".to_string()];

    // WHEN
    let actual = get_preferred_url(urls).expect("cannot get preferred url");

    // THEN
    assert_eq!(actual, "http://foo.example");
}

#[test]
#[allow(non_snake_case)]
fn GIVEN_one_http_and_https_url_WHEN_preferred_urls_THEN_return_https() {
    // GIVEN
    let urls = vec!["http://foo.example".to_string(), "https://foo.example".to_string()];

    // WHEN
    let actual = get_preferred_url(urls).expect("cannot get preferred url");

    // THEN
    assert_eq!(actual, "https://foo.example");
}

#[test]
fn preferred_url_of_no_urls_is_an_error() {
    assert!(get_preferred_url(Vec::new()).is_err());
}

#[test]
#[allow(non_snake_case)]
fn GIVEN_domain_bootstrap_with_matching_WHEN_find_THEN_url_matches() {
    // GIVEN
    let iana = registry(vec![
        vec![strings(&["net", "com"]), strings(&["https://registry.example.com/myrdap/"])],
        vec![strings(&["org", "mytld"]), strings(&["https://example.org/"])],
    ]);

    // WHEN
    let actual = iana.get_dns_bootstrap_urls("foo.org");

    // THEN
    assert_eq!(actual.expect("no vec").first().expect("vec is empty"), "https://example.org/");
}

#[test]
#[allow(non_snake_case)]
fn GIVEN_domain_bootstrap_with_two_matching_WHEN_find_THEN_return_longest_match() {
    // GIVEN
    let iana = registry(vec![
        vec![strings(&["co.uk"]), strings(&["https://registry.co.uk/"])],
        vec![strings(&["uk"]), strings(&["https://registry.uk/"])],
    ]);

    // WHEN
    let actual = iana.get_dns_bootstrap_urls("foo.co.uk");

    // THEN
    assert_eq!(actual.expect("no vec").first().expect("vec is empty"), "https://registry.co.uk/");
}

#[test]
#[allow(non_snake_case)]
fn GIVEN_domain_bootstrap_with_root_WHEN_find_THEN_url_matches() {
    // GIVEN
    let iana = registry(vec![
        vec![strings(&["net", "com"]), strings(&["https://registry.example.com/myrdap/"])],
        vec![strings(&[""]), strings(&["https://example.org/"])],
    ]);

    // WHEN
    let actual = iana.get_dns_bootstrap_urls("foo.org");

    // THEN
    assert_eq!(actual.expect("no vec").first().expect("vec is empty"), "https://example.org/");
}

#[test]
#[allow(non_snake_case)]
fn GIVEN_autnum_bootstrap_with_match_WHEN_find_with_string_THEN_return_match() {
    // GIVEN
    let iana = registry(vec![
        vec![strings(&["64496-64496"]), strings(&["https://rir3.example.com/myrdap/"])],
        vec![strings(&["64497-64510", "65536-65551"]), strings(&["https://example.org/"])],
        vec![
            strings(&["64512-65534"]),
            strings(&["http://example.net/rdaprir2/", "https://example.net/rdaprir2/"]),
        ],
    ]);

    // WHEN
    let actual = iana.get_asn_bootstrap_urls("as64498");

    // THEN
    assert_eq!(actual.expect("no vec").first().expect("vec is empty"), "https://example.org/");
}

#[test]
#[allow(non_snake_case)]
fn GIVEN_ipv4_bootstrap_with_match_WHEN_find_with_ip_address_THEN_return_match() {
    // GIVEN
    let iana = registry(vec![
        vec![
            strings(&["198.51.100.0/24", "192.0.0.0/8"]),
            strings(&["https://rir1.example.com/myrdap/"]),
        ],
        vec![strings(&["203.0.113.0/24", "192.0.2.0/24"]), strings(&["https://example.org/"])],
        vec![
            strings(&["203.0.113.0/28"]),
            strings(&["https://example.net/rdaprir2/", "http://example.net/rdaprir2/"]),
        ],
    ]);

    // WHEN
    let actual = iana.get_ipv4_bootstrap_urls("198.51.100.1/32");

    // THEN
    assert_eq!(
        actual.expect("no vec").first().expect("vec is empty"),
        "https://rir1.example.com/myrdap/"
    );
}

#[test]
#[allow(non_snake_case)]
fn GIVEN_ipv4_bootstrap_with_match_WHEN_find_with_cidr_THEN_return_match() {
    // GIVEN
    let iana = registry(vec![
        vec![
            strings(&["198.51.100.0/24", "192.0.0.0/8"]),
            strings(&["https://rir1.example.com/myrdap/"]),
        ],
        vec![strings(&["203.0.113.0/24", "192.0.2.0/24"]), strings(&["https://example.org/"])],
        vec![
            strings(&["203.0.113.0/28"]),
            strings(&["https://example.net/rdaprir2/", "http://example.net/rdaprir2/"]),
        ],
    ]);

    // WHEN
    let actual = iana.get_ipv4_bootstrap_urls("203.0.113.0/24");

    // THEN
    assert_eq!(actual.expect("no vec").first().expect("vec is empty"), "https://example.org/");
}

#[test]
#[allow(non_snake_case)]
fn GIVEN_ipv6_bootstrap_with_match_WHEN_find_with_ip_address_THEN_return_match() {
    // GIVEN
    let iana = registry(vec![
        vec![strings(&["2001:db8::/34"]), strings(&["https://rir2.example.com/myrdap/"])],
        vec![
            strings(&["2001:db8:4000::/36", "2001:db8:ffff::/48"]),
            strings(&["https://example.org/"]),
        ],
        vec![
            strings(&["2001:db8:1000::/36"]),
            strings(&["https://example.net/rdaprir2/", "http://example.net/rdaprir2/"]),
        ],
    ]);

    // WHEN
    let actual = iana.get_ipv6_bootstrap_urls("2001:db8::1/128");

    // THEN
    assert_eq!(
        actual.expect("no vec").first().expect("vec is empty"),
        "https://rir2.example.com/myrdap/"
    );
}

#[test]
#[allow(non_snake_case)]
fn GIVEN_ipv6_bootstrap_with_match_WHEN_find_with_ip_cidr_THEN_return_match() {
    // GIVEN
    let iana = registry(vec![
        vec![strings(&["2001:db8::/34"]), strings(&["https://rir2.example.com/myrdap/"])],
        vec![
            strings(&["2001:db8:4000::/36", "2001:db8:ffff::/48"]),
            strings(&["https://example.org/"]),
        ],
        vec![
            strings(&["2001:db8:1000::/36"]),
            strings(&["https://example.net/rdaprir2/", "http://example.net/rdaprir2/"]),
        ],
    ]);

    // WHEN
    let actual = iana.get_ipv6_bootstrap_urls("2001:db8:4000::/36");

    // THEN
    assert_eq!(actual.expect("no vec").first().expect("vec is empty"), "https://example.org/");
}

#[test]
#[allow(non_snake_case)]
fn GIVEN_tag_bootstrap_with_match_WHEN_find_with_tag_THEN_return_match() {
    // GIVEN
    let iana = registry(vec![
        vec![
            strings(&["contact@example.com"]),
            strings(&["YYYY"]),
            strings(&["https://example.com/rdap/"]),
        ],
        vec![
            strings(&["contact@example.org"]),
            strings(&["ZZ54"]),
            strings(&["http://rdap.example.org/"]),
        ],
        vec![
            strings(&["contact@example.net"]),
            strings(&["1754"]),
            strings(&["https://example.net/rdap/", "http://example.net/rdap/"]),
        ],
    ]);

    // WHEN
    let actual = iana.get_tag_bootstrap_urls("YYYY");

    // THEN
    assert_eq!(
        actual.expect("no vec").first().expect("vec is empty"),
        "https://example.com/rdap/"
    );
}
