//! Tests of the response model's builders and the engine's coverage of
//! common structures.

use rdap_checks::check::{
    is_checked_item, Check, CheckClass, CheckParams, GetChecks, GetSubChecks, RdapStructure,
};
use rdap_checks::response::search::{
    DomainSearchResults, EntitySearchResults, NameserverSearchResults,
};
use rdap_checks::response::{
    Common, Domain, Entity, Event, NoticeOrRemark, ObjectCommon, PublicId, RdapResponse,
    Stringish, VcardProperty, VectorStringish,
};

fn empty_oc() -> ObjectCommon {
    ObjectCommon {
        handle: None,
        status: None,
        links: None,
        events: None,
        remarks: None,
        port_43: None,
        entities: vec![],
    }
}

fn bare_domain(name: &str) -> Domain {
    Domain {
        common: Common { rdap_conformance: None, notices: None },
        object_common: empty_oc(),
        ldh_name: Some(Stringish::Text(name.to_string())),
        unicode_name: None,
        variants: None,
        secure_dns: None,
        public_ids: None,
        nameservers: None,
        network: None,
    }
}

#[test]
fn search_results_declare_the_base_identifier_and_the_extensions() {
    let results =
        DomainSearchResults::new(vec![bare_domain("example.com")], vec!["cidr0".to_string()]);
    assert_eq!(results.results().len(), 1);
    assert_eq!(
        results.common().rdap_conformance,
        Some(vec!["rdap_level_0".to_string(), "cidr0".to_string()])
    );
    let response = results.to_response();
    assert!(matches!(response, RdapResponse::DomainSearchResults(_)));

    let ns = NameserverSearchResults::new(vec![], vec![]);
    assert_eq!(ns.results().len(), 0);
    assert_eq!(ns.common().rdap_conformance, Some(vec!["rdap_level_0".to_string()]));
    let es = EntitySearchResults::new(vec![], vec!["redacted".to_string()]);
    assert_eq!(es.results().len(), 0);
    assert_eq!(
        es.common().rdap_conformance,
        Some(vec!["rdap_level_0".to_string(), "redacted".to_string()])
    );
}

#[test]
fn search_results_check_their_found_objects() {
    let results = DomainSearchResults::new(vec![bare_domain("exa mple")], vec![]);
    let response = results.to_response();
    let checks = response.get_checks(CheckParams::for_rdap(&response));
    assert_eq!(checks.rdap_struct, RdapStructure::DomainSearchResults);
    let domain = checks.sub(RdapStructure::Domain).expect("domain subtree");
    assert!(is_checked_item(Check::LdhNameInvalid, domain));
    // The found domain is nested: it must not be asked for a
    // conformance declaration of its own.
    assert!(domain.sub(RdapStructure::RdapConformance).is_none());
}

#[test]
fn events_need_a_date_an_action_and_the_date_format() {
    let mut oc = empty_oc();
    oc.events = Some(vec![
        Event { event_action: None, event_date: None },
        Event {
            event_action: Some("registration".to_string()),
            event_date: Some("not a date".to_string()),
        },
        Event {
            event_action: Some("expiration".to_string()),
            event_date: Some("2030-06-01T00:00:00Z".to_string()),
        },
    ]);
    let resp = RdapResponse::Domain(Box::new(Domain {
        common: Common { rdap_conformance: Some(vec!["rdap_level_0".to_string()]), notices: None },
        object_common: oc,
        ldh_name: None,
        unicode_name: None,
        variants: None,
        secure_dns: None,
        public_ids: None,
        nameservers: None,
        network: None,
    }));
    let checks = resp.get_checks(CheckParams::for_rdap(&resp));
    let events = checks.sub(RdapStructure::Events).expect("events subtree");
    assert!(is_checked_item(Check::EventDateIsAbsent, events));
    assert!(is_checked_item(Check::EventActionIsAbsent, events));
    assert!(is_checked_item(Check::EventDateIsNotRfc3339, events));
    assert_eq!(events.items.len(), 3);
}

#[test]
fn notices_need_a_description_in_array_form() {
    let common = Common {
        rdap_conformance: Some(vec!["rdap_level_0".to_string()]),
        notices: Some(vec![
            NoticeOrRemark { title: None, description: None, links: None },
            NoticeOrRemark {
                title: Some("terms".to_string()),
                description: Some(VectorStringish::One("a bare string".to_string())),
                links: None,
            },
            NoticeOrRemark {
                title: Some("fine".to_string()),
                description: Some(VectorStringish::Many(vec!["line".to_string()])),
                links: None,
            },
        ]),
    };
    let resp = RdapResponse::Entity(Box::new(Entity {
        common,
        object_common: empty_oc(),
        vcard_array: None,
        roles: None,
        public_ids: None,
    }));
    let checks = resp.get_checks(CheckParams::for_rdap(&resp));
    let notices = checks.sub(RdapStructure::Notices).expect("notices subtree");
    assert!(is_checked_item(Check::NoticeOrRemarkDescriptionIsAbsent, &notices.sub_checks[0]));
    assert!(is_checked_item(Check::NoticeOrRemarkDescriptionIsString, &notices.sub_checks[1]));
    assert!(notices.sub_checks[2].items.is_empty());
}

#[test]
fn handle_status_port43_and_public_ids_hygiene() {
    let mut oc = empty_oc();
    oc.handle = Some(Stringish::Text("   ".to_string()));
    oc.status = Some(VectorStringish::Many(vec!["active".to_string(), "".to_string()]));
    oc.port_43 = Some("".to_string());
    let resp = RdapResponse::Entity(Box::new(Entity {
        common: Common { rdap_conformance: Some(vec!["rdap_level_0".to_string()]), notices: None },
        object_common: oc,
        vcard_array: None,
        roles: None,
        public_ids: Some(vec![PublicId { id_type: None, identifier: None }]),
    }));
    let checks = resp.get_checks(CheckParams::for_rdap(&resp));
    let handle = checks.sub(RdapStructure::Handle).expect("handle subtree");
    assert!(is_checked_item(Check::HandleIsEmpty, handle));
    let status = checks.sub(RdapStructure::Status).expect("status subtree");
    assert!(is_checked_item(Check::StatusIsEmpty, status));
    assert_eq!(status.items.len(), 1);
    let port43 = checks.sub(RdapStructure::Port43).expect("port43 subtree");
    assert!(is_checked_item(Check::Port43IsEmpty, port43));
    let pids = checks.sub(RdapStructure::PublidIds).expect("public ids subtree");
    assert!(is_checked_item(Check::PublicIdTypeIsAbsent, pids));
    assert!(is_checked_item(Check::PublicIdIdentifierIsAbsent, pids));
}

#[test]
fn vcard_and_role_rules_stand_on_the_entity() {
    let resp = RdapResponse::Entity(Box::new(Entity {
        common: Common { rdap_conformance: Some(vec!["rdap_level_0".to_string()]), notices: None },
        object_common: empty_oc(),
        vcard_array: Some(vec![VcardProperty {
            name: "version".to_string(),
            values: vec!["4.0".to_string()],
        }]),
        roles: Some(VectorStringish::Many(vec![
            "registrant".to_string(),
            "landlord".to_string(),
            " ".to_string(),
        ])),
        public_ids: None,
    }));
    let checks = resp.get_checks(CheckParams::for_rdap(&resp));
    assert!(is_checked_item(Check::VcardHasNoFn, &checks));
    assert!(is_checked_item(Check::UnknownRole, &checks));
    assert!(is_checked_item(Check::RoleIsEmpty, &checks));

    let with_fn = RdapResponse::Entity(Box::new(Entity {
        common: Common { rdap_conformance: Some(vec!["rdap_level_0".to_string()]), notices: None },
        object_common: empty_oc(),
        vcard_array: Some(vec![VcardProperty {
            name: "fn".to_string(),
            values: vec!["".to_string()],
        }]),
        roles: Some(VectorStringish::One("registrant".to_string())),
        public_ids: None,
    }));
    let checks = with_fn.get_checks(CheckParams::for_rdap(&with_fn));
    assert!(is_checked_item(Check::VcardFnIsEmpty, &checks));
    assert!(is_checked_item(Check::RoleIsString, &checks));

    let empty_vcard = RdapResponse::Entity(Box::new(Entity {
        common: Common { rdap_conformance: Some(vec!["rdap_level_0".to_string()]), notices: None },
        object_common: empty_oc(),
        vcard_array: Some(vec![]),
        roles: None,
        public_ids: None,
    }));
    let checks = empty_vcard.get_checks(CheckParams::for_rdap(&empty_vcard));
    assert!(is_checked_item(Check::VcardArrayIsEmpty, &checks));
}

#[test]
fn sub_checks_can_be_switched_off() {
    let resp = RdapResponse::Entity(Box::new(Entity {
        common: Common { rdap_conformance: None, notices: None },
        object_common: empty_oc(),
        vcard_array: None,
        roles: None,
        public_ids: None,
    }));
    let mut params = CheckParams::for_rdap(&resp);
    params.do_subchecks = false;
    let checks = resp.get_checks(params);
    assert!(checks.sub_checks.is_empty());
}

#[test]
fn common_and_object_common_expose_their_sub_checks() {
    let resp = RdapResponse::Entity(Box::new(Entity {
        common: Common { rdap_conformance: None, notices: None },
        object_common: empty_oc(),
        vcard_array: None,
        roles: None,
        public_ids: None,
    }));
    let params = CheckParams::for_rdap(&resp);
    let common = Common { rdap_conformance: None, notices: None };
    // At the root, a missing declaration is itself a finding.
    let nodes = common.get_sub_checks(params);
    assert_eq!(nodes.len(), 1);
    assert!(is_checked_item(Check::RdapConformanceMissing, &nodes[0]));
    // The shared structures always include the links node, which notes
    // the missing self link on an object class.
    let oc = empty_oc();
    let nodes = oc.get_sub_checks(params);
    assert_eq!(nodes[0].rdap_struct, RdapStructure::Links);
    assert!(is_checked_item(Check::LinkObjectClassHasNoSelf, &nodes[0]));
}
