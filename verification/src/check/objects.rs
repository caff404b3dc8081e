//! Checks on the object classes and the whole response.
//!
//! Each response shape gathers its own findings and recurses into its
//! sub-structures, threading the parameters: the parent type is set to
//! the kind of the object whose structures are under check, so that a
//! structure knows whether it belongs to the top of the response. The
//! produced tree mirrors the response: common sub-structures first
//! (conformance, notices, links, events, remarks, handle, status, port
//! 43), then nested objects, in the order they stand in the response.

use vstd::prelude::*;

use crate::addr::{
    parse_ipv4, parse_ipv6_addr, spec_ipv6_addr_of, spec_autnum_special, autnum_special,
    spec_ipv4_value, spec_v4_special, spec_v6_special, spec_valid_ipv4, v4_special, v6_special,
};
use crate::check::string::{
    contains_char, eq_ignore_ascii_case_str, is_blank, spec_eq_ignore_ascii_case, spec_is_blank,
};
use crate::check::types::{
    conformance_subs, events_checks, handle_checks, links_checks, notices_checks, port43_checks,
    public_ids_checks, secure_dns_checks, spec_conformance_subs, spec_events_node,
    spec_handle_node, spec_links_node, spec_notices_node, spec_port43_node, spec_public_ids_node,
    spec_secure_dns_node, spec_status_node, status_checks,
};
use crate::check::{
    checks_seq_view, lemma_checks_seq_view_concat, lemma_checks_seq_view_push, Check, CheckItem,
    CheckParams, Checks, GetChecks, GetSubChecks, RdapStructure, SpecChecks, SpecParams,
};
use crate::names::{
    has_control_char, is_documentation_name, is_ldh_name, is_plausible_unicode_name, is_all_ascii,
    spec_all_ascii, spec_has_control_char, spec_is_documentation_name, spec_plausible_unicode_name,
    spec_valid_ldh,
};
use crate::response::{
    is_registered_role, spec_registered_role, Autnum, Cidr0Cidr, Common, Domain, Entity, Help,
    IpAddresses, Nameserver, Network, ObjectCommon, RdapResponse, ResponseKind, Rfc9083Error,
    Stringish, VcardProperty, VectorStringish,
};
use crate::response::search::{DomainSearchResults, EntitySearchResults, NameserverSearchResults};

verus! {

// --- entity items: roles and the vCard -------------------------------

/// The findings of a role list: one per blank role, one per value
/// outside the registered role vocabulary.
pub open spec fn spec_role_list_items(vals: Seq<String>) -> Seq<CheckItem>
    decreases vals,
{
    if vals.len() == 0 {
        Seq::empty()
    } else {
        spec_role_list_items(vals.drop_last()) + (if spec_is_blank(vals.last()@) {
            seq![Check::RoleIsEmpty.spec_check_item()]
        } else if !spec_registered_role(vals.last()@) {
            seq![Check::UnknownRole.spec_check_item()]
        } else {
            Seq::empty()
        })
    }
}

/// The findings on an entity's roles: they must be an array of strings,
/// each nonblank and registered.
pub open spec fn spec_roles_items(roles: Option<VectorStringish>) -> Seq<CheckItem> {
    match roles {
        None => Seq::empty(),
        Some(VectorStringish::One(_)) => seq![Check::RoleIsString.spec_check_item()],
        Some(VectorStringish::Many(vals)) => spec_role_list_items(vals@),
    }
}

/// Gathers the findings on an entity's roles.
fn roles_items(roles: &Option<VectorStringish>) -> (r: Vec<CheckItem>)
    ensures
        r@ =~= spec_roles_items(*roles),
{
    let mut items: Vec<CheckItem> = Vec::new();
    match roles {
        None => {},
        Some(VectorStringish::One(_)) => items.push(Check::RoleIsString.check_item()),
        Some(VectorStringish::Many(vals)) => {
            let n = vals.len();
            let mut i: usize = 0;
            while i < n
                invariant
                    n == vals@.len(),
                    i <= n,
                    items@ =~= spec_role_list_items(vals@.take(i as int)),
                decreases n - i,
            {
                if is_blank(vals[i].as_str()) {
                    items.push(Check::RoleIsEmpty.check_item());
                } else if !is_registered_role(vals[i].as_str()) {
                    items.push(Check::UnknownRole.check_item());
                }
                i += 1;
                proof {
                    assert(vals@.take(i as int).drop_last() =~= vals@.take(i as int - 1));
                    assert(vals@.take(i as int).last() == vals@[i as int - 1]);
                }
            }
            proof {
                assert(vals@.take(n as int) =~= vals@);
            }
        },
    }
    items
}

/// True when some property is an `fn` (formatted name).
pub open spec fn spec_has_fn_prop(props: Seq<VcardProperty>) -> bool {
    exists|i: int| 0 <= i < props.len() && (#[trigger] props[i].name)@ == "fn"@
}

/// True when every value of every `fn` property is blank.
pub open spec fn spec_fn_props_blank(props: Seq<VcardProperty>) -> bool {
    forall|i: int|
        0 <= i < props.len() && (#[trigger] props[i].name)@ == "fn"@ ==> spec_all_values_blank(
            props[i].values@,
        )
}

/// True when every string of the list is blank.
pub open spec fn spec_all_values_blank(vals: Seq<String>) -> bool {
    forall|i: int| 0 <= i < vals.len() ==> spec_is_blank((#[trigger] vals[i])@)
}

/// The findings on an entity's vCard: the array must hold a vCard, the
/// vCard must have an `fn` property, and the `fn` should not be empty.
pub open spec fn spec_vcard_items(v: Option<Vec<VcardProperty>>) -> Seq<CheckItem> {
    match v {
        None => Seq::empty(),
        Some(props) => if props@.len() == 0 {
            seq![Check::VcardArrayIsEmpty.spec_check_item()]
        } else if !spec_has_fn_prop(props@) {
            seq![Check::VcardHasNoFn.spec_check_item()]
        } else if spec_fn_props_blank(props@) {
            seq![Check::VcardFnIsEmpty.spec_check_item()]
        } else {
            Seq::empty()
        },
    }
}

/// Returns true if every string of the list is blank.
fn all_values_blank(vals: &Vec<String>) -> (r: bool)
    ensures
        r == spec_all_values_blank(vals@),
{
    let n = vals.len();
    let mut i: usize = 0;
    while i < n
        invariant
            n == vals@.len(),
            i <= n,
            forall|j: int| 0 <= j < i ==> spec_is_blank((#[trigger] vals@[j])@),
        decreases n - i,
    {
        if !is_blank(vals[i].as_str()) {
            return false;
        }
        i += 1;
    }
    true
}

/// Gathers the findings on an entity's vCard.
fn vcard_items(v: &Option<Vec<VcardProperty>>) -> (r: Vec<CheckItem>)
    ensures
        r@ =~= spec_vcard_items(*v),
{
    let mut items: Vec<CheckItem> = Vec::new();
    if let Some(props) = v {
        if props.len() == 0 {
            items.push(Check::VcardArrayIsEmpty.check_item());
        } else {
            let mut has_fn = false;
            let mut fns_blank = true;
            let n = props.len();
            let mut i: usize = 0;
            while i < n
                invariant
                    n == props@.len(),
                    i <= n,
                    has_fn == spec_has_fn_prop(props@.take(i as int)),
                    fns_blank == spec_fn_props_blank(props@.take(i as int)),
                decreases n - i,
            {
                if crate::check::string::str_eq(props[i].name.as_str(), "fn") {
                    has_fn = true;
                    if !all_values_blank(&props[i].values) {
                        fns_blank = false;
                    }
                }
                i += 1;
                proof {
                    let t = props@.take(i as int);
                    assert(t.drop_last() =~= props@.take(i as int - 1));
                    assert(t.last() == props@[i as int - 1]);
                    assert forall|j: int| 0 <= j < t.len() implies t[j] == props@[j] by {}
                }
            }
            proof {
                assert(props@.take(n as int) =~= props@);
            }
            if !has_fn {
                items.push(Check::VcardHasNoFn.check_item());
            } else if fns_blank {
                items.push(Check::VcardFnIsEmpty.check_item());
            }
        }
    }
    items
}

// --- names of domains and nameservers --------------------------------

/// The findings on an `ldhName`: it must be a string in LDH syntax, and
/// a documentation name of RFC 6761 is noted.
pub open spec fn spec_ldh_items(ldh: Option<Stringish>) -> Seq<CheckItem> {
    match ldh {
        None => Seq::empty(),
        Some(Stringish::NotText) => seq![Check::LdhNameInvalid.spec_check_item()],
        Some(Stringish::Text(s)) => if !spec_valid_ldh(s@) {
            seq![Check::LdhNameInvalid.spec_check_item()]
        } else if spec_is_documentation_name(s@) {
            seq![Check::LdhNameDocumentation.spec_check_item()]
        } else {
            Seq::empty()
        },
    }
}

/// Gathers the findings on an `ldhName`.
fn ldh_items(ldh: &Option<Stringish>) -> (r: Vec<CheckItem>)
    ensures
        r@ =~= spec_ldh_items(*ldh),
{
    let mut items: Vec<CheckItem> = Vec::new();
    match ldh {
        None => {},
        Some(Stringish::NotText) => items.push(Check::LdhNameInvalid.check_item()),
        Some(Stringish::Text(s)) => {
            if !is_ldh_name(s.as_str()) {
                items.push(Check::LdhNameInvalid.check_item());
            } else if is_documentation_name(s.as_str()) {
                items.push(Check::LdhNameDocumentation.check_item());
            }
        },
    }
    items
}

/// The findings on a `unicodeName`: control characters make it invalid
/// text, the label shape must hold, and an all-ASCII Unicode name must
/// agree with the `ldhName` up to case.
pub open spec fn spec_unicode_items(u: Option<Stringish>, ldh: Option<Stringish>) -> Seq<
    CheckItem,
> {
    match u {
        None => Seq::empty(),
        Some(Stringish::NotText) => seq![Check::UnicodeNameInvalidDomain.spec_check_item()],
        Some(Stringish::Text(s)) => (if spec_has_control_char(s@) {
            seq![Check::UnicodeNameInvalidUnicode.spec_check_item()]
        } else {
            Seq::empty()
        }) + (if !spec_plausible_unicode_name(s@) {
            seq![Check::UnicodeNameInvalidDomain.spec_check_item()]
        } else {
            Seq::empty()
        }) + (if ldh matches Some(Stringish::Text(l)) && spec_all_ascii(s@)
            && !spec_eq_ignore_ascii_case(s@, l@) {
            seq![Check::LdhNameDoesNotMatchUnicode.spec_check_item()]
        } else {
            Seq::empty()
        }),
    }
}

/// Gathers the findings on a `unicodeName`.
fn unicode_items(u: &Option<Stringish>, ldh: &Option<Stringish>) -> (r: Vec<CheckItem>)
    ensures
        r@ =~= spec_unicode_items(*u, *ldh),
{
    let mut items: Vec<CheckItem> = Vec::new();
    match u {
        None => {},
        Some(Stringish::NotText) => items.push(Check::UnicodeNameInvalidDomain.check_item()),
        Some(Stringish::Text(s)) => {
            if has_control_char(s.as_str()) {
                items.push(Check::UnicodeNameInvalidUnicode.check_item());
            }
            if !is_plausible_unicode_name(s.as_str()) {
                items.push(Check::UnicodeNameInvalidDomain.check_item());
            }
            if let Some(Stringish::Text(l)) = ldh {
                if is_all_ascii(s.as_str()) && !eq_ignore_ascii_case_str(s.as_str(), l.as_str()) {
                    items.push(Check::LdhNameDoesNotMatchUnicode.check_item());
                }
            }
        },
    }
    items
}

// --- names and types of networks and autnums --------------------------

/// The findings on a network or autnum name.
pub open spec fn spec_name_items(name: Option<Stringish>) -> Seq<CheckItem> {
    match name {
        None => Seq::empty(),
        Some(Stringish::NotText) => seq![Check::NetworkOrAutnumNameIsNotString.spec_check_item()],
        Some(Stringish::Text(s)) => if spec_is_blank(s@) {
            seq![Check::NetworkOrAutnumNameIsEmpty.spec_check_item()]
        } else {
            Seq::empty()
        },
    }
}

/// Gathers the findings on a network or autnum name.
fn name_items(name: &Option<Stringish>) -> (r: Vec<CheckItem>)
    ensures
        r@ =~= spec_name_items(*name),
{
    let mut items: Vec<CheckItem> = Vec::new();
    match name {
        None => {},
        Some(Stringish::NotText) => items.push(Check::NetworkOrAutnumNameIsNotString.check_item()),
        Some(Stringish::Text(s)) => {
            if is_blank(s.as_str()) {
                items.push(Check::NetworkOrAutnumNameIsEmpty.check_item());
            }
        },
    }
    items
}

/// The findings on a network or autnum type.
pub open spec fn spec_type_items(t: Option<Stringish>) -> Seq<CheckItem> {
    match t {
        None => Seq::empty(),
        Some(Stringish::NotText) => seq![Check::NetworkOrAutnumTypeIsNotString.spec_check_item()],
        Some(Stringish::Text(s)) => if spec_is_blank(s@) {
            seq![Check::NetworkOrAutnumTypeIsEmpty.spec_check_item()]
        } else {
            Seq::empty()
        },
    }
}

/// Gathers the findings on a network or autnum type.
fn type_items(t: &Option<Stringish>) -> (r: Vec<CheckItem>)
    ensures
        r@ =~= spec_type_items(*t),
{
    let mut items: Vec<CheckItem> = Vec::new();
    match t {
        None => {},
        Some(Stringish::NotText) => items.push(Check::NetworkOrAutnumTypeIsNotString.check_item()),
        Some(Stringish::Text(s)) => {
            if is_blank(s.as_str()) {
                items.push(Check::NetworkOrAutnumTypeIsEmpty.check_item());
            }
        },
    }
    items
}

// --- autnum ranges -----------------------------------------------------

/// The special classification of an autnum bound, when it is a number
/// in range.
pub open spec fn spec_autnum_bound_items(v: u64) -> Seq<CheckItem> {
    if v <= 0xFFFF_FFFF {
        match spec_autnum_special(v as u32) {
            Some(c) => seq![c.spec_check_item()],
            None => Seq::empty(),
        }
    } else {
        Seq::empty()
    }
}

/// The findings on an autnum's number range: both bounds must be
/// present, the end must not come before the start, and the special
/// ranges are noted.
pub open spec fn spec_autnum_range_items(a: Autnum) -> Seq<CheckItem> {
    (if a.start_autnum is None || a.end_autnum is None {
        seq![Check::AutnumMissing.spec_check_item()]
    } else {
        Seq::empty()
    }) + (if a.start_autnum matches Some(crate::response::Numberish::Num(s)) && (
    a.end_autnum matches Some(crate::response::Numberish::Num(e)) && e < s) {
        seq![Check::AutnumEndBeforeStart.spec_check_item()]
    } else {
        Seq::empty()
    }) + (match a.start_autnum {
        Some(crate::response::Numberish::Num(s)) => spec_autnum_bound_items(s),
        _ => Seq::empty(),
    })
}

/// Gathers the findings on an autnum's number range.
fn autnum_range_items(a: &Autnum) -> (r: Vec<CheckItem>)
    ensures
        r@ =~= spec_autnum_range_items(*a),
{
    let mut items: Vec<CheckItem> = Vec::new();
    if a.start_autnum.is_none() || a.end_autnum.is_none() {
        items.push(Check::AutnumMissing.check_item());
    }
    if let Some(crate::response::Numberish::Num(s)) = &a.start_autnum {
        if let Some(crate::response::Numberish::Num(e)) = &a.end_autnum {
            if *e < *s {
                items.push(Check::AutnumEndBeforeStart.check_item());
            }
        }
    }
    if let Some(crate::response::Numberish::Num(s)) = &a.start_autnum {
        if *s <= 0xFFFF_FFFF {
            if let Some(c) = autnum_special(*s as u32) {
                items.push(c.check_item());
            }
        }
    }
    items
}

// --- network addresses -------------------------------------------------

/// The family and numeric value a textual address denotes: a colon
/// means the IPv6 grammar, anything else the IPv4 one.
pub open spec fn spec_addr_value(t: Seq<char>) -> Option<(bool, int)> {
    if exists|i: int| 0 <= i < t.len() && t[i] == ':' {
        match spec_ipv6_addr_of(t) {
            Some(a) => Some((true, a as int)),
            None => None,
        }
    } else {
        if spec_valid_ipv4(t) {
            Some((false, spec_ipv4_value(t)))
        } else {
            None
        }
    }
}

/// The findings on one textual address: malformed text, or the special
/// range it falls in.
pub open spec fn spec_one_addr_items(s: Stringish) -> Seq<CheckItem> {
    match s {
        Stringish::NotText => seq![Check::IpAddressMalformed.spec_check_item()],
        Stringish::Text(t) => match spec_addr_value(t@) {
            None => seq![Check::IpAddressMalformed.spec_check_item()],
            Some((is_v6, v)) => {
                let special = if is_v6 {
                    spec_v6_special(v as u128)
                } else {
                    spec_v4_special(v as u32)
                };
                match special {
                    Some(c) => seq![c.spec_check_item()],
                    None => Seq::empty(),
                }
            },
        },
    }
}

/// Parses one textual address to its family and value.
fn addr_value(t: &str) -> (r: Option<(bool, u128)>)
    ensures
        match r {
            Some(p) => spec_addr_value(t@) == Some((p.0, p.1 as int)),
            None => spec_addr_value(t@) is None,
        },
{
    if contains_char(t, ':') {
        match parse_ipv6_addr(t) {
            Some(a) => Some((true, a)),
            None => None,
        }
    } else {
        match parse_ipv4(t) {
            Some(a) => Some((false, a as u128)),
            None => None,
        }
    }
}

/// Gathers the findings on one textual address.
fn one_addr_items(s: &Stringish) -> (r: Vec<CheckItem>)
    ensures
        r@ =~= spec_one_addr_items(*s),
{
    let mut items: Vec<CheckItem> = Vec::new();
    match s {
        Stringish::NotText => items.push(Check::IpAddressMalformed.check_item()),
        Stringish::Text(t) => {
            match addr_value(t.as_str()) {
                None => items.push(Check::IpAddressMalformed.check_item()),
                Some((is_v6, v)) => {
                    let special = if is_v6 {
                        v6_special(v)
                    } else {
                        v4_special(v as u32)
                    };
                    if let Some(c) = special {
                        items.push(c.check_item());
                    }
                },
            }
        },
    }
    items
}

/// True when the address text has a colon: the shape of the IPv6
/// grammar, used for the version-mismatch rule.
pub open spec fn spec_looks_v6(s: Stringish) -> bool {
    s matches Stringish::Text(t) && (exists|i: int| 0 <= i < t@.len() && t@[i] == ':')
}

/// The findings on the declared IP version: it must be a string, must
/// read `v4` or `v6`, and must agree with the shape of the addresses.
pub open spec fn spec_version_items(n: Network) -> Seq<CheckItem> {
    match n.ip_version {
        None => Seq::empty(),
        Some(Stringish::NotText) => seq![Check::IpVersionIsNotString.spec_check_item()],
        Some(Stringish::Text(v)) => if v@ != "v4"@ && v@ != "v6"@ {
            seq![Check::IpAddressMalformedVersion.spec_check_item()]
        } else {
            let v6_declared = v@ == "v6"@;
            let mismatch = (n.start_address matches Some(st) && spec_looks_v6(st) != v6_declared)
                || (n.end_address matches Some(e) && spec_looks_v6(e) != v6_declared);
            if mismatch {
                seq![Check::IpAddressVersionMismatch.spec_check_item()]
            } else {
                Seq::empty()
            }
        },
    }
}

/// Returns true if the address text has a colon.
fn looks_v6(s: &Stringish) -> (r: bool)
    ensures
        r == spec_looks_v6(*s),
{
    match s {
        Stringish::Text(t) => contains_char(t.as_str(), ':'),
        Stringish::NotText => false,
    }
}

/// Gathers the findings on the declared IP version.
fn version_items(n: &Network) -> (r: Vec<CheckItem>)
    ensures
        r@ =~= spec_version_items(*n),
{
    let mut items: Vec<CheckItem> = Vec::new();
    match &n.ip_version {
        None => {},
        Some(Stringish::NotText) => items.push(Check::IpVersionIsNotString.check_item()),
        Some(Stringish::Text(v)) => {
            let is_v4 = crate::check::string::str_eq(v.as_str(), "v4");
            let is_v6 = crate::check::string::str_eq(v.as_str(), "v6");
            if !is_v4 && !is_v6 {
                items.push(Check::IpAddressMalformedVersion.check_item());
            } else {
                let mut mismatch = false;
                if let Some(st) = &n.start_address {
                    if looks_v6(st) != is_v6 {
                        mismatch = true;
                    }
                }
                if let Some(e) = &n.end_address {
                    if looks_v6(e) != is_v6 {
                        mismatch = true;
                    }
                }
                if mismatch {
                    items.push(Check::IpAddressVersionMismatch.check_item());
                }
            }
        },
    }
    items
}

/// The findings on a network's address range: presence of both bounds,
/// each bound's own findings, an end that comes before the start, the
/// version rules, and the name and type hygiene.
pub open spec fn spec_network_items(n: Network) -> Seq<CheckItem> {
    (if n.start_address is None || n.end_address is None {
        seq![Check::IpAddressMissing.spec_check_item()]
    } else {
        Seq::empty()
    }) + (match n.start_address {
        Some(st) => spec_one_addr_items(st),
        None => Seq::empty(),
    }) + (match n.end_address {
        Some(e) => spec_one_addr_items(e),
        None => Seq::empty(),
    }) + (if n.start_address matches Some(Stringish::Text(st)) && (
    n.end_address matches Some(Stringish::Text(e)) && (spec_addr_value(st@) matches Some(sv) && (
    spec_addr_value(e@) matches Some(ev) && sv.0 == ev.0 && ev.1 < sv.1))) {
        seq![Check::IpAddressEndBeforeStart.spec_check_item()]
    } else {
        Seq::empty()
    }) + spec_version_items(n) + spec_name_items(n.name) + spec_type_items(n.network_type)
}

/// Gathers the findings on a network's addresses, version, name and
/// type.
fn network_items(n: &Network) -> (r: Vec<CheckItem>)
    ensures
        r@ =~= spec_network_items(*n),
{
    let mut items: Vec<CheckItem> = Vec::new();
    if n.start_address.is_none() || n.end_address.is_none() {
        items.push(Check::IpAddressMissing.check_item());
    }
    if let Some(st) = &n.start_address {
        let mut a = one_addr_items(st);
        items.append(&mut a);
    }
    if let Some(e) = &n.end_address {
        let mut a = one_addr_items(e);
        items.append(&mut a);
    }
    let mut end_before = false;
    if let Some(Stringish::Text(st)) = &n.start_address {
        if let Some(Stringish::Text(e)) = &n.end_address {
            if let Some(sv) = addr_value(st.as_str()) {
                if let Some(ev) = addr_value(e.as_str()) {
                    if sv.0 == ev.0 && ev.1 < sv.1 {
                        end_before = true;
                    }
                }
            }
        }
    }
    if end_before {
        items.push(Check::IpAddressEndBeforeStart.check_item());
    }
    let mut v = version_items(n);
    items.append(&mut v);
    let mut nm = name_items(&n.name);
    items.append(&mut nm);
    let mut ty = type_items(&n.network_type);
    items.append(&mut ty);
    items
}

// --- nameserver addresses ----------------------------------------------

/// The findings of one textual address list of a nameserver.
pub open spec fn spec_ip_list_items(vals: Seq<String>, v6: bool) -> Seq<CheckItem>
    decreases vals,
{
    if vals.len() == 0 {
        Seq::empty()
    } else {
        spec_ip_list_items(vals.drop_last(), v6) + (if v6 {
            match spec_ipv6_addr_of(vals.last()@) {
                None => seq![Check::IpAddressMalformed.spec_check_item()],
                Some(a) => match spec_v6_special(a) {
                    Some(c) => seq![c.spec_check_item()],
                    None => Seq::empty(),
                },
            }
        } else {
            if !spec_valid_ipv4(vals.last()@) {
                seq![Check::IpAddressMalformed.spec_check_item()]
            } else {
                match spec_v4_special(spec_ipv4_value(vals.last()@) as u32) {
                    Some(c) => seq![c.spec_check_item()],
                    None => Seq::empty(),
                }
            }
        })
    }
}

/// The findings of one side (v4 or v6) of a nameserver's addresses.
pub open spec fn spec_ip_side_items(side: Option<VectorStringish>, v6: bool) -> Seq<CheckItem> {
    match side {
        None => Seq::empty(),
        Some(VectorStringish::One(_)) => seq![Check::IpAddressArrayIsString.spec_check_item()],
        Some(VectorStringish::Many(vals)) => spec_ip_list_items(vals@, v6),
    }
}

/// True when a side holds no address.
pub open spec fn spec_ip_side_empty(side: Option<VectorStringish>) -> bool {
    match side {
        None => true,
        Some(VectorStringish::Many(vals)) => vals@.len() == 0,
        Some(VectorStringish::One(_)) => false,
    }
}

/// The findings on a nameserver's addresses: each side's findings, and
/// a finding when no address is present at all.
pub open spec fn spec_ip_addresses_items(ips: IpAddresses) -> Seq<CheckItem> {
    spec_ip_side_items(ips.v4, false) + spec_ip_side_items(ips.v6, true) + (if spec_ip_side_empty(
        ips.v4,
    ) && spec_ip_side_empty(ips.v6) {
        seq![Check::IpAddressListIsEmpty.spec_check_item()]
    } else {
        Seq::empty()
    })
}

/// Gathers the findings of one side of a nameserver's addresses.
fn ip_side_items(side: &Option<VectorStringish>, v6: bool) -> (r: Vec<CheckItem>)
    ensures
        r@ =~= spec_ip_side_items(*side, v6),
{
    let mut items: Vec<CheckItem> = Vec::new();
    match side {
        None => {},
        Some(VectorStringish::One(_)) => items.push(Check::IpAddressArrayIsString.check_item()),
        Some(VectorStringish::Many(vals)) => {
            let n = vals.len();
            let mut i: usize = 0;
            while i < n
                invariant
                    n == vals@.len(),
                    i <= n,
                    items@ =~= spec_ip_list_items(vals@.take(i as int), v6),
                decreases n - i,
            {
                if v6 {
                    match parse_ipv6_addr(vals[i].as_str()) {
                        None => items.push(Check::IpAddressMalformed.check_item()),
                        Some(a) => {
                            if let Some(c) = v6_special(a) {
                                items.push(c.check_item());
                            }
                        },
                    }
                } else {
                    match parse_ipv4(vals[i].as_str()) {
                        None => items.push(Check::IpAddressMalformed.check_item()),
                        Some(a) => {
                            if let Some(c) = v4_special(a) {
                                items.push(c.check_item());
                            }
                        },
                    }
                }
                i += 1;
                proof {
                    assert(vals@.take(i as int).drop_last() =~= vals@.take(i as int - 1));
                    assert(vals@.take(i as int).last() == vals@[i as int - 1]);
                }
            }
            proof {
                assert(vals@.take(n as int) =~= vals@);
            }
        },
    }
    items
}

/// Returns true if a side holds no address.
fn ip_side_empty(side: &Option<VectorStringish>) -> (r: bool)
    ensures
        r == spec_ip_side_empty(*side),
{
    match side {
        None => true,
        Some(VectorStringish::Many(vals)) => vals.len() == 0,
        Some(VectorStringish::One(_)) => false,
    }
}

/// Gathers the findings on a nameserver's addresses.
fn ip_addresses_items(ips: &IpAddresses) -> (r: Vec<CheckItem>)
    ensures
        r@ =~= spec_ip_addresses_items(*ips),
{
    let mut items = ip_side_items(&ips.v4, false);
    let mut b = ip_side_items(&ips.v6, true);
    items.append(&mut b);
    if ip_side_empty(&ips.v4) && ip_side_empty(&ips.v6) {
        items.push(Check::IpAddressListIsEmpty.check_item());
    }
    items
}

// --- the CIDR0 extension ------------------------------------------------

/// The findings of the CIDR0 entries: each entry needs its prefix and
/// its length.
pub open spec fn spec_cidr0_items(cs: Seq<Cidr0Cidr>) -> Seq<CheckItem>
    decreases cs,
{
    if cs.len() == 0 {
        Seq::empty()
    } else {
        spec_cidr0_items(cs.drop_last()) + (match cs.last() {
            Cidr0Cidr::V4Cidr { prefix, length } => (if prefix is None {
                seq![Check::Cidr0V4PrefixIsAbsent.spec_check_item()]
            } else {
                Seq::empty()
            }) + (if length is None {
                seq![Check::Cidr0V4LengthIsAbsent.spec_check_item()]
            } else {
                Seq::empty()
            }),
            Cidr0Cidr::V6Cidr { prefix, length } => (if prefix is None {
                seq![Check::Cidr0V6PrefixIsAbsent.spec_check_item()]
            } else {
                Seq::empty()
            }) + (if length is None {
                seq![Check::Cidr0V6LengthIsAbsent.spec_check_item()]
            } else {
                Seq::empty()
            }),
        })
    }
}

/// The CIDR0 tree node.
pub open spec fn spec_cidr0_node(cs: Seq<Cidr0Cidr>) -> SpecChecks {
    SpecChecks {
        rdap_struct: RdapStructure::Cidr0,
        items: spec_cidr0_items(cs),
        sub_checks: Seq::empty(),
    }
}

/// Builds the CIDR0 tree node.
fn cidr0_checks(cs: &Vec<Cidr0Cidr>) -> (r: Checks)
    ensures
        r@ =~~= spec_cidr0_node(cs@),
{
    let mut items: Vec<CheckItem> = Vec::new();
    let n = cs.len();
    let mut i: usize = 0;
    while i < n
        invariant
            n == cs@.len(),
            i <= n,
            items@ =~= spec_cidr0_items(cs@.take(i as int)),
        decreases n - i,
    {
        match &cs[i] {
            Cidr0Cidr::V4Cidr { prefix, length } => {
                if prefix.is_none() {
                    items.push(Check::Cidr0V4PrefixIsAbsent.check_item());
                }
                if length.is_none() {
                    items.push(Check::Cidr0V4LengthIsAbsent.check_item());
                }
            },
            Cidr0Cidr::V6Cidr { prefix, length } => {
                if prefix.is_none() {
                    items.push(Check::Cidr0V6PrefixIsAbsent.check_item());
                }
                if length.is_none() {
                    items.push(Check::Cidr0V6LengthIsAbsent.check_item());
                }
            },
        }
        i += 1;
        proof {
            assert(cs@.take(i as int).drop_last() =~= cs@.take(i as int - 1));
            assert(cs@.take(i as int).last() == cs@[i as int - 1]);
        }
    }
    proof {
        assert(cs@.take(n as int) =~= cs@);
    }
    Checks { rdap_struct: RdapStructure::Cidr0, items, sub_checks: Vec::new() }
}

// --- domain variants ----------------------------------------------------

/// The findings of the domain variants: a variant without names is
/// ambiguous.
pub open spec fn spec_variants_items(vs: Option<Vec<crate::response::Variant>>) -> Seq<CheckItem> {
    match vs {
        None => Seq::empty(),
        Some(list) => spec_variant_list_items(list@),
    }
}

/// The findings of a variant list, flattened in order.
pub open spec fn spec_variant_list_items(vs: Seq<crate::response::Variant>) -> Seq<CheckItem>
    decreases vs,
{
    if vs.len() == 0 {
        Seq::empty()
    } else {
        spec_variant_list_items(vs.drop_last()) + (match vs.last().variant_names {
            None => seq![Check::VariantEmptyDomain.spec_check_item()],
            Some(names) => if names@.len() == 0 {
                seq![Check::VariantEmptyDomain.spec_check_item()]
            } else {
                Seq::empty()
            },
        })
    }
}

// --- the shared sub-structures ----------------------------------------

/// The sub-structure nodes of a common block: the conformance
/// declaration and the notices.
pub open spec fn spec_common_subs(c: Common, p: SpecParams) -> Seq<SpecChecks> {
    spec_conformance_subs(c, p) + (match c.notices {
        Some(ns) => seq![spec_notices_node(RdapStructure::Notices, ns@)],
        None => Seq::empty(),
    })
}

/// Builds the sub-structure nodes of a common block.
pub fn common_subs(c: &Common, params: CheckParams) -> (r: Vec<Checks>)
    ensures
        checks_seq_view(r@) =~~= spec_common_subs(*c, params@),
{
    let mut out = conformance_subs(c, params);
    if let Some(ns) = &c.notices {
        let node = notices_checks(RdapStructure::Notices, ns);
        proof {
            lemma_checks_seq_view_push(out@, node);
        }
        out.push(node);
    }
    out
}

/// One node per nested entity, in order; for their own structures the
/// parent type becomes `Entity`.
pub open spec fn spec_entity_nodes(es: Seq<Entity>, p: SpecParams) -> Seq<SpecChecks>
    decreases es,
{
    if es.len() == 0 {
        Seq::empty()
    } else {
        spec_entity_nodes(es.drop_last(), p).push(
            spec_entity_checks(es.last(), p.spec_from_parent(ResponseKind::Entity)),
        )
    }
}

/// The non-recursive sub-structure nodes shared by every object class:
/// the links (always, since a missing `self` link is itself a finding),
/// then the events, remarks, handle, status and port 43 that are
/// present.
pub open spec fn spec_oc_simple_subs(oc: ObjectCommon) -> Seq<SpecChecks> {
    seq![
        spec_links_node(
            match oc.links {
                Some(ls) => ls@,
                None => Seq::empty(),
            },
            true,
        ),
    ] + (match oc.events {
        Some(evs) => seq![spec_events_node(evs@)],
        None => Seq::empty(),
    }) + (match oc.remarks {
        Some(rs) => seq![spec_notices_node(RdapStructure::Remarks, rs@)],
        None => Seq::empty(),
    }) + (match oc.handle {
        Some(h) => seq![spec_handle_node(h)],
        None => Seq::empty(),
    }) + (match oc.status {
        Some(st) => seq![spec_status_node(st)],
        None => Seq::empty(),
    }) + (match oc.port_43 {
        Some(p43) => seq![spec_port43_node(p43@)],
        None => Seq::empty(),
    })
}

/// The sub-structure nodes shared by every object class: the simple
/// structures, then the nested entities.
pub open spec fn spec_oc_subs(oc: ObjectCommon, p: SpecParams) -> Seq<SpecChecks>
    decreases oc,
{
    spec_oc_simple_subs(oc) + spec_entity_nodes(oc.entities@, p)
}

/// The checks tree of an entity: its roles and vCard findings, with the
/// shared structures and its public IDs below it.
pub open spec fn spec_entity_checks(e: Entity, p: SpecParams) -> SpecChecks
    decreases e,
{
    SpecChecks {
        rdap_struct: RdapStructure::Entity,
        items: spec_roles_items(e.roles) + spec_vcard_items(e.vcard_array),
        sub_checks: if p.do_subchecks {
            spec_common_subs(e.common, p) + spec_oc_subs(e.object_common, p) + (
            match e.public_ids {
                Some(pids) => seq![spec_public_ids_node(pids@)],
                None => Seq::empty(),
            })
        } else {
            Seq::empty()
        },
    }
}

/// Builds the simple shared sub-structure nodes.
#[verifier::rlimit(100)]
fn oc_simple_subs(oc: &ObjectCommon) -> (r: Vec<Checks>)
    ensures
        checks_seq_view(r@) =~~= spec_oc_simple_subs(*oc),
{
    let mut out: Vec<Checks> = Vec::new();
    let links_node = match &oc.links {
        Some(ls) => links_checks(ls, true),
        None => {
            let no_links: Vec<crate::response::Link> = Vec::new();
            links_checks(&no_links, true)
        },
    };
    proof {
        lemma_checks_seq_view_push(out@, links_node);
    }
    out.push(links_node);
    if let Some(evs) = &oc.events {
        let node = events_checks(evs);
        proof {
            lemma_checks_seq_view_push(out@, node);
        }
        out.push(node);
    }
    if let Some(rs) = &oc.remarks {
        let node = notices_checks(RdapStructure::Remarks, rs);
        proof {
            lemma_checks_seq_view_push(out@, node);
        }
        out.push(node);
    }
    if let Some(h) = &oc.handle {
        let node = handle_checks(h);
        proof {
            lemma_checks_seq_view_push(out@, node);
        }
        out.push(node);
    }
    if let Some(st) = &oc.status {
        let node = status_checks(st);
        proof {
            lemma_checks_seq_view_push(out@, node);
        }
        out.push(node);
    }
    if let Some(p43) = &oc.port_43 {
        let node = port43_checks(p43);
        proof {
            lemma_checks_seq_view_push(out@, node);
        }
        out.push(node);
    }
    out
}

/// Builds the sub-structure nodes shared by every object class.
#[verifier::rlimit(100)]
pub fn oc_subs(oc: &ObjectCommon, params: CheckParams) -> (r: Vec<Checks>)
    ensures
        checks_seq_view(r@) =~~= spec_oc_subs(*oc, params@),
    decreases *oc,
{
    let mut out = oc_simple_subs(oc);
    let ghost base = out@;
    let n = oc.entities.len();
    let mut i: usize = 0;
    while i < n
        invariant
            n == oc.entities@.len(),
            checks_seq_view(base) =~= spec_oc_simple_subs(*oc),
            checks_seq_view(out@) =~= checks_seq_view(base) + spec_entity_nodes(
                oc.entities@.take(i as int),
                params@,
            ),
            i <= n,
        decreases n - i,
    {
        proof {
            assert(decreases_to!(*oc => oc.entities@[i as int]));
        }
        let node = entity_checks(&oc.entities[i], params.from_parent(ResponseKind::Entity));
        proof {
            lemma_checks_seq_view_push(out@, node);
        }
        out.push(node);
        i += 1;
        proof {
            assert(oc.entities@.take(i as int).drop_last() =~= oc.entities@.take(i as int - 1));
            assert(oc.entities@.take(i as int).last() == oc.entities@[i as int - 1]);
        }
    }
    proof {
        assert(oc.entities@.take(n as int) =~= oc.entities@);
    }
    out
}

/// Gathers the checks tree of an entity.
#[verifier::rlimit(100)]
pub fn entity_checks(e: &Entity, params: CheckParams) -> (r: Checks)
    ensures
        r@ =~~= spec_entity_checks(*e, params@),
    decreases *e,
{
    let mut items = roles_items(&e.roles);
    let mut vc = vcard_items(&e.vcard_array);
    items.append(&mut vc);
    let mut subs: Vec<Checks> = Vec::new();
    if params.do_subchecks {
        let mut cs = common_subs(&e.common, params);
        let ghost a = subs@;
        let ghost b = cs@;
        subs.append(&mut cs);
        proof {
            lemma_checks_seq_view_concat(a, b);
        }
        proof {
            assert(decreases_to!(*e => e.object_common));
        }
        let mut os = oc_subs(&e.object_common, params);
        let ghost a2 = subs@;
        let ghost b2 = os@;
        subs.append(&mut os);
        proof {
            lemma_checks_seq_view_concat(a2, b2);
        }
        if let Some(pids) = &e.public_ids {
            let node = public_ids_checks(pids);
            proof {
                lemma_checks_seq_view_push(subs@, node);
            }
            subs.push(node);
        }
        proof {
            assert(checks_seq_view(subs@) =~= spec_common_subs(e.common, params@) + spec_oc_subs(
                e.object_common,
                params@,
            ) + (match e.public_ids {
                Some(pids) => seq![spec_public_ids_node(pids@)],
                None => Seq::<SpecChecks>::empty(),
            }));
        }
    }
    let result = Checks { rdap_struct: RdapStructure::Entity, items, sub_checks: subs };
    proof {
        assert(result@ =~~= spec_entity_checks(*e, params@));
    }
    result
}

// --- the other object classes ------------------------------------------

/// One node per nested nameserver, in order.
pub open spec fn spec_nameserver_nodes(nss: Seq<Nameserver>, p: SpecParams) -> Seq<SpecChecks>
    decreases nss,
{
    if nss.len() == 0 {
        Seq::empty()
    } else {
        spec_nameserver_nodes(nss.drop_last(), p).push(
            spec_nameserver_checks(nss.last(), p.spec_from_parent(ResponseKind::Nameserver)),
        )
    }
}

/// The checks tree of a nameserver: its names and addresses, with the
/// shared structures below it.
pub open spec fn spec_nameserver_checks(ns: Nameserver, p: SpecParams) -> SpecChecks {
    SpecChecks {
        rdap_struct: RdapStructure::Nameserver,
        items: spec_ldh_items(ns.ldh_name) + spec_unicode_items(ns.unicode_name, ns.ldh_name) + (
        match ns.ip_addresses {
            Some(ips) => spec_ip_addresses_items(ips),
            None => Seq::empty(),
        }),
        sub_checks: if p.do_subchecks {
            spec_common_subs(ns.common, p) + spec_oc_subs(ns.object_common, p)
        } else {
            Seq::empty()
        },
    }
}

/// Gathers the checks tree of a nameserver.
#[verifier::rlimit(100)]
pub fn nameserver_checks(ns: &Nameserver, params: CheckParams) -> (r: Checks)
    ensures
        r@ =~~= spec_nameserver_checks(*ns, params@),
{
    let mut items = ldh_items(&ns.ldh_name);
    let mut un = unicode_items(&ns.unicode_name, &ns.ldh_name);
    items.append(&mut un);
    if let Some(ips) = &ns.ip_addresses {
        let mut ia = ip_addresses_items(ips);
        items.append(&mut ia);
    }
    let mut subs: Vec<Checks> = Vec::new();
    if params.do_subchecks {
        let mut cs = common_subs(&ns.common, params);
        let ghost a = subs@;
        let ghost b = cs@;
        subs.append(&mut cs);
        proof {
            lemma_checks_seq_view_concat(a, b);
        }
        let mut os = oc_subs(&ns.object_common, params);
        let ghost a2 = subs@;
        let ghost b2 = os@;
        subs.append(&mut os);
        proof {
            lemma_checks_seq_view_concat(a2, b2);
        }
    }
    Checks { rdap_struct: RdapStructure::Nameserver, items, sub_checks: subs }
}

/// The checks tree of a domain: its names, variants and secure DNS,
/// with the shared structures, public IDs, nameservers and network
/// below it.
pub open spec fn spec_domain_checks(d: Domain, p: SpecParams) -> SpecChecks {
    SpecChecks {
        rdap_struct: RdapStructure::Domain,
        items: spec_ldh_items(d.ldh_name) + spec_unicode_items(d.unicode_name, d.ldh_name)
            + spec_variants_items(d.variants),
        sub_checks: if p.do_subchecks {
            spec_common_subs(d.common, p) + spec_oc_subs(d.object_common, p) + (
            match d.public_ids {
                Some(pids) => seq![spec_public_ids_node(pids@)],
                None => Seq::empty(),
            }) + (match d.secure_dns {
                Some(sd) => seq![spec_secure_dns_node(sd)],
                None => Seq::empty(),
            }) + (match d.nameservers {
                Some(nss) => spec_nameserver_nodes(nss@, p),
                None => Seq::empty(),
            }) + (match d.network {
                Some(nw) => seq![
                    spec_network_checks(nw, p.spec_from_parent(ResponseKind::Network)),
                ],
                None => Seq::empty(),
            })
        } else {
            Seq::empty()
        },
    }
}

/// Gathers the checks tree of a domain.
#[verifier::rlimit(100)]
pub fn domain_checks(d: &Domain, params: CheckParams) -> (r: Checks)
    ensures
        r@ =~~= spec_domain_checks(*d, params@),
{
    let mut items = ldh_items(&d.ldh_name);
    let mut un = unicode_items(&d.unicode_name, &d.ldh_name);
    items.append(&mut un);
    let mut va = variants_items(&d.variants);
    items.append(&mut va);
    let mut subs: Vec<Checks> = Vec::new();
    if params.do_subchecks {
        let mut cs = common_subs(&d.common, params);
        let ghost a = subs@;
        let ghost b = cs@;
        subs.append(&mut cs);
        proof {
            lemma_checks_seq_view_concat(a, b);
        }
        let mut os = oc_subs(&d.object_common, params);
        let ghost a2 = subs@;
        let ghost b2 = os@;
        subs.append(&mut os);
        proof {
            lemma_checks_seq_view_concat(a2, b2);
        }
        if let Some(pids) = &d.public_ids {
            let node = public_ids_checks(pids);
            proof {
                lemma_checks_seq_view_push(subs@, node);
            }
            subs.push(node);
        }
        if let Some(sd) = &d.secure_dns {
            let node = secure_dns_checks(sd);
            proof {
                lemma_checks_seq_view_push(subs@, node);
            }
            subs.push(node);
        }
        if let Some(nss) = &d.nameservers {
            let ghost base = subs@;
            let n = nss.len();
            let mut i: usize = 0;
            while i < n
                invariant
                    n == nss@.len(),
                    i <= n,
                    checks_seq_view(subs@) =~= checks_seq_view(base) + spec_nameserver_nodes(
                        nss@.take(i as int),
                        params@,
                    ),
                decreases n - i,
            {
                let node = nameserver_checks(&nss[i], params.from_parent(ResponseKind::Nameserver));
                proof {
                    lemma_checks_seq_view_push(subs@, node);
                }
                subs.push(node);
                i += 1;
                proof {
                    assert(nss@.take(i as int).drop_last() =~= nss@.take(i as int - 1));
                    assert(nss@.take(i as int).last() == nss@[i as int - 1]);
                }
            }
            proof {
                assert(nss@.take(n as int) =~= nss@);
            }
        }
        if let Some(nw) = &d.network {
            let node = network_checks(nw, params.from_parent(ResponseKind::Network));
            proof {
                lemma_checks_seq_view_push(subs@, node);
            }
            subs.push(node);
        }
        proof {
            assert(checks_seq_view(subs@) =~= spec_common_subs(d.common, params@) + spec_oc_subs(
                d.object_common,
                params@,
            ) + (match d.public_ids {
                Some(pids) => seq![spec_public_ids_node(pids@)],
                None => Seq::<SpecChecks>::empty(),
            }) + (match d.secure_dns {
                Some(sd) => seq![spec_secure_dns_node(sd)],
                None => Seq::<SpecChecks>::empty(),
            }) + (match d.nameservers {
                Some(nss) => spec_nameserver_nodes(nss@, params@),
                None => Seq::<SpecChecks>::empty(),
            }) + (match d.network {
                Some(nw) => seq![
                    spec_network_checks(nw, params@.spec_from_parent(ResponseKind::Network)),
                ],
                None => Seq::<SpecChecks>::empty(),
            }));
        }
    }
    let result = Checks { rdap_struct: RdapStructure::Domain, items, sub_checks: subs };
    proof {
        assert(result@ =~~= spec_domain_checks(*d, params@));
    }
    result
}

/// The checks tree of an autnum: its range, name and type, with the
/// shared structures below it.
pub open spec fn spec_autnum_checks(a: Autnum, p: SpecParams) -> SpecChecks {
    SpecChecks {
        rdap_struct: RdapStructure::Autnum,
        items: spec_autnum_range_items(a) + spec_name_items(a.name) + spec_type_items(
            a.autnum_type,
        ),
        sub_checks: if p.do_subchecks {
            spec_common_subs(a.common, p) + spec_oc_subs(a.object_common, p)
        } else {
            Seq::empty()
        },
    }
}

/// Gathers the checks tree of an autnum.
#[verifier::rlimit(100)]
pub fn autnum_checks(a: &Autnum, params: CheckParams) -> (r: Checks)
    ensures
        r@ =~~= spec_autnum_checks(*a, params@),
{
    let mut items = autnum_range_items(a);
    let mut nm = name_items(&a.name);
    items.append(&mut nm);
    let mut ty = type_items(&a.autnum_type);
    items.append(&mut ty);
    let mut subs: Vec<Checks> = Vec::new();
    if params.do_subchecks {
        let mut cs = common_subs(&a.common, params);
        let ghost x = subs@;
        let ghost y = cs@;
        subs.append(&mut cs);
        proof {
            lemma_checks_seq_view_concat(x, y);
        }
        let mut os = oc_subs(&a.object_common, params);
        let ghost x2 = subs@;
        let ghost y2 = os@;
        subs.append(&mut os);
        proof {
            lemma_checks_seq_view_concat(x2, y2);
        }
    }
    Checks { rdap_struct: RdapStructure::Autnum, items, sub_checks: subs }
}

/// The checks tree of an IP network: its addresses, version, name and
/// type, with the shared structures and CIDR0 entries below it.
pub open spec fn spec_network_checks(n: Network, p: SpecParams) -> SpecChecks {
    SpecChecks {
        rdap_struct: RdapStructure::IpNetwork,
        items: spec_network_items(n),
        sub_checks: if p.do_subchecks {
            spec_common_subs(n.common, p) + spec_oc_subs(n.object_common, p) + (
            match n.cidr0_cidrs {
                Some(cs) => seq![spec_cidr0_node(cs@)],
                None => Seq::empty(),
            })
        } else {
            Seq::empty()
        },
    }
}

/// Gathers the checks tree of an IP network.
#[verifier::rlimit(100)]
pub fn network_checks(n: &Network, params: CheckParams) -> (r: Checks)
    ensures
        r@ =~~= spec_network_checks(*n, params@),
{
    let items = network_items(n);
    let mut subs: Vec<Checks> = Vec::new();
    if params.do_subchecks {
        let mut cs = common_subs(&n.common, params);
        let ghost x = subs@;
        let ghost y = cs@;
        subs.append(&mut cs);
        proof {
            lemma_checks_seq_view_concat(x, y);
        }
        let mut os = oc_subs(&n.object_common, params);
        let ghost x2 = subs@;
        let ghost y2 = os@;
        subs.append(&mut os);
        proof {
            lemma_checks_seq_view_concat(x2, y2);
        }
        if let Some(c0) = &n.cidr0_cidrs {
            let node = cidr0_checks(c0);
            proof {
                lemma_checks_seq_view_push(subs@, node);
            }
            subs.push(node);
        }
        proof {
            assert(checks_seq_view(subs@) =~= spec_common_subs(n.common, params@) + spec_oc_subs(
                n.object_common,
                params@,
            ) + (match n.cidr0_cidrs {
                Some(cs) => seq![spec_cidr0_node(cs@)],
                None => Seq::<SpecChecks>::empty(),
            }));
        }
    }
    let result = Checks { rdap_struct: RdapStructure::IpNetwork, items, sub_checks: subs };
    proof {
        assert(result@ =~~= spec_network_checks(*n, params@));
    }
    result
}

// --- search results, errors, help ---------------------------------------

/// One node per found domain, in order.
pub open spec fn spec_domain_nodes(ds: Seq<Domain>, p: SpecParams) -> Seq<SpecChecks>
    decreases ds,
{
    if ds.len() == 0 {
        Seq::empty()
    } else {
        spec_domain_nodes(ds.drop_last(), p).push(
            spec_domain_checks(ds.last(), p.spec_from_parent(ResponseKind::Domain)),
        )
    }
}

/// The checks tree of domain search results.
pub open spec fn spec_domain_search_checks(r: DomainSearchResults, p: SpecParams) -> SpecChecks {
    SpecChecks {
        rdap_struct: RdapStructure::DomainSearchResults,
        items: Seq::empty(),
        sub_checks: if p.do_subchecks {
            spec_common_subs(r.common, p) + spec_domain_nodes(r.results@, p)
        } else {
            Seq::empty()
        },
    }
}

/// Gathers the checks tree of domain search results.
#[verifier::rlimit(100)]
pub fn domain_search_checks(r: &DomainSearchResults, params: CheckParams) -> (res: Checks)
    ensures
        res@ =~~= spec_domain_search_checks(*r, params@),
{
    let mut subs: Vec<Checks> = Vec::new();
    if params.do_subchecks {
        let mut cs = common_subs(&r.common, params);
        let ghost x = subs@;
        let ghost y = cs@;
        subs.append(&mut cs);
        proof {
            lemma_checks_seq_view_concat(x, y);
        }
        let ghost base = subs@;
        let n = r.results.len();
        let mut i: usize = 0;
        while i < n
            invariant
                n == r.results@.len(),
                i <= n,
                checks_seq_view(subs@) =~= checks_seq_view(base) + spec_domain_nodes(
                    r.results@.take(i as int),
                    params@,
                ),
            decreases n - i,
        {
            let node = domain_checks(&r.results[i], params.from_parent(ResponseKind::Domain));
            proof {
                lemma_checks_seq_view_push(subs@, node);
            }
            subs.push(node);
            i += 1;
            proof {
                assert(r.results@.take(i as int).drop_last() =~= r.results@.take(i as int - 1));
                assert(r.results@.take(i as int).last() == r.results@[i as int - 1]);
            }
        }
        proof {
            assert(r.results@.take(n as int) =~= r.results@);
        }
    }
    Checks { rdap_struct: RdapStructure::DomainSearchResults, items: Vec::new(), sub_checks: subs }
}

/// One node per found nameserver, in order.
pub open spec fn spec_ns_search_nodes(nss: Seq<Nameserver>, p: SpecParams) -> Seq<SpecChecks>
    decreases nss,
{
    if nss.len() == 0 {
        Seq::empty()
    } else {
        spec_ns_search_nodes(nss.drop_last(), p).push(
            spec_nameserver_checks(nss.last(), p.spec_from_parent(ResponseKind::Nameserver)),
        )
    }
}

/// The checks tree of nameserver search results.
pub open spec fn spec_ns_search_checks(r: NameserverSearchResults, p: SpecParams) -> SpecChecks {
    SpecChecks {
        rdap_struct: RdapStructure::NameserverSearchResults,
        items: Seq::empty(),
        sub_checks: if p.do_subchecks {
            spec_common_subs(r.common, p) + spec_ns_search_nodes(r.results@, p)
        } else {
            Seq::empty()
        },
    }
}

/// Gathers the checks tree of nameserver search results.
#[verifier::rlimit(100)]
pub fn ns_search_checks(r: &NameserverSearchResults, params: CheckParams) -> (res: Checks)
    ensures
        res@ =~~= spec_ns_search_checks(*r, params@),
{
    let mut subs: Vec<Checks> = Vec::new();
    if params.do_subchecks {
        let mut cs = common_subs(&r.common, params);
        let ghost x = subs@;
        let ghost y = cs@;
        subs.append(&mut cs);
        proof {
            lemma_checks_seq_view_concat(x, y);
        }
        let ghost base = subs@;
        let n = r.results.len();
        let mut i: usize = 0;
        while i < n
            invariant
                n == r.results@.len(),
                i <= n,
                checks_seq_view(subs@) =~= checks_seq_view(base) + spec_ns_search_nodes(
                    r.results@.take(i as int),
                    params@,
                ),
            decreases n - i,
        {
            let node = nameserver_checks(
                &r.results[i],
                params.from_parent(ResponseKind::Nameserver),
            );
            proof {
                lemma_checks_seq_view_push(subs@, node);
            }
            subs.push(node);
            i += 1;
            proof {
                assert(r.results@.take(i as int).drop_last() =~= r.results@.take(i as int - 1));
                assert(r.results@.take(i as int).last() == r.results@[i as int - 1]);
            }
        }
        proof {
            assert(r.results@.take(n as int) =~= r.results@);
        }
    }
    Checks {
        rdap_struct: RdapStructure::NameserverSearchResults,
        items: Vec::new(),
        sub_checks: subs,
    }
}

/// One node per found entity, in order.
pub open spec fn spec_entity_search_nodes(es: Seq<Entity>, p: SpecParams) -> Seq<SpecChecks>
    decreases es,
{
    if es.len() == 0 {
        Seq::empty()
    } else {
        spec_entity_search_nodes(es.drop_last(), p).push(
            spec_entity_checks(es.last(), p.spec_from_parent(ResponseKind::Entity)),
        )
    }
}

/// The checks tree of entity search results.
pub open spec fn spec_entity_search_checks(r: EntitySearchResults, p: SpecParams) -> SpecChecks {
    SpecChecks {
        rdap_struct: RdapStructure::EntitySearchResults,
        items: Seq::empty(),
        sub_checks: if p.do_subchecks {
            spec_common_subs(r.common, p) + spec_entity_search_nodes(r.results@, p)
        } else {
            Seq::empty()
        },
    }
}

/// Gathers the checks tree of entity search results.
#[verifier::rlimit(100)]
pub fn entity_search_checks(r: &EntitySearchResults, params: CheckParams) -> (res: Checks)
    ensures
        res@ =~~= spec_entity_search_checks(*r, params@),
{
    let mut subs: Vec<Checks> = Vec::new();
    if params.do_subchecks {
        let mut cs = common_subs(&r.common, params);
        let ghost x = subs@;
        let ghost y = cs@;
        subs.append(&mut cs);
        proof {
            lemma_checks_seq_view_concat(x, y);
        }
        let ghost base = subs@;
        let n = r.results.len();
        let mut i: usize = 0;
        while i < n
            invariant
                n == r.results@.len(),
                i <= n,
                checks_seq_view(subs@) =~= checks_seq_view(base) + spec_entity_search_nodes(
                    r.results@.take(i as int),
                    params@,
                ),
            decreases n - i,
        {
            let node = entity_checks(&r.results[i], params.from_parent(ResponseKind::Entity));
            proof {
                lemma_checks_seq_view_push(subs@, node);
            }
            subs.push(node);
            i += 1;
            proof {
                assert(r.results@.take(i as int).drop_last() =~= r.results@.take(i as int - 1));
                assert(r.results@.take(i as int).last() == r.results@[i as int - 1]);
            }
        }
        proof {
            assert(r.results@.take(n as int) =~= r.results@);
        }
    }
    Checks { rdap_struct: RdapStructure::EntitySearchResults, items: Vec::new(), sub_checks: subs }
}

/// The checks tree of an error response: only the common structures.
pub open spec fn spec_error_checks(e: Rfc9083Error, p: SpecParams) -> SpecChecks {
    SpecChecks {
        rdap_struct: RdapStructure::Error,
        items: Seq::empty(),
        sub_checks: if p.do_subchecks {
            spec_common_subs(e.common, p)
        } else {
            Seq::empty()
        },
    }
}

/// Gathers the checks tree of an error response.
pub fn error_checks(e: &Rfc9083Error, params: CheckParams) -> (r: Checks)
    ensures
        r@ =~~= spec_error_checks(*e, params@),
{
    let mut subs: Vec<Checks> = Vec::new();
    if params.do_subchecks {
        let mut cs = common_subs(&e.common, params);
        let ghost x = subs@;
        let ghost y = cs@;
        subs.append(&mut cs);
        proof {
            lemma_checks_seq_view_concat(x, y);
        }
    }
    Checks { rdap_struct: RdapStructure::Error, items: Vec::new(), sub_checks: subs }
}

/// The checks tree of a help response: only the common structures.
pub open spec fn spec_help_checks(h: Help, p: SpecParams) -> SpecChecks {
    SpecChecks {
        rdap_struct: RdapStructure::Help,
        items: Seq::empty(),
        sub_checks: if p.do_subchecks {
            spec_common_subs(h.common, p)
        } else {
            Seq::empty()
        },
    }
}

/// Gathers the checks tree of a help response.
pub fn help_checks(h: &Help, params: CheckParams) -> (r: Checks)
    ensures
        r@ =~~= spec_help_checks(*h, params@),
{
    let mut subs: Vec<Checks> = Vec::new();
    if params.do_subchecks {
        let mut cs = common_subs(&h.common, params);
        let ghost x = subs@;
        let ghost y = cs@;
        subs.append(&mut cs);
        proof {
            lemma_checks_seq_view_concat(x, y);
        }
    }
    Checks { rdap_struct: RdapStructure::Help, items: Vec::new(), sub_checks: subs }
}

// --- the dispatch over the response union --------------------------------

/// The checks tree of a whole response: the one exhaustive dispatch
/// over the closed union.
pub open spec fn spec_rdap_checks(r: RdapResponse, p: SpecParams) -> SpecChecks {
    match r {
        RdapResponse::Entity(e) => spec_entity_checks(*e, p),
        RdapResponse::Domain(d) => spec_domain_checks(*d, p),
        RdapResponse::Nameserver(n) => spec_nameserver_checks(*n, p),
        RdapResponse::Autnum(a) => spec_autnum_checks(*a, p),
        RdapResponse::Network(n) => spec_network_checks(*n, p),
        RdapResponse::DomainSearchResults(r2) => spec_domain_search_checks(*r2, p),
        RdapResponse::EntitySearchResults(r2) => spec_entity_search_checks(*r2, p),
        RdapResponse::NameserverSearchResults(r2) => spec_ns_search_checks(*r2, p),
        RdapResponse::ErrorResponse(e) => spec_error_checks(*e, p),
        RdapResponse::Help(h) => spec_help_checks(*h, p),
    }
}

/// Gathers the checks of a whole response.
pub fn rdap_checks(r: &RdapResponse, params: CheckParams) -> (res: Checks)
    ensures
        res@ =~~= spec_rdap_checks(*r, params@),
{
    match r {
        RdapResponse::Entity(e) => entity_checks(e, params),
        RdapResponse::Domain(d) => domain_checks(d, params),
        RdapResponse::Nameserver(n) => nameserver_checks(n, params),
        RdapResponse::Autnum(a) => autnum_checks(a, params),
        RdapResponse::Network(n) => network_checks(n, params),
        RdapResponse::DomainSearchResults(r2) => domain_search_checks(r2, params),
        RdapResponse::EntitySearchResults(r2) => entity_search_checks(r2, params),
        RdapResponse::NameserverSearchResults(r2) => ns_search_checks(r2, params),
        RdapResponse::ErrorResponse(e) => error_checks(e, params),
        RdapResponse::Help(h) => help_checks(h, params),
    }
}

/// Checking is deterministic: two passes over the same response with
/// the same parameters yield structurally equal trees — the engine is a
/// pure function of the response and the parameters, with no shared
/// state between passes.
pub proof fn lemma_checks_deterministic(
    resp: RdapResponse,
    p: SpecParams,
    r1: Checks,
    r2: Checks,
)
    requires
        r1@ == spec_rdap_checks(resp, p),
        r2@ == spec_rdap_checks(resp, p),
    ensures
        r1@ == r2@,
{
}

// --- the dispatch traits --------------------------------------------------

impl GetChecks for RdapResponse {
    open spec fn spec_checks(&self, params: SpecParams) -> SpecChecks {
        spec_rdap_checks(*self, params)
    }

    fn get_checks(&self, params: CheckParams) -> (r: Checks) {
        rdap_checks(self, params)
    }
}

impl GetChecks for Entity {
    open spec fn spec_checks(&self, params: SpecParams) -> SpecChecks {
        spec_entity_checks(*self, params)
    }

    fn get_checks(&self, params: CheckParams) -> (r: Checks) {
        entity_checks(self, params)
    }
}

impl GetChecks for Domain {
    open spec fn spec_checks(&self, params: SpecParams) -> SpecChecks {
        spec_domain_checks(*self, params)
    }

    fn get_checks(&self, params: CheckParams) -> (r: Checks) {
        domain_checks(self, params)
    }
}

impl GetChecks for Nameserver {
    open spec fn spec_checks(&self, params: SpecParams) -> SpecChecks {
        spec_nameserver_checks(*self, params)
    }

    fn get_checks(&self, params: CheckParams) -> (r: Checks) {
        nameserver_checks(self, params)
    }
}

impl GetChecks for Autnum {
    open spec fn spec_checks(&self, params: SpecParams) -> SpecChecks {
        spec_autnum_checks(*self, params)
    }

    fn get_checks(&self, params: CheckParams) -> (r: Checks) {
        autnum_checks(self, params)
    }
}

impl GetChecks for Network {
    open spec fn spec_checks(&self, params: SpecParams) -> SpecChecks {
        spec_network_checks(*self, params)
    }

    fn get_checks(&self, params: CheckParams) -> (r: Checks) {
        network_checks(self, params)
    }
}

impl GetChecks for DomainSearchResults {
    open spec fn spec_checks(&self, params: SpecParams) -> SpecChecks {
        spec_domain_search_checks(*self, params)
    }

    fn get_checks(&self, params: CheckParams) -> (r: Checks) {
        domain_search_checks(self, params)
    }
}

impl GetChecks for EntitySearchResults {
    open spec fn spec_checks(&self, params: SpecParams) -> SpecChecks {
        spec_entity_search_checks(*self, params)
    }

    fn get_checks(&self, params: CheckParams) -> (r: Checks) {
        entity_search_checks(self, params)
    }
}

impl GetChecks for NameserverSearchResults {
    open spec fn spec_checks(&self, params: SpecParams) -> SpecChecks {
        spec_ns_search_checks(*self, params)
    }

    fn get_checks(&self, params: CheckParams) -> (r: Checks) {
        ns_search_checks(self, params)
    }
}

impl GetChecks for Rfc9083Error {
    open spec fn spec_checks(&self, params: SpecParams) -> SpecChecks {
        spec_error_checks(*self, params)
    }

    fn get_checks(&self, params: CheckParams) -> (r: Checks) {
        error_checks(self, params)
    }
}

impl GetChecks for Help {
    open spec fn spec_checks(&self, params: SpecParams) -> SpecChecks {
        spec_help_checks(*self, params)
    }

    fn get_checks(&self, params: CheckParams) -> (r: Checks) {
        help_checks(self, params)
    }
}

impl GetSubChecks for Common {
    open spec fn spec_sub_checks(&self, params: SpecParams) -> Seq<SpecChecks> {
        spec_common_subs(*self, params)
    }

    fn get_sub_checks(&self, params: CheckParams) -> (r: Vec<Checks>) {
        common_subs(self, params)
    }
}

impl GetSubChecks for ObjectCommon {
    open spec fn spec_sub_checks(&self, params: SpecParams) -> Seq<SpecChecks> {
        spec_oc_subs(*self, params)
    }

    fn get_sub_checks(&self, params: CheckParams) -> (r: Vec<Checks>) {
        oc_subs(self, params)
    }
}

/// Gathers the findings of the domain variants.
fn variants_items(vs: &Option<Vec<crate::response::Variant>>) -> (r: Vec<CheckItem>)
    ensures
        r@ =~= spec_variants_items(*vs),
{
    let mut items: Vec<CheckItem> = Vec::new();
    if let Some(list) = vs {
        let n = list.len();
        let mut i: usize = 0;
        while i < n
            invariant
                n == list@.len(),
                i <= n,
                items@ =~= spec_variant_list_items(list@.take(i as int)),
            decreases n - i,
        {
            match &list[i].variant_names {
                None => items.push(Check::VariantEmptyDomain.check_item()),
                Some(names) => {
                    if names.len() == 0 {
                        items.push(Check::VariantEmptyDomain.check_item());
                    }
                },
            }
            i += 1;
            proof {
                assert(list@.take(i as int).drop_last() =~= list@.take(i as int - 1));
                assert(list@.take(i as int).last() == list@[i as int - 1]);
            }
        }
        proof {
            assert(list@.take(n as int) =~= list@);
        }
    }
    items
}

} // verus!
