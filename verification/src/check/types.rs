//! Checks on the structures below the object classes: conformance
//! declarations, links, events, notices and remarks, handles, status,
//! port 43, public IDs, the secure DNS block, and the CIDR0 entries.
//!
//! Every rule has a spec twin that states exactly which findings a
//! structure yields; the executable functions are proved equal to the
//! twins, so a whole check pass is a function of the response and the
//! parameters alone.

use vstd::prelude::*;

use crate::check::string::{is_blank, spec_is_blank, str_eq};
use crate::check::{
    checks_seq_view, lemma_checks_seq_view_push, Check, CheckItem, CheckParams, Checks,
    RdapStructure, SpecChecks, SpecParams,
};
use crate::datetime::{is_rfc3339, spec_valid_rfc3339};
use crate::response::{
    is_registered_extension, spec_registered_extension, Common, Event, Link, NoticeOrRemark,
    PublicId, SecureDns, Stringish, VectorStringish,
};

verus! {

/// The RDAP media type that `related` and `self` links should declare.
pub open spec fn spec_rdap_media_type(t: Seq<char>) -> bool {
    t == "application/rdap+json"@
}

// --- links -----------------------------------------------------------

/// The findings on one link: the required `value`, `rel` and `href`
/// properties, and the media type rules for `related` and `self` links.
pub open spec fn spec_link_items(l: Link) -> Seq<CheckItem> {
    (if l.value is None {
        seq![Check::LinkMissingValueProperty.spec_check_item()]
    } else {
        Seq::empty()
    }) + (if l.rel is None {
        seq![Check::LinkMissingRelProperty.spec_check_item()]
    } else {
        Seq::empty()
    }) + (if l.rel matches Some(r) && r@ == "related"@ {
        match l.media_type {
            None => seq![Check::LinkRelatedHasNoType.spec_check_item()],
            Some(t) => if !spec_rdap_media_type(t@) {
                seq![Check::LinkRelatedIsNotRdap.spec_check_item()]
            } else {
                Seq::empty()
            },
        }
    } else {
        Seq::empty()
    }) + (if l.rel matches Some(r) && r@ == "self"@ {
        match l.media_type {
            None => seq![Check::LinkSelfHasNoType.spec_check_item()],
            Some(t) => if !spec_rdap_media_type(t@) {
                seq![Check::LinkSelfIsNotRdap.spec_check_item()]
            } else {
                Seq::empty()
            },
        }
    } else {
        Seq::empty()
    }) + (if l.href is None {
        seq![Check::LinkMissingHrefProperty.spec_check_item()]
    } else {
        Seq::empty()
    })
}

/// The tree node of one link.
pub open spec fn spec_link_node(l: Link) -> SpecChecks {
    SpecChecks {
        rdap_struct: RdapStructure::Link,
        items: spec_link_items(l),
        sub_checks: Seq::empty(),
    }
}

/// One node per link, in order.
pub open spec fn spec_link_nodes(links: Seq<Link>) -> Seq<SpecChecks>
    decreases links,
{
    if links.len() == 0 {
        Seq::empty()
    } else {
        spec_link_nodes(links.drop_last()).push(spec_link_node(links.last()))
    }
}

/// True when some link is a `self` link.
pub open spec fn spec_has_self_link(links: Seq<Link>) -> bool {
    exists|i: int|
        0 <= i < links.len() && ((#[trigger] links[i].rel) matches Some(r) && r@ == "self"@)
}

/// The `links` tree node: one child per link, and, where a `self` link
/// is expected (on object classes), a note when none is present.
pub open spec fn spec_links_node(links: Seq<Link>, expect_self: bool) -> SpecChecks {
    SpecChecks {
        rdap_struct: RdapStructure::Links,
        items: if expect_self && !spec_has_self_link(links) {
            seq![Check::LinkObjectClassHasNoSelf.spec_check_item()]
        } else {
            Seq::empty()
        },
        sub_checks: spec_link_nodes(links),
    }
}

/// Gathers the findings on one link.
fn link_items(l: &Link) -> (r: Vec<CheckItem>)
    ensures
        r@ =~= spec_link_items(*l),
{
    let mut items: Vec<CheckItem> = Vec::new();
    if l.value.is_none() {
        items.push(Check::LinkMissingValueProperty.check_item());
    }
    if l.rel.is_none() {
        items.push(Check::LinkMissingRelProperty.check_item());
    }
    if let Some(r) = &l.rel {
        if str_eq(r.as_str(), "related") {
            match &l.media_type {
                None => items.push(Check::LinkRelatedHasNoType.check_item()),
                Some(t) => {
                    if !str_eq(t.as_str(), "application/rdap+json") {
                        items.push(Check::LinkRelatedIsNotRdap.check_item());
                    }
                },
            }
        }
        if str_eq(r.as_str(), "self") {
            match &l.media_type {
                None => items.push(Check::LinkSelfHasNoType.check_item()),
                Some(t) => {
                    if !str_eq(t.as_str(), "application/rdap+json") {
                        items.push(Check::LinkSelfIsNotRdap.check_item());
                    }
                },
            }
        }
    }
    if l.href.is_none() {
        items.push(Check::LinkMissingHrefProperty.check_item());
    }
    items
}

/// Builds the `links` tree node of an object or a notice.
pub fn links_checks(links: &Vec<Link>, expect_self: bool) -> (r: Checks)
    ensures
        r@ =~~= spec_links_node(links@, expect_self),
{
    let mut has_self = false;
    let mut nodes: Vec<Checks> = Vec::new();
    let n = links.len();
    let mut i: usize = 0;
    while i < n
        invariant
            n == links@.len(),
            i <= n,
            has_self == spec_has_self_link(links@.take(i as int)),
            checks_seq_view(nodes@) =~= spec_link_nodes(links@.take(i as int)),
        decreases n - i,
    {
        let l = &links[i];
        if let Some(r) = &l.rel {
            if str_eq(r.as_str(), "self") {
                has_self = true;
            }
        }
        let node = Checks {
            rdap_struct: RdapStructure::Link,
            items: link_items(l),
            sub_checks: Vec::new(),
        };
        proof {
            lemma_checks_seq_view_push(nodes@, node);
            assert(checks_seq_view(node.sub_checks@) =~= Seq::<SpecChecks>::empty());
            assert(node@ =~~= spec_link_node(links@[i as int]));
        }
        nodes.push(node);
        i += 1;
        proof {
            assert(links@.take(i as int).drop_last() =~= links@.take(i as int - 1));
            assert(links@.take(i as int).last() == links@[i as int - 1]);
            if spec_has_self_link(links@.take(i as int - 1)) {
                let w = choose|w: int|
                    0 <= w < links@.take(i as int - 1).len() && ((#[trigger] links@.take(
                        i as int - 1,
                    )[w].rel) matches Some(x) && x@ == "self"@);
                assert(links@.take(i as int)[w].rel matches Some(x) && x@ == "self"@);
            }
        }
    }
    proof {
        assert(links@.take(n as int) =~= links@);
    }
    let mut items: Vec<CheckItem> = Vec::new();
    if expect_self && !has_self {
        items.push(Check::LinkObjectClassHasNoSelf.check_item());
    }
    Checks { rdap_struct: RdapStructure::Links, items, sub_checks: nodes }
}

// --- events ----------------------------------------------------------

/// The findings on one event: a date must be present and RFC 3339, and
/// an action must be present.
pub open spec fn spec_event_items(e: Event) -> Seq<CheckItem> {
    (match e.event_date {
        None => seq![Check::EventDateIsAbsent.spec_check_item()],
        Some(d) => if !spec_valid_rfc3339(d@) {
            seq![Check::EventDateIsNotRfc3339.spec_check_item()]
        } else {
            Seq::empty()
        },
    }) + (if e.event_action is None {
        seq![Check::EventActionIsAbsent.spec_check_item()]
    } else {
        Seq::empty()
    })
}

/// The findings of a list of events, flattened in order.
pub open spec fn spec_events_items(evs: Seq<Event>) -> Seq<CheckItem>
    decreases evs,
{
    if evs.len() == 0 {
        Seq::empty()
    } else {
        spec_events_items(evs.drop_last()) + spec_event_items(evs.last())
    }
}

/// The `events` tree node: the findings of all events, in order.
pub open spec fn spec_events_node(evs: Seq<Event>) -> SpecChecks {
    SpecChecks {
        rdap_struct: RdapStructure::Events,
        items: spec_events_items(evs),
        sub_checks: Seq::empty(),
    }
}

/// Gathers the findings on one event.
fn event_items(e: &Event) -> (r: Vec<CheckItem>)
    ensures
        r@ =~= spec_event_items(*e),
{
    let mut items: Vec<CheckItem> = Vec::new();
    match &e.event_date {
        None => items.push(Check::EventDateIsAbsent.check_item()),
        Some(d) => {
            if !is_rfc3339(d.as_str()) {
                items.push(Check::EventDateIsNotRfc3339.check_item());
            }
        },
    }
    if e.event_action.is_none() {
        items.push(Check::EventActionIsAbsent.check_item());
    }
    items
}

/// Builds the `events` tree node.
pub fn events_checks(evs: &Vec<Event>) -> (r: Checks)
    ensures
        r@ =~~= spec_events_node(evs@),
{
    let mut items: Vec<CheckItem> = Vec::new();
    let n = evs.len();
    let mut i: usize = 0;
    while i < n
        invariant
            n == evs@.len(),
            i <= n,
            items@ =~= spec_events_items(evs@.take(i as int)),
        decreases n - i,
    {
        let mut one = event_items(&evs[i]);
        items.append(&mut one);
        i += 1;
        proof {
            assert(evs@.take(i as int).drop_last() =~= evs@.take(i as int - 1));
            assert(evs@.take(i as int).last() == evs@[i as int - 1]);
        }
    }
    proof {
        assert(evs@.take(n as int) =~= evs@);
    }
    Checks { rdap_struct: RdapStructure::Events, items, sub_checks: Vec::new() }
}

// --- notices and remarks ---------------------------------------------

/// The findings on one notice or remark: a description must be present,
/// and must be an array of strings, not a bare string.
pub open spec fn spec_notice_items(n: NoticeOrRemark) -> Seq<CheckItem> {
    match n.description {
        None => seq![Check::NoticeOrRemarkDescriptionIsAbsent.spec_check_item()],
        Some(VectorStringish::One(_)) => seq![
            Check::NoticeOrRemarkDescriptionIsString.spec_check_item(),
        ],
        Some(VectorStringish::Many(_)) => Seq::empty(),
    }
}

/// The tree node of one notice or remark, with its links below it.
pub open spec fn spec_notice_node(n: NoticeOrRemark) -> SpecChecks {
    SpecChecks {
        rdap_struct: RdapStructure::NoticeOrRemark,
        items: spec_notice_items(n),
        sub_checks: match n.links {
            Some(ls) => seq![spec_links_node(ls@, false)],
            None => Seq::empty(),
        },
    }
}

/// One node per notice or remark, in order.
pub open spec fn spec_notice_nodes(ns: Seq<NoticeOrRemark>) -> Seq<SpecChecks>
    decreases ns,
{
    if ns.len() == 0 {
        Seq::empty()
    } else {
        spec_notice_nodes(ns.drop_last()).push(spec_notice_node(ns.last()))
    }
}

/// The `notices` or `remarks` tree node: one child per entry.
pub open spec fn spec_notices_node(label: RdapStructure, ns: Seq<NoticeOrRemark>) -> SpecChecks {
    SpecChecks { rdap_struct: label, items: Seq::empty(), sub_checks: spec_notice_nodes(ns) }
}

/// Builds the tree node of one notice or remark.
fn notice_checks(n: &NoticeOrRemark) -> (r: Checks)
    ensures
        r@ =~~= spec_notice_node(*n),
{
    let mut items: Vec<CheckItem> = Vec::new();
    match &n.description {
        None => items.push(Check::NoticeOrRemarkDescriptionIsAbsent.check_item()),
        Some(VectorStringish::One(_)) => items.push(
            Check::NoticeOrRemarkDescriptionIsString.check_item(),
        ),
        Some(VectorStringish::Many(_)) => {},
    }
    let mut subs: Vec<Checks> = Vec::new();
    if let Some(ls) = &n.links {
        let node = links_checks(ls, false);
        proof {
            lemma_checks_seq_view_push(subs@, node);
        }
        subs.push(node);
    }
    Checks { rdap_struct: RdapStructure::NoticeOrRemark, items, sub_checks: subs }
}

/// Builds the `notices` or `remarks` tree node. The label tells the two
/// apart; the rules are the same.
pub fn notices_checks(label: RdapStructure, ns: &Vec<NoticeOrRemark>) -> (r: Checks)
    ensures
        r@ =~~= spec_notices_node(label, ns@),
{
    let mut nodes: Vec<Checks> = Vec::new();
    let n = ns.len();
    let mut i: usize = 0;
    while i < n
        invariant
            n == ns@.len(),
            i <= n,
            checks_seq_view(nodes@) =~= spec_notice_nodes(ns@.take(i as int)),
        decreases n - i,
    {
        let node = notice_checks(&ns[i]);
        proof {
            lemma_checks_seq_view_push(nodes@, node);
        }
        nodes.push(node);
        i += 1;
        proof {
            assert(ns@.take(i as int).drop_last() =~= ns@.take(i as int - 1));
            assert(ns@.take(i as int).last() == ns@[i as int - 1]);
        }
    }
    proof {
        assert(ns@.take(n as int) =~= ns@);
    }
    Checks { rdap_struct: label, items: Vec::new(), sub_checks: nodes }
}

// --- handle, status, port 43 -----------------------------------------

/// The findings on a handle: it must be a string, and not blank.
pub open spec fn spec_handle_items(h: Stringish) -> Seq<CheckItem> {
    match h {
        Stringish::Text(s) => if spec_is_blank(s@) {
            seq![Check::HandleIsEmpty.spec_check_item()]
        } else {
            Seq::empty()
        },
        Stringish::NotText => seq![Check::HandleIsNotString.spec_check_item()],
    }
}

/// The `handle` tree node.
pub open spec fn spec_handle_node(h: Stringish) -> SpecChecks {
    SpecChecks {
        rdap_struct: RdapStructure::Handle,
        items: spec_handle_items(h),
        sub_checks: Seq::empty(),
    }
}

/// Builds the `handle` tree node.
pub fn handle_checks(h: &Stringish) -> (r: Checks)
    ensures
        r@ =~~= spec_handle_node(*h),
{
    let mut items: Vec<CheckItem> = Vec::new();
    match h {
        Stringish::Text(s) => {
            if is_blank(s.as_str()) {
                items.push(Check::HandleIsEmpty.check_item());
            }
        },
        Stringish::NotText => items.push(Check::HandleIsNotString.check_item()),
    }
    Checks { rdap_struct: RdapStructure::Handle, items, sub_checks: Vec::new() }
}

/// The findings of a list of status values: one per blank value.
pub open spec fn spec_status_items(vals: Seq<String>) -> Seq<CheckItem>
    decreases vals,
{
    if vals.len() == 0 {
        Seq::empty()
    } else {
        spec_status_items(vals.drop_last()) + (if spec_is_blank(vals.last()@) {
            seq![Check::StatusIsEmpty.spec_check_item()]
        } else {
            Seq::empty()
        })
    }
}

/// The `status` tree node: a bare string counts as a one-value list.
pub open spec fn spec_status_node(st: VectorStringish) -> SpecChecks {
    SpecChecks {
        rdap_struct: RdapStructure::Status,
        items: match st {
            VectorStringish::Many(v) => spec_status_items(v@),
            VectorStringish::One(s) => if spec_is_blank(s@) {
                seq![Check::StatusIsEmpty.spec_check_item()]
            } else {
                Seq::empty()
            },
        },
        sub_checks: Seq::empty(),
    }
}

/// Builds the `status` tree node.
pub fn status_checks(st: &VectorStringish) -> (r: Checks)
    ensures
        r@ =~~= spec_status_node(*st),
{
    let mut items: Vec<CheckItem> = Vec::new();
    match st {
        VectorStringish::Many(vals) => {
            let n = vals.len();
            let mut i: usize = 0;
            while i < n
                invariant
                    n == vals@.len(),
                    i <= n,
                    items@ =~= spec_status_items(vals@.take(i as int)),
                decreases n - i,
            {
                if is_blank(vals[i].as_str()) {
                    items.push(Check::StatusIsEmpty.check_item());
                }
                i += 1;
                proof {
                    assert(vals@.take(i as int).drop_last() =~= vals@.take(i as int - 1));
                    assert(vals@.take(i as int).last() == vals@[i as int - 1]);
                }
            }
            proof {
                assert(vals@.take(n as int) =~= vals@);
            }
        },
        VectorStringish::One(s) => {
            if is_blank(s.as_str()) {
                items.push(Check::StatusIsEmpty.check_item());
            }
        },
    }
    Checks { rdap_struct: RdapStructure::Status, items, sub_checks: Vec::new() }
}

/// The `port43` tree node: the value must not be blank.
pub open spec fn spec_port43_node(p: Seq<char>) -> SpecChecks {
    SpecChecks {
        rdap_struct: RdapStructure::Port43,
        items: if spec_is_blank(p) {
            seq![Check::Port43IsEmpty.spec_check_item()]
        } else {
            Seq::empty()
        },
        sub_checks: Seq::empty(),
    }
}

/// Builds the `port43` tree node.
pub fn port43_checks(p: &String) -> (r: Checks)
    ensures
        r@ =~~= spec_port43_node(p@),
{
    let mut items: Vec<CheckItem> = Vec::new();
    if is_blank(p.as_str()) {
        items.push(Check::Port43IsEmpty.check_item());
    }
    Checks { rdap_struct: RdapStructure::Port43, items, sub_checks: Vec::new() }
}

// --- public IDs ------------------------------------------------------

/// The findings of a list of public IDs: each needs a type and an
/// identifier.
pub open spec fn spec_public_ids_items(pids: Seq<PublicId>) -> Seq<CheckItem>
    decreases pids,
{
    if pids.len() == 0 {
        Seq::empty()
    } else {
        spec_public_ids_items(pids.drop_last()) + (if pids.last().id_type is None {
            seq![Check::PublicIdTypeIsAbsent.spec_check_item()]
        } else {
            Seq::empty()
        }) + (if pids.last().identifier is None {
            seq![Check::PublicIdIdentifierIsAbsent.spec_check_item()]
        } else {
            Seq::empty()
        })
    }
}

/// The public IDs tree node.
pub open spec fn spec_public_ids_node(pids: Seq<PublicId>) -> SpecChecks {
    SpecChecks {
        rdap_struct: RdapStructure::PublidIds,
        items: spec_public_ids_items(pids),
        sub_checks: Seq::empty(),
    }
}

/// Builds the public IDs tree node.
pub fn public_ids_checks(pids: &Vec<PublicId>) -> (r: Checks)
    ensures
        r@ =~~= spec_public_ids_node(pids@),
{
    let mut items: Vec<CheckItem> = Vec::new();
    let n = pids.len();
    let mut i: usize = 0;
    while i < n
        invariant
            n == pids@.len(),
            i <= n,
            items@ =~= spec_public_ids_items(pids@.take(i as int)),
        decreases n - i,
    {
        if pids[i].id_type.is_none() {
            items.push(Check::PublicIdTypeIsAbsent.check_item());
        }
        if pids[i].identifier.is_none() {
            items.push(Check::PublicIdIdentifierIsAbsent.check_item());
        }
        i += 1;
        proof {
            assert(pids@.take(i as int).drop_last() =~= pids@.take(i as int - 1));
            assert(pids@.take(i as int).last() == pids@[i as int - 1]);
        }
    }
    proof {
        assert(pids@.take(n as int) =~= pids@);
    }
    Checks { rdap_struct: RdapStructure::PublidIds, items, sub_checks: Vec::new() }
}

// --- the conformance declaration -------------------------------------

/// The findings on the declared extensions: one per identifier that is
/// not registered, unless unregistered identifiers are allowed.
pub open spec fn spec_unknown_ext_items(exts: Seq<Seq<char>>, allow_unreg: bool) -> Seq<CheckItem>
    decreases exts,
{
    if exts.len() == 0 {
        Seq::empty()
    } else {
        spec_unknown_ext_items(exts.drop_last(), allow_unreg) + (if !allow_unreg
            && !spec_registered_extension(exts.last()) {
            seq![Check::UnknownExtention.spec_check_item()]
        } else {
            Seq::empty()
        })
    }
}

/// The conformance tree nodes of a common block.
///
/// At the top of the response the declaration is required: a node is
/// always produced, carrying a finding when the declaration is missing
/// and one finding per unregistered extension otherwise. On a nested
/// object the declaration is not allowed at all: a node with that
/// finding is produced exactly when one is present.
pub open spec fn spec_conformance_subs(c: Common, p: SpecParams) -> Seq<SpecChecks> {
    if p.is_root() {
        seq![
            SpecChecks {
                rdap_struct: RdapStructure::RdapConformance,
                items: match c.rdap_conformance {
                    None => seq![Check::RdapConformanceMissing.spec_check_item()],
                    Some(v) => spec_unknown_ext_items(v.deep_view(), p.allow_unreg_ext),
                },
                sub_checks: Seq::empty(),
            },
        ]
    } else {
        match c.rdap_conformance {
            Some(_) => seq![
                SpecChecks {
                    rdap_struct: RdapStructure::RdapConformance,
                    items: seq![Check::RdapConformanceInvalidParent.spec_check_item()],
                    sub_checks: Seq::empty(),
                },
            ],
            None => Seq::empty(),
        }
    }
}

/// Builds the conformance tree nodes of a common block.
pub fn conformance_subs(c: &Common, params: CheckParams) -> (r: Vec<Checks>)
    ensures
        checks_seq_view(r@) =~~= spec_conformance_subs(*c, params@),
{
    let mut out: Vec<Checks> = Vec::new();
    let is_root = params.at_root;
    if is_root {
        let mut items: Vec<CheckItem> = Vec::new();
        match &c.rdap_conformance {
            None => items.push(Check::RdapConformanceMissing.check_item()),
            Some(exts) => {
                let n = exts.len();
                let mut i: usize = 0;
                while i < n
                    invariant
                        n == exts@.len(),
                        i <= n,
                        items@ =~= spec_unknown_ext_items(
                            exts@.take(i as int).map_values(|s: String| s@),
                            params.allow_unreg_ext,
                        ),
                    decreases n - i,
                {
                    if !params.allow_unreg_ext && !is_registered_extension(exts[i].as_str()) {
                        items.push(Check::UnknownExtention.check_item());
                    }
                    i += 1;
                    proof {
                        let mapped = exts@.take(i as int).map_values(|s: String| s@);
                        assert(mapped.drop_last() =~= exts@.take(i as int - 1).map_values(
                            |s: String| s@,
                        ));
                        assert(mapped.last() == exts@[i as int - 1]@);
                    }
                }
                proof {
                    assert(exts@.take(n as int).map_values(|s: String| s@) =~= exts@.map_values(
                        |s: String| s@,
                    ));
                    assert(exts.deep_view() =~= exts@.map_values(|s: String| s@));
                }
            },
        }
        let node = Checks {
            rdap_struct: RdapStructure::RdapConformance,
            items,
            sub_checks: Vec::new(),
        };
        proof {
            lemma_checks_seq_view_push(out@, node);
        }
        out.push(node);
    } else {
        if c.rdap_conformance.is_some() {
            let mut items: Vec<CheckItem> = Vec::new();
            items.push(Check::RdapConformanceInvalidParent.check_item());
            let node = Checks {
                rdap_struct: RdapStructure::RdapConformance,
                items,
                sub_checks: Vec::new(),
            };
            proof {
                lemma_checks_seq_view_push(out@, node);
            }
            out.push(node);
        }
    }
    out
}

/// The conformance declaration is a top-of-response structure: on any
/// nested object that declares one, the conformance node carries the
/// invalid-parent finding, classified as a standards error.
pub proof fn lemma_nested_conformance_flagged(c: Common, p: SpecParams)
    requires
        !p.is_root(),
        c.rdap_conformance is Some,
    ensures
        spec_conformance_subs(c, p).len() == 1,
        spec_conformance_subs(c, p)[0].items.contains(
            Check::RdapConformanceInvalidParent.spec_check_item(),
        ),
        crate::check::classify(Check::RdapConformanceInvalidParent)
            == crate::check::CheckClass::StdError,
{
    let node = spec_conformance_subs(c, p)[0];
    assert(node.items[0] == Check::RdapConformanceInvalidParent.spec_check_item());
}

/// An unregistered declared extension is flagged: when unregistered
/// identifiers are not allowed, the declaration's findings carry the
/// unknown-extension warning for it.
pub proof fn lemma_unregistered_extension_flagged(exts: Seq<Seq<char>>, i: int)
    requires
        0 <= i < exts.len(),
        !spec_registered_extension(exts[i]),
    ensures
        spec_unknown_ext_items(exts, false).contains(Check::UnknownExtention.spec_check_item()),
    decreases exts,
{
    if i == exts.len() - 1 {
        let pre = spec_unknown_ext_items(exts.drop_last(), false);
        assert(spec_unknown_ext_items(exts, false)[pre.len() as int]
            == Check::UnknownExtention.spec_check_item());
    } else {
        lemma_unregistered_extension_flagged(exts.drop_last(), i);
        let pre = spec_unknown_ext_items(exts.drop_last(), false);
        let w = choose|w: int| 0 <= w < pre.len() && pre[w]
            == Check::UnknownExtention.spec_check_item();
        assert(spec_unknown_ext_items(exts, false)[w]
            == Check::UnknownExtention.spec_check_item());
    }
}

// --- the secure DNS block --------------------------------------------

/// The findings on a secure DNS block: the boolean and numeric fields
/// must have their JSON types, and each key or delegation-signer number
/// must lie in its protocol range.
pub open spec fn spec_secure_dns_items(sd: SecureDns) -> Seq<CheckItem> {
    (if sd.zone_signed matches Some(crate::response::Boolish::Text(_)) {
        seq![Check::ZoneSignedIsString.spec_check_item()]
    } else {
        Seq::empty()
    }) + (if sd.delegation_signed matches Some(crate::response::Boolish::Text(_)) {
        seq![Check::DelegationSignedIsString.spec_check_item()]
    } else {
        Seq::empty()
    }) + (if sd.max_sig_life matches Some(crate::response::Numberish::Text(_)) {
        seq![Check::MaxSigLifeIsString.spec_check_item()]
    } else {
        Seq::empty()
    }) + (match sd.key_data {
        Some(kds) => spec_key_data_items(kds@),
        None => Seq::empty(),
    }) + (match sd.ds_data {
        Some(dss) => spec_ds_data_items(dss@),
        None => Seq::empty(),
    })
}

/// The findings on a numeric field: a string where a number belongs, or
/// a number out of its range.
pub open spec fn spec_num_field_items(
    f: Option<crate::response::Numberish>,
    max: u64,
    is_string: Check,
    out_of_range: Check,
) -> Seq<CheckItem> {
    match f {
        None => Seq::empty(),
        Some(crate::response::Numberish::Text(_)) => seq![is_string.spec_check_item()],
        Some(crate::response::Numberish::Num(v)) => if v > max {
            seq![out_of_range.spec_check_item()]
        } else {
            Seq::empty()
        },
    }
}

/// The findings of the key data entries, flattened in order.
pub open spec fn spec_key_data_items(kds: Seq<crate::response::KeyDatum>) -> Seq<CheckItem>
    decreases kds,
{
    if kds.len() == 0 {
        Seq::empty()
    } else {
        spec_key_data_items(kds.drop_last()) + spec_num_field_items(
            kds.last().algorithm,
            255,
            Check::KeyDatumAlgorithmIsString,
            Check::KeyDatumAlgorithmIsOutOfRange,
        ) + spec_num_field_items(
            kds.last().flags,
            65535,
            Check::KeyDatumFlagsIsString,
            Check::KeyDatumFlagsIsOutOfRange,
        ) + spec_num_field_items(
            kds.last().protocol,
            255,
            Check::KeyDatumProtocolIsString,
            Check::KeyDatumProtocolIsOutOfRange,
        )
    }
}

/// The findings of the delegation signer entries, flattened in order.
pub open spec fn spec_ds_data_items(dss: Seq<crate::response::DsDatum>) -> Seq<CheckItem>
    decreases dss,
{
    if dss.len() == 0 {
        Seq::empty()
    } else {
        spec_ds_data_items(dss.drop_last()) + spec_num_field_items(
            dss.last().algorithm,
            255,
            Check::DsDatumAlgorithmIsString,
            Check::DsDatumAlgorithmIsOutOfRange,
        ) + spec_num_field_items(
            dss.last().key_tag,
            65535,
            Check::DsDatumKeyTagIsString,
            Check::DsDatumKeyTagIsOutOfRange,
        ) + spec_num_field_items(
            dss.last().digest_type,
            255,
            Check::DsDatumDigestTypeIsString,
            Check::DsDatumDigestTypeIsOutOfRange,
        )
    }
}

/// The secure DNS tree node.
pub open spec fn spec_secure_dns_node(sd: SecureDns) -> SpecChecks {
    SpecChecks {
        rdap_struct: RdapStructure::SecureDns,
        items: spec_secure_dns_items(sd),
        sub_checks: Seq::empty(),
    }
}

/// Gathers the findings on one numeric field.
fn num_field_items(
    f: &Option<crate::response::Numberish>,
    max: u64,
    is_string: Check,
    out_of_range: Check,
) -> (r: Vec<CheckItem>)
    ensures
        r@ =~= spec_num_field_items(*f, max, is_string, out_of_range),
{
    let mut items: Vec<CheckItem> = Vec::new();
    match f {
        None => {},
        Some(crate::response::Numberish::Text(_)) => items.push(is_string.check_item()),
        Some(crate::response::Numberish::Num(v)) => {
            if *v > max {
                items.push(out_of_range.check_item());
            }
        },
    }
    items
}

/// Builds the secure DNS tree node.
pub fn secure_dns_checks(sd: &SecureDns) -> (r: Checks)
    ensures
        r@ =~~= spec_secure_dns_node(*sd),
{
    let mut items: Vec<CheckItem> = Vec::new();
    if let Some(crate::response::Boolish::Text(_)) = &sd.zone_signed {
        items.push(Check::ZoneSignedIsString.check_item());
    }
    if let Some(crate::response::Boolish::Text(_)) = &sd.delegation_signed {
        items.push(Check::DelegationSignedIsString.check_item());
    }
    if let Some(crate::response::Numberish::Text(_)) = &sd.max_sig_life {
        items.push(Check::MaxSigLifeIsString.check_item());
    }
    if let Some(kds) = &sd.key_data {
        let n = kds.len();
        let mut i: usize = 0;
        let ghost base = items@;
        while i < n
            invariant
                n == kds@.len(),
                i <= n,
                items@ =~= base + spec_key_data_items(kds@.take(i as int)),
            decreases n - i,
        {
            let mut a = num_field_items(
                &kds[i].algorithm,
                255,
                Check::KeyDatumAlgorithmIsString,
                Check::KeyDatumAlgorithmIsOutOfRange,
            );
            items.append(&mut a);
            let mut b = num_field_items(
                &kds[i].flags,
                65535,
                Check::KeyDatumFlagsIsString,
                Check::KeyDatumFlagsIsOutOfRange,
            );
            items.append(&mut b);
            let mut c = num_field_items(
                &kds[i].protocol,
                255,
                Check::KeyDatumProtocolIsString,
                Check::KeyDatumProtocolIsOutOfRange,
            );
            items.append(&mut c);
            i += 1;
            proof {
                assert(kds@.take(i as int).drop_last() =~= kds@.take(i as int - 1));
                assert(kds@.take(i as int).last() == kds@[i as int - 1]);
            }
        }
        proof {
            assert(kds@.take(n as int) =~= kds@);
        }
    }
    if let Some(dss) = &sd.ds_data {
        let n = dss.len();
        let mut i: usize = 0;
        let ghost base = items@;
        while i < n
            invariant
                n == dss@.len(),
                i <= n,
                items@ =~= base + spec_ds_data_items(dss@.take(i as int)),
            decreases n - i,
        {
            let mut a = num_field_items(
                &dss[i].algorithm,
                255,
                Check::DsDatumAlgorithmIsString,
                Check::DsDatumAlgorithmIsOutOfRange,
            );
            items.append(&mut a);
            let mut b = num_field_items(
                &dss[i].key_tag,
                65535,
                Check::DsDatumKeyTagIsString,
                Check::DsDatumKeyTagIsOutOfRange,
            );
            items.append(&mut b);
            let mut c = num_field_items(
                &dss[i].digest_type,
                255,
                Check::DsDatumDigestTypeIsString,
                Check::DsDatumDigestTypeIsOutOfRange,
            );
            items.append(&mut c);
            i += 1;
            proof {
                assert(dss@.take(i as int).drop_last() =~= dss@.take(i as int - 1));
                assert(dss@.take(i as int).last() == dss@[i as int - 1]);
            }
        }
        proof {
            assert(dss@.take(n as int) =~= dss@);
        }
    }
    Checks { rdap_struct: RdapStructure::SecureDns, items, sub_checks: Vec::new() }
}

} // verus!
