//! Decisions of the network test harness.
//!
//! The harness itself performs DNS and HTTP work outside this crate;
//! the part that decides stands here: which extension identifiers a
//! test run expects, expanded from the selected profile groups, and
//! rejected when an identifier is not registered with IANA unless the
//! caller allows unregistered ones.

use vstd::prelude::*;

use crate::check::string::clone_string_vec;
use crate::response::{is_registered_extension, spec_registered_extension};

verus! {

/// Options of one test run.
pub struct TestOptions {
    pub skip_v4: bool,
    pub skip_v6: bool,
    pub skip_origin: bool,
    pub origin_value: String,
    pub chase_referral: bool,
    pub expect_extensions: Vec<String>,
    pub expect_groups: Vec<ExtensionGroup>,
    pub allow_unregistered_extensions: bool,
    pub one_addr: bool,
    pub dns_resolver: Option<String>,
}

impl Default for TestOptions {
    /// The default options: nothing skipped, nothing expected, no
    /// referral chased, unregistered extensions rejected.
    fn default() -> (r: Self)
        ensures
            !r.skip_v4 && !r.skip_v6 && !r.skip_origin,
            r.origin_value@ == Seq::<char>::empty(),
            !r.chase_referral,
            r.expect_extensions@.len() == 0,
            r.expect_groups@.len() == 0,
            !r.allow_unregistered_extensions,
            !r.one_addr,
            r.dns_resolver is None,
    {
        TestOptions {
            skip_v4: false,
            skip_v6: false,
            skip_origin: false,
            origin_value: String::new(),
            chase_referral: false,
            expect_extensions: Vec::new(),
            expect_groups: Vec::new(),
            allow_unregistered_extensions: false,
            one_addr: false,
            dns_resolver: None,
        }
    }
}

/// A named group of extension identifiers a server may implement.
#[derive(Debug, Clone, Copy, PartialEq, Eq, Structural)]
pub enum ExtensionGroup {
    /// The ICANN gTLD profile.
    Gtld,
    /// The NRO profile for address registries.
    Nro,
    /// The NRO profile for autonomous system numbers.
    NroAsn,
}

/// Errors of the test harness's own decisions.
#[derive(Debug, Clone, Copy, PartialEq, Eq, Structural)]
pub enum TestExecutionError {
    NoHostToResolve,
    NoRdata,
    BadRdata,
    UnsupportedQueryType,
    NoReferralToChase,
    UnregisteredExtension,
}

/// The expected identifiers a group adds: an entry with a bar accepts
/// either version of a profile.
pub open spec fn spec_group_ids(g: ExtensionGroup) -> Seq<Seq<char>> {
    match g {
        ExtensionGroup::Gtld => seq![
            "icann_rdap_response_profile_0|icann_rdap_response_profile_1"@,
            "icann_rdap_technical_implementation_guide_0|icann_rdap_technical_implementation_guide_1"@,
        ],
        ExtensionGroup::Nro => seq!["nro_rdap_profile_0"@, "cidr0"@],
        ExtensionGroup::NroAsn => seq![
            "nro_rdap_profile_0"@,
            "nro_rdap_profile_asn_flat_0|nro_rdap_profile_asn_hierarchical_0"@,
        ],
    }
}

/// The identifiers all the groups add, flattened in order.
pub open spec fn spec_groups_flat(gs: Seq<ExtensionGroup>) -> Seq<Seq<char>>
    decreases gs,
{
    if gs.len() == 0 {
        Seq::empty()
    } else {
        spec_groups_flat(gs.drop_last()) + spec_group_ids(gs.last())
    }
}

/// The normalized expectation list: the explicit identifiers, then the
/// groups' identifiers.
pub open spec fn spec_normalized_ids(
    exts: Seq<Seq<char>>,
    gs: Seq<ExtensionGroup>,
) -> Seq<Seq<char>> {
    exts + spec_groups_flat(gs)
}

/// Normalizes the expected extension identifiers of a test run: keeps
/// the explicit identifiers, appends each group's identifiers, and
/// rejects the whole list when an explicit identifier is unregistered
/// and unregistered identifiers are not allowed.
pub fn normalize_extension_ids(options: &TestOptions) -> (r: Result<
    Vec<String>,
    TestExecutionError,
>)
    ensures
        r is Err <==> (!options.allow_unregistered_extensions && exists|i: int|
            0 <= i < options.expect_extensions@.len() && !spec_registered_extension(
                (#[trigger] options.expect_extensions@[i])@,
            )),
        r matches Err(e) ==> e == TestExecutionError::UnregisteredExtension,
        r matches Ok(v) ==> v.deep_view() == spec_normalized_ids(
            options.expect_extensions.deep_view(),
            options.expect_groups@,
        ),
{
    let exts = &options.expect_extensions;
    if !options.allow_unregistered_extensions {
        let n = exts.len();
        let mut i: usize = 0;
        while i < n
            invariant
                exts@ == options.expect_extensions@,
                !options.allow_unregistered_extensions,
                n == exts@.len(),
                i <= n,
                forall|j: int|
                    0 <= j < i ==> spec_registered_extension((#[trigger] exts@[j])@),
            decreases n - i,
        {
            if !is_registered_extension(exts[i].as_str()) {
                proof {
                    assert(exts@ == options.expect_extensions@);
                    assert(!spec_registered_extension(exts@[i as int]@));
                    assert(!spec_registered_extension(
                        (options.expect_extensions@[i as int])@,
                    ));
                }
                return Err(TestExecutionError::UnregisteredExtension);
            }
            i += 1;
        }
    }
    let mut retval = clone_string_vec(exts);
    proof {
        assert(spec_groups_flat(options.expect_groups@.take(0)) =~= Seq::<Seq<char>>::empty());
        assert(retval.deep_view() =~= exts.deep_view() + spec_groups_flat(
            options.expect_groups@.take(0),
        ));
    }
    let gs = &options.expect_groups;
    let m = gs.len();
    let mut k: usize = 0;
    while k < m
        invariant
            m == gs@.len(),
            k <= m,
            retval.deep_view() =~= exts.deep_view() + spec_groups_flat(gs@.take(k as int)),
        decreases m - k,
    {
        let ghost pre = retval.deep_view();
        match gs[k] {
            ExtensionGroup::Gtld => {
                retval.push(
                    "icann_rdap_response_profile_0|icann_rdap_response_profile_1".to_owned(),
                );
                retval.push(
                    "icann_rdap_technical_implementation_guide_0|icann_rdap_technical_implementation_guide_1".to_owned(),
                );
            },
            ExtensionGroup::Nro => {
                retval.push("nro_rdap_profile_0".to_owned());
                retval.push("cidr0".to_owned());
            },
            ExtensionGroup::NroAsn => {
                retval.push("nro_rdap_profile_0".to_owned());
                retval.push(
                    "nro_rdap_profile_asn_flat_0|nro_rdap_profile_asn_hierarchical_0".to_owned(),
                );
            },
        }
        proof {
            assert(retval.deep_view() =~= pre + spec_group_ids(gs@[k as int]));
        }
        k += 1;
        proof {
            assert(gs@.take(k as int).drop_last() =~= gs@.take(k as int - 1));
            assert(gs@.take(k as int).last() == gs@[k as int - 1]);
            assert(retval.deep_view() =~= exts.deep_view() + spec_groups_flat(gs@.take(k as int)));
        }
    }
    proof {
        assert(gs@.take(m as int) =~= gs@);
    }
    Ok(retval)
}

} // verus!
