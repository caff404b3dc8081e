//! The HTTP transport data of a checked response.
//!
//! These rules apply to the wrapper around the JSON body: the CORS
//! headers, the content type, and the scheme. Two of them harden under
//! the ICANN gTLD profile, which a response declares through its
//! extension identifiers.

use vstd::prelude::*;

use crate::check::string::{starts_with_str, str_eq};
use crate::check::types::spec_rdap_media_type;
use crate::check::{
    checks_seq_view, lemma_checks_seq_view_push, Check, CheckItem, CheckParams, Checks,
    GetSubChecks, RdapStructure, SpecChecks, SpecParams,
};

verus! {

/// The transport facts of one exchange: the scheme and host it went
/// over, and the response headers the rules read.
#[derive(Debug, Clone)]
pub struct HttpData {
    /// The scheme of the request, such as `https`.
    pub scheme: String,
    /// The host that answered, kept for message context.
    pub host: String,
    /// The `access-control-allow-origin` header, when present.
    pub allow_origin: Option<String>,
    /// The `access-control-allow-credentials` header, when present.
    pub allow_credentials: Option<String>,
    /// The `content-type` header, when present.
    pub content_type: Option<String>,
}

/// True when the response declares one of the ICANN gTLD profile
/// extension identifiers.
pub open spec fn spec_declares_icann(exts: Option<Seq<Seq<char>>>) -> bool {
    match exts {
        None => false,
        Some(es) => {
            ||| es.contains("icann_rdap_response_profile_0"@)
            ||| es.contains("icann_rdap_response_profile_1"@)
            ||| es.contains("icann_rdap_technical_implementation_guide_0"@)
            ||| es.contains("icann_rdap_technical_implementation_guide_1"@)
        },
    }
}

/// Returns true if the checked response declares the ICANN profile.
fn icann_declared(params: &CheckParams) -> (r: bool)
    ensures
        r == spec_declares_icann(params@.root_exts),
{
    let c = params.root.common();
    match &c.rdap_conformance {
        None => false,
        Some(v) => {
            let n = v.len();
            let mut i: usize = 0;
            while i < n
                invariant
                    params@.root_exts matches Some(es) && es == v.deep_view(),
                    n == v@.len(),
                    i <= n,
                    forall|j: int|
                        0 <= j < i ==> (#[trigger] v@[j])@ != "icann_rdap_response_profile_0"@
                            && v@[j]@ != "icann_rdap_response_profile_1"@ && v@[j]@
                            != "icann_rdap_technical_implementation_guide_0"@ && v@[j]@
                            != "icann_rdap_technical_implementation_guide_1"@,
                decreases n - i,
            {
                let s = v[i].as_str();
                if str_eq(s, "icann_rdap_response_profile_0") || str_eq(
                    s,
                    "icann_rdap_response_profile_1",
                ) || str_eq(s, "icann_rdap_technical_implementation_guide_0") || str_eq(
                    s,
                    "icann_rdap_technical_implementation_guide_1",
                ) {
                    proof {
                        assert(v.deep_view()[i as int] == v@[i as int]@);
                        let es = params@.root_exts->Some_0;
                        assert(es[i as int] == v@[i as int]@);
                    }
                    return true;
                }
                i += 1;
            }
            proof {
                assert forall|j: int|
                    0 <= j < v.deep_view().len() implies v.deep_view()[j] == v@[j]@ by {}
            }
            false
        },
    }
}

/// The findings on the transport data: the CORS recommendations, the
/// content type, and, under the ICANN profile, the wildcard-origin and
/// HTTPS requirements.
pub open spec fn spec_http_items(h: HttpData, icann: bool) -> Seq<CheckItem> {
    (match h.allow_origin {
        None => seq![Check::CorsAllowOriginRecommended.spec_check_item()],
        Some(o) => if o@ != "*"@ {
            if icann {
                seq![Check::AllowOriginNotStar.spec_check_item()]
            } else {
                seq![Check::CorsAllowOriginStarRecommended.spec_check_item()]
            }
        } else {
            Seq::empty()
        },
    }) + (if h.allow_credentials is Some {
        seq![Check::CorsAllowCredentialsNotRecommended.spec_check_item()]
    } else {
        Seq::empty()
    }) + (match h.content_type {
        None => seq![Check::ContentTypeIsAbsent.spec_check_item()],
        Some(t) => if !(spec_rdap_media_type(t@) || crate::check::string::spec_starts_with(
            t@,
            "application/rdap+json;"@,
        )) {
            seq![Check::ContentTypeIsNotRdap.spec_check_item()]
        } else {
            Seq::empty()
        },
    }) + (if icann && h.scheme@ != "https"@ {
        seq![Check::MustUseHttps.spec_check_item()]
    } else {
        Seq::empty()
    })
}

/// The transport data tree node.
pub open spec fn spec_http_node(h: HttpData, p: SpecParams) -> SpecChecks {
    SpecChecks {
        rdap_struct: RdapStructure::HttpData,
        items: spec_http_items(h, spec_declares_icann(p.root_exts)),
        sub_checks: Seq::empty(),
    }
}

impl GetSubChecks for HttpData {
    open spec fn spec_sub_checks(&self, params: SpecParams) -> Seq<SpecChecks> {
        seq![spec_http_node(*self, params)]
    }

    /// Gathers the findings on the transport data of one exchange.
    fn get_sub_checks(&self, params: CheckParams) -> (r: Vec<Checks>) {
        let icann = icann_declared(&params);
        let mut items: Vec<CheckItem> = Vec::new();
        match &self.allow_origin {
            None => items.push(Check::CorsAllowOriginRecommended.check_item()),
            Some(o) => {
                if !str_eq(o.as_str(), "*") {
                    if icann {
                        items.push(Check::AllowOriginNotStar.check_item());
                    } else {
                        items.push(Check::CorsAllowOriginStarRecommended.check_item());
                    }
                }
            },
        }
        if self.allow_credentials.is_some() {
            items.push(Check::CorsAllowCredentialsNotRecommended.check_item());
        }
        match &self.content_type {
            None => items.push(Check::ContentTypeIsAbsent.check_item()),
            Some(t) => {
                if !(str_eq(t.as_str(), "application/rdap+json") || starts_with_str(
                    t.as_str(),
                    "application/rdap+json;",
                )) {
                    items.push(Check::ContentTypeIsNotRdap.check_item());
                }
            },
        }
        if icann && !str_eq(self.scheme.as_str(), "https") {
            items.push(Check::MustUseHttps.check_item());
        }
        let node = Checks { rdap_struct: RdapStructure::HttpData, items, sub_checks: Vec::new() };
        proof {
            assert(node@.items =~= spec_http_items(*self, spec_declares_icann(params@.root_exts)));
            assert(node@ =~~= spec_http_node(*self, params@));
        }
        let mut out: Vec<Checks> = Vec::new();
        proof {
            lemma_checks_seq_view_push(out@, node);
        }
        out.push(node);
        proof {
            assert(checks_seq_view(out@) =~~= seq![spec_http_node(*self, params@)]);
        }
        out
    }
}

} // verus!
