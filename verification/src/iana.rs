//! The IANA RDAP bootstrap registries.
//!
//! A bootstrap registry maps a queried name, number, network or object
//! tag to the URLs of the authoritative RDAP servers. The domain lookup
//! picks the service with the longest matching label suffix; the
//! autonomous system lookup scans number ranges; the address lookups go
//! through a longest-prefix-match trie keyed by parsed networks; the
//! tag lookup compares tags without regard to ASCII case.

use vstd::prelude::*;

pub mod lpm;

use crate::addr::{parse_u32, spec_parse_u32};
use crate::check::string::{
    clone_string_vec, ends_with_str, eq_ignore_ascii_case_str, spec_ends_with, spec_eq_ignore_ascii_case,
    spec_starts_with, starts_with_str,
};

verus! {

/// IANA registry variants for RDAP.
#[derive(Debug, Clone, Copy)]
pub enum IanaRegistryType {
    RdapBootstrapDns,
    RdapBootstrapAsn,
    RdapBootstrapIpv4,
    RdapBootstrapIpv6,
    RdapObjectTags,
}

impl IanaRegistryType {
    /// The URL of the registry's published file.
    pub open spec fn spec_url(self) -> Seq<char> {
        match self {
            IanaRegistryType::RdapBootstrapDns => "https://data.iana.org/rdap/dns.json"@,
            IanaRegistryType::RdapBootstrapAsn => "https://data.iana.org/rdap/asn.json"@,
            IanaRegistryType::RdapBootstrapIpv4 => "https://data.iana.org/rdap/ipv4.json"@,
            IanaRegistryType::RdapBootstrapIpv6 => "https://data.iana.org/rdap/ipv6.json"@,
            IanaRegistryType::RdapObjectTags => "https://data.iana.org/rdap/object-tags.json"@,
        }
    }

    /// Get the URL for an IANA RDAP registry.
    pub fn url(&self) -> (r: &'static str)
        ensures
            r@ == self.spec_url(),
    {
        match self {
            IanaRegistryType::RdapBootstrapDns => "https://data.iana.org/rdap/dns.json",
            IanaRegistryType::RdapBootstrapAsn => "https://data.iana.org/rdap/asn.json",
            IanaRegistryType::RdapBootstrapIpv4 => "https://data.iana.org/rdap/ipv4.json",
            IanaRegistryType::RdapBootstrapIpv6 => "https://data.iana.org/rdap/ipv6.json",
            IanaRegistryType::RdapObjectTags => "https://data.iana.org/rdap/object-tags.json",
        }
    }

    /// The filename at the end of the registry's URL.
    pub open spec fn spec_file_name(self) -> Seq<char> {
        match self {
            IanaRegistryType::RdapBootstrapDns => "dns.json"@,
            IanaRegistryType::RdapBootstrapAsn => "asn.json"@,
            IanaRegistryType::RdapBootstrapIpv4 => "ipv4.json"@,
            IanaRegistryType::RdapBootstrapIpv6 => "ipv6.json"@,
            IanaRegistryType::RdapObjectTags => "object-tags.json"@,
        }
    }

    /// Get the filename in the URL for the IANA RDAP registry: the
    /// part of the URL after its last slash.
    pub fn file_name(&self) -> (r: &'static str)
        ensures
            r@ == self.spec_file_name(),
            spec_ends_with(self.spec_url(), self.spec_file_name()),
    {
        proof {
            reveal_strlit("https://data.iana.org/rdap/dns.json");
            reveal_strlit("https://data.iana.org/rdap/asn.json");
            reveal_strlit("https://data.iana.org/rdap/ipv4.json");
            reveal_strlit("https://data.iana.org/rdap/ipv6.json");
            reveal_strlit("https://data.iana.org/rdap/object-tags.json");
            reveal_strlit("dns.json");
            reveal_strlit("asn.json");
            reveal_strlit("ipv4.json");
            reveal_strlit("ipv6.json");
            reveal_strlit("object-tags.json");
            match self {
                IanaRegistryType::RdapBootstrapDns => {
                    assert(self.spec_url().subrange(27, 35) =~= self.spec_file_name());
                },
                IanaRegistryType::RdapBootstrapAsn => {
                    assert(self.spec_url().subrange(27, 35) =~= self.spec_file_name());
                },
                IanaRegistryType::RdapBootstrapIpv4 => {
                    assert(self.spec_url().subrange(27, 36) =~= self.spec_file_name());
                },
                IanaRegistryType::RdapBootstrapIpv6 => {
                    assert(self.spec_url().subrange(27, 36) =~= self.spec_file_name());
                },
                IanaRegistryType::RdapObjectTags => {
                    assert(self.spec_url().subrange(27, 43) =~= self.spec_file_name());
                },
            }
        }
        match self {
            IanaRegistryType::RdapBootstrapDns => "dns.json",
            IanaRegistryType::RdapBootstrapAsn => "asn.json",
            IanaRegistryType::RdapBootstrapIpv4 => "ipv4.json",
            IanaRegistryType::RdapBootstrapIpv6 => "ipv6.json",
            IanaRegistryType::RdapObjectTags => "object-tags.json",
        }
    }
}

/// Errors from processing IANA RDAP bootstrap registries.
#[derive(Debug, Clone, Copy, PartialEq, Eq, Structural)]
pub enum BootstrapRegistryError {
    EmptyService,
    EmptyUrlSet,
    InvalidBootstrapInput,
    NoBootstrapUrls,
    InvalidBootstrapService,
}

/// Represents an IANA RDAP bootstrap registry: its version and
/// publication stamps and its service entries. A service is a list
/// whose first element holds the keys (labels, ranges, networks or
/// tags) and whose last element holds the URLs.
#[derive(Debug, Clone)]
pub struct RdapBootstrapRegistry {
    pub version: String,
    pub publication: String,
    pub description: Option<String>,
    pub services: Vec<Vec<Vec<String>>>,
}

/// Classes of IANA registries.
#[derive(Debug, Clone)]
pub enum IanaRegistry {
    RdapBootstrapRegistry(RdapBootstrapRegistry),
}

impl IanaRegistry {
    /// The service entries of the registry.
    pub open spec fn spec_services(self) -> Seq<Vec<Vec<String>>> {
        match self {
            IanaRegistry::RdapBootstrapRegistry(b) => b.services@,
        }
    }
}

/// The URLs of a service entry: its last element, as text.
pub open spec fn spec_svc_urls(svc: Vec<Vec<String>>) -> Seq<Seq<char>> {
    svc@[svc@.len() - 1].deep_view()
}

/// The lookup operations of a bootstrap registry.
pub trait BootstrapRegistry {
    /// The URLs serving a domain name, by longest label-suffix match.
    fn get_dns_bootstrap_urls(&self, ldh: &str) -> Result<Vec<String>, BootstrapRegistryError>;

    /// The URLs serving an autonomous system number.
    fn get_asn_bootstrap_urls(&self, asn: &str) -> Result<Vec<String>, BootstrapRegistryError>;

    /// The URLs serving an IPv4 network, by longest prefix match.
    fn get_ipv4_bootstrap_urls(&self, ipv4: &str) -> Result<Vec<String>, BootstrapRegistryError>;

    /// The URLs serving an IPv6 network, by longest prefix match.
    fn get_ipv6_bootstrap_urls(&self, ipv6: &str) -> Result<Vec<String>, BootstrapRegistryError>;

    /// The URLs serving an object tag, compared without ASCII case.
    fn get_tag_bootstrap_urls(&self, tag: &str) -> Result<Vec<String>, BootstrapRegistryError>;
}

// --- preferred URLs ---------------------------------------------------

/// The first HTTPS URL of the list, if any.
pub open spec fn spec_first_https(urls: Seq<String>) -> Option<Seq<char>>
    decreases urls,
{
    if urls.len() == 0 {
        None
    } else if spec_starts_with(urls[0]@, "https://"@) {
        Some(urls[0]@)
    } else {
        spec_first_https(urls.skip(1))
    }
}

/// The URL a caller should prefer: the first HTTPS URL, or the first
/// URL when none uses HTTPS.
pub open spec fn spec_preferred_url(urls: Seq<String>) -> Seq<char> {
    match spec_first_https(urls) {
        Some(u) => u,
        None => urls[0]@,
    }
}

/// Prefer HTTPS URLs: picks the first HTTPS URL of the list, or the
/// first URL when none uses HTTPS, and fails only on an empty list.
pub fn get_preferred_url(urls: Vec<String>) -> (r: Result<String, BootstrapRegistryError>)
    ensures
        r is Err <==> urls@.len() == 0,
        r matches Err(e) ==> e == BootstrapRegistryError::EmptyUrlSet,
        r matches Ok(u) ==> u@ == spec_preferred_url(urls@),
{
    let n = urls.len();
    if n == 0 {
        return Err(BootstrapRegistryError::EmptyUrlSet);
    }
    let mut i: usize = 0;
    proof {
        assert(urls@.skip(0) =~= urls@);
    }
    while i < n
        invariant
            n == urls@.len(),
            0 < n,
            i <= n,
            spec_first_https(urls@) == spec_first_https(urls@.skip(i as int)),
        decreases n - i,
    {
        if starts_with_str(urls[i].as_str(), "https://") {
            proof {
                assert(urls@.skip(i as int)[0] == urls@[i as int]);
            }
            return Ok(urls[i].clone());
        }
        i += 1;
        proof {
            assert(urls@.skip(i as int - 1)[0] == urls@[i as int - 1]);
            assert(urls@.skip(i as int - 1).skip(1) =~= urls@.skip(i as int));
        }
    }
    proof {
        assert(urls@.skip(n as int).len() == 0);
    }
    Ok(urls[0].clone())
}

// --- the domain lookup -------------------------------------------------

/// True when a service label matches the queried name: the name ends
/// with the label, or the label is empty (the root).
pub open spec fn spec_label_matches(ldh: Seq<char>, tld: Seq<char>) -> bool {
    spec_ends_with(ldh, tld) || tld.len() == 0
}

/// The better of the running best match and one label: the first match
/// is kept, a strictly longer match replaces it.
pub open spec fn spec_dns_better(
    best: Option<(int, Seq<Seq<char>>)>,
    ldh: Seq<char>,
    tld: Seq<char>,
    urls: Seq<Seq<char>>,
) -> Option<(int, Seq<Seq<char>>)> {
    if spec_label_matches(ldh, tld) {
        match best {
            None => Some((tld.len() as int, urls)),
            Some(b) => if b.0 < tld.len() {
                Some((tld.len() as int, urls))
            } else {
                Some(b)
            },
        }
    } else {
        best
    }
}

/// The running best match after one service's labels, in order.
pub open spec fn spec_dns_labels(
    best: Option<(int, Seq<Seq<char>>)>,
    ldh: Seq<char>,
    tlds: Seq<String>,
    urls: Seq<Seq<char>>,
) -> Option<(int, Seq<Seq<char>>)>
    decreases tlds,
{
    if tlds.len() == 0 {
        best
    } else {
        spec_dns_labels(spec_dns_better(best, ldh, tlds[0]@, urls), ldh, tlds.skip(1), urls)
    }
}

/// The domain lookup over the remaining services, carrying the best
/// match so far: a service without elements stops the lookup, and at
/// the end the best match answers it.
pub open spec fn spec_dns_lookup(
    svcs: Seq<Vec<Vec<String>>>,
    ldh: Seq<char>,
    best: Option<(int, Seq<Seq<char>>)>,
) -> Result<Seq<Seq<char>>, BootstrapRegistryError>
    decreases svcs,
{
    if svcs.len() == 0 {
        match best {
            Some(b) => Ok(b.1),
            None => Err(BootstrapRegistryError::NoBootstrapUrls),
        }
    } else if svcs[0]@.len() == 0 {
        Err(BootstrapRegistryError::EmptyService)
    } else {
        spec_dns_lookup(
            svcs.skip(1),
            ldh,
            spec_dns_labels(best, ldh, svcs[0]@[0]@, spec_svc_urls(svcs[0])),
        )
    }
}

// --- the autonomous system lookup ---------------------------------------

/// The first index at or after `from` holding `c`, or the length.
pub open spec fn spec_find_char(s: Seq<char>, c: char, from: int) -> int
    decreases s.len() - from,
{
    if from < 0 || from >= s.len() {
        s.len() as int
    } else if s[from] == c {
        from
    } else {
        spec_find_char(s, c, from + 1)
    }
}

/// The last index holding `c`, or minus one.
pub open spec fn spec_rfind_char(s: Seq<char>, c: char) -> int
    decreases s,
{
    if s.len() == 0 {
        -1
    } else if s.last() == c {
        s.len() - 1
    } else {
        spec_rfind_char(s.drop_last(), c)
    }
}

/// The queried number with any leading `as` letters removed, in either
/// case.
pub open spec fn spec_strip_as(s: Seq<char>) -> Seq<char>
    decreases s,
{
    if s.len() > 0 && (s[0] == 'a' || s[0] == 'A' || s[0] == 's' || s[0] == 'S') {
        spec_strip_as(s.skip(1))
    } else {
        s
    }
}

/// Whether one range covers the number: the text before the first dash
/// is the start, the text after the last dash is the end. A bad start
/// aborts with an input error, a bad end with a service error.
pub open spec fn spec_range_eval(range: Seq<char>, autnum: u32) -> Result<
    bool,
    BootstrapRegistryError,
> {
    let first_tok = range.take(spec_find_char(range, '-', 0));
    let last_tok = range.skip(spec_rfind_char(range, '-') + 1);
    match spec_parse_u32(first_tok) {
        None => Err(BootstrapRegistryError::InvalidBootstrapInput),
        Some(start) => match spec_parse_u32(last_tok) {
            None => Err(BootstrapRegistryError::InvalidBootstrapService),
            Some(end) => Ok(start <= autnum && autnum <= end),
        },
    }
}

/// Whether some range of the list covers the number, scanning in order.
pub open spec fn spec_ranges_scan(ranges: Seq<String>, autnum: u32) -> Result<
    bool,
    BootstrapRegistryError,
>
    decreases ranges,
{
    if ranges.len() == 0 {
        Ok(false)
    } else {
        match spec_range_eval(ranges[0]@, autnum) {
            Err(e) => Err(e),
            Ok(true) => Ok(true),
            Ok(false) => spec_ranges_scan(ranges.skip(1), autnum),
        }
    }
}

/// The autonomous system lookup over the remaining services: the first
/// service with a covering range answers it.
pub open spec fn spec_asn_lookup(svcs: Seq<Vec<Vec<String>>>, autnum: u32) -> Result<
    Seq<Seq<char>>,
    BootstrapRegistryError,
>
    decreases svcs,
{
    if svcs.len() == 0 {
        Err(BootstrapRegistryError::NoBootstrapUrls)
    } else if svcs[0]@.len() == 0 {
        Err(BootstrapRegistryError::EmptyService)
    } else {
        match spec_ranges_scan(svcs[0]@[0]@, autnum) {
            Err(e) => Err(e),
            Ok(true) => Ok(spec_svc_urls(svcs[0])),
            Ok(false) => spec_asn_lookup(svcs.skip(1), autnum),
        }
    }
}

/// The whole autonomous system lookup, from the queried text.
pub open spec fn spec_asn_result(svcs: Seq<Vec<Vec<String>>>, asn: Seq<char>) -> Result<
    Seq<Seq<char>>,
    BootstrapRegistryError,
> {
    match spec_parse_u32(spec_strip_as(asn)) {
        None => Err(BootstrapRegistryError::InvalidBootstrapInput),
        Some(a) => spec_asn_lookup(svcs, a),
    }
}

/// Locating a character forward matches the first-index function.
proof fn lemma_find_char(s: Seq<char>, c: char, k: int)
    requires
        0 <= k <= s.len(),
        forall|j: int| 0 <= j < k ==> s[j] != c,
        k < s.len() ==> s[k] == c,
    ensures
        spec_find_char(s, c, 0) == k,
    decreases k,
{
    lemma_find_char_from(s, c, 0, k);
}

/// Locating a character forward from `from` matches the first-index
/// function.
proof fn lemma_find_char_from(s: Seq<char>, c: char, from: int, k: int)
    requires
        0 <= from <= k <= s.len(),
        forall|j: int| from <= j < k ==> s[j] != c,
        k < s.len() ==> s[k] == c,
    ensures
        spec_find_char(s, c, from) == k,
    decreases k - from,
{
    if from < k {
        lemma_find_char_from(s, c, from + 1, k);
    }
}

/// Locating a character backward matches the last-index function.
proof fn lemma_rfind_char(s: Seq<char>, c: char, k: int)
    requires
        -1 <= k < s.len(),
        forall|j: int| k < j < s.len() ==> s[j] != c,
        k >= 0 ==> s[k] == c,
    ensures
        spec_rfind_char(s, c) == k,
    decreases s,
{
    if s.len() > 0 {
        if s.last() == c {
        } else {
            lemma_rfind_char(s.drop_last(), c, k);
        }
    }
}

/// Evaluates one range of an autonomous system service.
fn range_eval(range: &str, autnum: u32) -> (r: Result<bool, BootstrapRegistryError>)
    ensures
        r == spec_range_eval(range@, autnum),
{
    let n = range.unicode_len();
    let mut f: usize = 0;
    loop
        invariant
            n == range@.len(),
            f <= n,
            forall|j: int| 0 <= j < f ==> range@[j] != '-',
        ensures
            f <= n,
            forall|j: int| 0 <= j < f ==> range@[j] != '-',
            f < n ==> range@[f as int] == '-',
        decreases n - f,
    {
        if f >= n {
            break ;
        }
        if range.get_char(f) == '-' {
            break ;
        }
        f += 1;
    }
    proof {
        lemma_find_char(range@, '-', f as int);
    }
    let mut l: usize = n;
    loop
        invariant
            n == range@.len(),
            l <= n,
            forall|j: int| l <= j < n ==> range@[j] != '-',
        ensures
            l <= n,
            forall|j: int| l <= j < n ==> range@[j] != '-',
            l > 0 ==> range@[l as int - 1] == '-',
        decreases l,
    {
        if l == 0 {
            break ;
        }
        if range.get_char(l - 1) == '-' {
            break ;
        }
        l -= 1;
    }
    proof {
        lemma_rfind_char(range@, '-', l as int - 1);
    }
    let first_tok = range.substring_char(0, f);
    let last_tok = range.substring_char(l, n);
    proof {
        assert(first_tok@ =~= range@.take(spec_find_char(range@, '-', 0)));
        assert(last_tok@ =~= range@.skip(spec_rfind_char(range@, '-') + 1));
    }
    match parse_u32(first_tok) {
        None => Err(BootstrapRegistryError::InvalidBootstrapInput),
        Some(start) => match parse_u32(last_tok) {
            None => Err(BootstrapRegistryError::InvalidBootstrapService),
            Some(end) => Ok(start <= autnum && autnum <= end),
        },
    }
}

// --- the tag lookup -----------------------------------------------------

/// The tag lookup over the remaining services: a service must carry a
/// tag list as its second element, and the first tag of the first
/// service equal to the query, without regard to ASCII case, answers
/// it.
pub open spec fn spec_tag_lookup(svcs: Seq<Vec<Vec<String>>>, tag: Seq<char>) -> Result<
    Seq<Seq<char>>,
    BootstrapRegistryError,
>
    decreases svcs,
{
    if svcs.len() == 0 {
        Err(BootstrapRegistryError::NoBootstrapUrls)
    } else if svcs[0]@.len() < 2 {
        Err(BootstrapRegistryError::InvalidBootstrapService)
    } else if svcs[0]@[1]@.len() == 0 {
        Err(BootstrapRegistryError::EmptyService)
    } else if spec_eq_ignore_ascii_case(svcs[0]@[1]@[0]@, tag) {
        Ok(spec_svc_urls(svcs[0]))
    } else {
        spec_tag_lookup(svcs.skip(1), tag)
    }
}

impl BootstrapRegistry for IanaRegistry {
    /// Get the URLs from the IANA domain bootstrap registry.
    fn get_dns_bootstrap_urls(&self, ldh: &str) -> (r: Result<Vec<String>, BootstrapRegistryError>)
        ensures
            match spec_dns_lookup(self.spec_services(), ldh@, None::<(int, Seq<Seq<char>>)>) {
                Ok(urls) => r matches Ok(v) && v.deep_view() == urls,
                Err(e) => r matches Err(e2) && e2 == e,
            },
    {
        let IanaRegistry::RdapBootstrapRegistry(bootstrap) = self;
        let svcs = &bootstrap.services;
        let n = svcs.len();
        let mut best_len: usize = 0;
        let mut best_urls: Option<&Vec<String>> = None;
        let ghost mut best: Option<(int, Seq<Seq<char>>)> = None::<(int, Seq<Seq<char>>)>;
        let mut i: usize = 0;
        proof {
            assert(svcs@.skip(0) =~= svcs@);
        }
        while i < n
            invariant
                n == svcs@.len(),
                i <= n,
                svcs@ == self.spec_services(),
                spec_dns_lookup(self.spec_services(), ldh@, None::<(int, Seq<Seq<char>>)>)
                    == spec_dns_lookup(svcs@.skip(i as int), ldh@, best),
                match best {
                    None => best_urls is None,
                    Some(b) => best_urls matches Some(u) && u.deep_view() == b.1 && b.0
                        == best_len as int,
                },
            decreases n - i,
        {
            let svc = &svcs[i];
            proof {
                assert(svcs@.skip(i as int)[0] == svcs@[i as int]);
            }
            if svc.len() == 0 {
                return Err(BootstrapRegistryError::EmptyService);
            }
            let tlds = &svc[0];
            let urls = &svc[svc.len() - 1];
            let ghost best0 = best;
            let m = tlds.len();
            let mut j: usize = 0;
            proof {
                assert(tlds@.skip(0) =~= tlds@);
            }
            while j < m
                invariant
                    n == svcs@.len(),
                    i < n,
                    svcs@[i as int]@.len() > 0,
                    m == tlds@.len(),
                    j <= m,
                    tlds@ == svcs@[i as int]@[0]@,
                    urls.deep_view() == spec_svc_urls(svcs@[i as int]),
                    spec_dns_labels(best0, ldh@, tlds@, urls.deep_view()) == spec_dns_labels(
                        best,
                        ldh@,
                        tlds@.skip(j as int),
                        urls.deep_view(),
                    ),
                    match best {
                        None => best_urls is None,
                        Some(b) => best_urls matches Some(u) && u.deep_view() == b.1 && b.0
                            == best_len as int,
                    },
                decreases m - j,
            {
                proof {
                    assert(tlds@.skip(j as int)[0] == tlds@[j as int]);
                }
                let tld = &tlds[j];
                let tl = tld.unicode_len();
                if ends_with_str(ldh, tld.as_str()) || tl == 0 {
                    match best_urls {
                        None => {
                            best_len = tl;
                            best_urls = Some(urls);
                        },
                        Some(_) => {
                            if best_len < tl {
                                best_len = tl;
                                best_urls = Some(urls);
                            }
                        },
                    }
                }
                proof {
                    best = spec_dns_better(best, ldh@, tlds@[j as int]@, urls.deep_view());
                }
                j += 1;
                proof {
                    assert(tlds@.skip(j as int - 1).skip(1) =~= tlds@.skip(j as int));
                }
            }
            proof {
                assert(tlds@.skip(m as int).len() == 0);
                assert(spec_dns_labels(best0, ldh@, tlds@, urls.deep_view()) == best);
            }
            i += 1;
            proof {
                assert(svcs@.skip(i as int - 1).skip(1) =~= svcs@.skip(i as int));
            }
        }
        proof {
            assert(svcs@.skip(n as int).len() == 0);
        }
        match best_urls {
            Some(u) => Ok(clone_string_vec(u)),
            None => Err(BootstrapRegistryError::NoBootstrapUrls),
        }
    }

    /// Get the URLs from the IANA autnum bootstrap registry.
    fn get_asn_bootstrap_urls(&self, asn: &str) -> (r: Result<Vec<String>, BootstrapRegistryError>)
        ensures
            match spec_asn_result(self.spec_services(), asn@) {
                Ok(urls) => r matches Ok(v) && v.deep_view() == urls,
                Err(e) => r matches Err(e2) && e2 == e,
            },
    {
        let n0 = asn.unicode_len();
        let mut st: usize = 0;
        proof {
            assert(asn@.skip(0) =~= asn@);
        }
        loop
            invariant
                n0 == asn@.len(),
                st <= n0,
                spec_strip_as(asn@) == spec_strip_as(asn@.skip(st as int)),
            ensures
                st <= n0,
                spec_strip_as(asn@) == spec_strip_as(asn@.skip(st as int)),
                st < n0 ==> !(asn@[st as int] == 'a' || asn@[st as int] == 'A' || asn@[st as int]
                    == 's' || asn@[st as int] == 'S'),
            decreases n0 - st,
        {
            if st >= n0 {
                break ;
            }
            let c = asn.get_char(st);
            if !(c == 'a' || c == 'A' || c == 's' || c == 'S') {
                break ;
            }
            st += 1;
            proof {
                assert(asn@.skip(st as int - 1)[0] == asn@[st as int - 1]);
                assert(asn@.skip(st as int - 1).skip(1) =~= asn@.skip(st as int));
            }
        }
        proof {
            if st < n0 {
                assert(asn@.skip(st as int)[0] == asn@[st as int]);
                assert(spec_strip_as(asn@.skip(st as int)) == asn@.skip(st as int));
            } else {
                assert(asn@.skip(st as int).len() == 0);
            }
        }
        let digits = asn.substring_char(st, n0);
        proof {
            assert(digits@ =~= asn@.skip(st as int));
        }
        let autnum = match parse_u32(digits) {
            Some(a) => a,
            None => {
                return Err(BootstrapRegistryError::InvalidBootstrapInput);
            },
        };
        let IanaRegistry::RdapBootstrapRegistry(bootstrap) = self;
        let svcs = &bootstrap.services;
        let n = svcs.len();
        let mut i: usize = 0;
        proof {
            assert(svcs@.skip(0) =~= svcs@);
        }
        while i < n
            invariant
                n == svcs@.len(),
                i <= n,
                svcs@ == self.spec_services(),
                spec_parse_u32(spec_strip_as(asn@)) == Some(autnum),
                spec_asn_lookup(self.spec_services(), autnum) == spec_asn_lookup(
                    svcs@.skip(i as int),
                    autnum,
                ),
            decreases n - i,
        {
            let svc = &svcs[i];
            proof {
                assert(svcs@.skip(i as int)[0] == svcs@[i as int]);
            }
            if svc.len() == 0 {
                return Err(BootstrapRegistryError::EmptyService);
            }
            let ranges = &svc[0];
            let m = ranges.len();
            let mut j: usize = 0;
            proof {
                assert(ranges@.skip(0) =~= ranges@);
            }
            while j < m
                invariant
                    n == svcs@.len(),
                    i < n,
                    svcs@ == self.spec_services(),
                    svcs@[i as int]@.len() > 0,
                    svc == &svcs@[i as int],
                    m == ranges@.len(),
                    j <= m,
                    ranges@ == svcs@[i as int]@[0]@,
                    spec_parse_u32(spec_strip_as(asn@)) == Some(autnum),
                    spec_asn_lookup(self.spec_services(), autnum) == spec_asn_lookup(
                        svcs@.skip(i as int),
                        autnum,
                    ),
                    spec_ranges_scan(ranges@, autnum) == spec_ranges_scan(
                        ranges@.skip(j as int),
                        autnum,
                    ),
                decreases m - j,
            {
                proof {
                    assert(ranges@.skip(j as int)[0] == ranges@[j as int]);
                }
                match range_eval(ranges[j].as_str(), autnum) {
                    Err(e) => {
                        return Err(e);
                    },
                    Ok(true) => {
                        let urls = &svc[svc.len() - 1];
                        return Ok(clone_string_vec(urls));
                    },
                    Ok(false) => {},
                }
                j += 1;
                proof {
                    assert(ranges@.skip(j as int - 1).skip(1) =~= ranges@.skip(j as int));
                }
            }
            proof {
                assert(ranges@.skip(m as int).len() == 0);
            }
            i += 1;
            proof {
                assert(svcs@.skip(i as int - 1).skip(1) =~= svcs@.skip(i as int));
            }
        }
        proof {
            assert(svcs@.skip(n as int).len() == 0);
        }
        Err(BootstrapRegistryError::NoBootstrapUrls)
    }

    /// Get the URLs from the IANA IPv4 bootstrap registry.
    fn get_ipv4_bootstrap_urls(&self, ipv4: &str) -> (r: Result<
        Vec<String>,
        BootstrapRegistryError,
    >) {
        crate::iana::lpm::ipv4_lookup(self, ipv4)
    }

    /// Get the URLs from the IANA IPv6 bootstrap registry.
    fn get_ipv6_bootstrap_urls(&self, ipv6: &str) -> (r: Result<
        Vec<String>,
        BootstrapRegistryError,
    >) {
        crate::iana::lpm::ipv6_lookup(self, ipv6)
    }

    /// Get the URLs from the IANA object tag bootstrap registry.
    fn get_tag_bootstrap_urls(&self, tag: &str) -> (r: Result<Vec<String>, BootstrapRegistryError>)
        ensures
            match spec_tag_lookup(self.spec_services(), tag@) {
                Ok(urls) => r matches Ok(v) && v.deep_view() == urls,
                Err(e) => r matches Err(e2) && e2 == e,
            },
    {
        let IanaRegistry::RdapBootstrapRegistry(bootstrap) = self;
        let svcs = &bootstrap.services;
        let n = svcs.len();
        let mut i: usize = 0;
        proof {
            assert(svcs@.skip(0) =~= svcs@);
        }
        while i < n
            invariant
                n == svcs@.len(),
                i <= n,
                svcs@ == self.spec_services(),
                spec_tag_lookup(self.spec_services(), tag@) == spec_tag_lookup(
                    svcs@.skip(i as int),
                    tag@,
                ),
            decreases n - i,
        {
            let svc = &svcs[i];
            proof {
                assert(svcs@.skip(i as int)[0] == svcs@[i as int]);
            }
            if svc.len() < 2 {
                return Err(BootstrapRegistryError::InvalidBootstrapService);
            }
            let tags = &svc[1];
            if tags.len() == 0 {
                return Err(BootstrapRegistryError::EmptyService);
            }
            if eq_ignore_ascii_case_str(tags[0].as_str(), tag) {
                let urls = &svc[svc.len() - 1];
                return Ok(clone_string_vec(urls));
            }
            i += 1;
            proof {
                assert(svcs@.skip(i as int - 1).skip(1) =~= svcs@.skip(i as int));
            }
        }
        proof {
            assert(svcs@.skip(n as int).len() == 0);
        }
        Err(BootstrapRegistryError::NoBootstrapUrls)
    }
}

} // verus!
