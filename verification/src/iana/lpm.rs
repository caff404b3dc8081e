//! The address bootstrap lookups, through a longest-prefix-match trie.
//!
//! The registry's networks are parsed and inserted into a prefix map;
//! the queried network is then answered by the value of the longest
//! stored prefix containing it. The trie stores keys with their host
//! bits masked off, so the map is modeled here by the masked address
//! bits and the prefix length of each stored network.

use vstd::prelude::*;

use ipnet::{Ipv4Net, Ipv6Net};
use prefix_trie::PrefixMap;

use crate::addr::{ipv6_net_of, spec_ipv4_value, spec_valid_ipv4, spec_all_digits, spec_dec_value};
use crate::iana::{spec_find_char, spec_svc_urls, BootstrapRegistryError, IanaRegistry};

verus! {

#[verifier::external_type_specification]
#[verifier::external_body]
pub struct ExIpv4Net(Ipv4Net);

#[verifier::external_type_specification]
#[verifier::external_body]
pub struct ExIpv6Net(Ipv6Net);

#[verifier::external_type_specification]
#[verifier::external_body]
#[verifier::reject_recursive_types(P)]
#[verifier::reject_recursive_types(T)]
pub struct ExPrefixMap<P, T>(PrefixMap<P, T>);

/// What an IPv4 prefix map holds: the URLs under each stored network,
/// keyed by its masked address bits and prefix length.
pub uninterp spec fn v4_map_model(m: PrefixMap<Ipv4Net, Vec<String>>) -> Map<
    (u32, u8),
    Seq<Seq<char>>,
>;

/// What an IPv6 prefix map holds: the URLs under each stored network,
/// keyed by its masked address bits and prefix length.
pub uninterp spec fn v6_map_model(m: PrefixMap<Ipv6Net, Vec<String>>) -> Map<
    (u128, u8),
    Seq<Seq<char>>,
>;

/// The address bits kept by a prefix of the given length.
pub open spec fn spec_mask32(a: u32, len: u8) -> u32 {
    if len == 0 {
        0
    } else if len >= 32 {
        a
    } else {
        (a >> ((32 - len) as u32)) << ((32 - len) as u32)
    }
}

/// The address bits kept by a prefix of the given length.
pub open spec fn spec_mask128(a: u128, len: u8) -> u128 {
    if len == 0 {
        0
    } else if len >= 128 {
        a
    } else {
        (a >> ((128 - len) as u32)) << ((128 - len) as u32)
    }
}

/// True when the text is an IPv4 prefix-length part: one or two
/// digits, at most 32.
pub open spec fn spec_valid_v4_len(t: Seq<char>) -> bool {
    1 <= t.len() <= 2 && spec_all_digits(t) && spec_dec_value(t) <= 32
}

/// True when the text is an IPv4 network: an address, a slash, and a
/// prefix length.
pub open spec fn spec_valid_v4cidr(s: Seq<char>) -> bool {
    let k = spec_find_char(s, '/', 0);
    &&& k < s.len()
    &&& spec_valid_ipv4(s.take(k))
    &&& spec_valid_v4_len(s.skip(k + 1))
}

/// The key an IPv4 network text stands for: its masked address bits
/// and its prefix length.
pub open spec fn spec_v4cidr_key(s: Seq<char>) -> (u32, u8) {
    let k = spec_find_char(s, '/', 0);
    let len = spec_dec_value(s.skip(k + 1)) as u8;
    (spec_mask32(spec_ipv4_value(s.take(k)) as u32, len), len)
}

/// The key an IPv6 network text stands for, through the `ipnet` parse:
/// its masked address bits and its prefix length.
pub open spec fn spec_v6cidr_key(s: Seq<char>) -> (u128, u8) {
    let p = ipv6_net_of(s)->Some_0;
    (spec_mask128(p.0, p.1), p.1)
}

/// True when the stored prefix contains the queried one: it is at most
/// as long, and the query's bits begin with its bits.
pub open spec fn spec_v4_contains(k: (u32, u8), q: (u32, u8)) -> bool {
    k.1 <= q.1 && spec_mask32(q.0, k.1) == k.0
}

/// True when the stored prefix contains the queried one.
pub open spec fn spec_v6_contains(k: (u128, u8), q: (u128, u8)) -> bool {
    k.1 <= q.1 && spec_mask128(q.0, k.1) == k.0
}

/// The model of a map with nothing in it.
pub open spec fn v4_empty_model() -> Map<(u32, u8), Seq<Seq<char>>> {
    Map::empty()
}

/// The model of a map with nothing in it.
pub open spec fn v6_empty_model() -> Map<(u128, u8), Seq<Seq<char>>> {
    Map::empty()
}

/// Relies on `prefix_trie::PrefixMap::new`: the fresh map is empty.
#[verifier::external_body]
fn v4_map_new() -> (r: PrefixMap<Ipv4Net, Vec<String>>)
    ensures
        v4_map_model(r) == v4_empty_model(),
{
    PrefixMap::new()
}

/// Relies on `ipnet::Ipv4Net`'s string parse (octets of up to three
/// digits, a prefix length of up to two digits at most 32) and on
/// `prefix_trie::PrefixMap::insert`, which stores the value under the
/// masked network, replacing any earlier value there.
#[verifier::external_body]
fn v4_map_insert(m: &mut PrefixMap<Ipv4Net, Vec<String>>, cidr: &str, urls: &Vec<String>) -> (ok:
    bool)
    ensures
        ok == spec_valid_v4cidr(cidr@),
        ok ==> v4_map_model(*final(m)) == v4_map_model(*old(m)).insert(
            spec_v4cidr_key(cidr@),
            urls.deep_view(),
        ),
        !ok ==> v4_map_model(*final(m)) == v4_map_model(*old(m)),
{
    match cidr.parse::<Ipv4Net>() {
        Ok(net) => {
            m.insert(net, urls.clone());
            true
        },
        Err(_) => false,
    }
}

/// Relies on `ipnet::Ipv4Net`'s string parse and on
/// `prefix_trie::PrefixMap::get_lpm`: the value of the longest stored
/// prefix containing the queried network, when one contains it.
#[verifier::external_body]
fn v4_map_lookup(m: &PrefixMap<Ipv4Net, Vec<String>>, cidr: &str) -> (r: Result<
    Option<Vec<String>>,
    (),
>)
    ensures
        r is Err <==> !spec_valid_v4cidr(cidr@),
        r matches Ok(found) ==> match found {
            Some(urls) => exists|k: (u32, u8)|
                #![auto]
                v4_map_model(*m).contains_key(k) && spec_v4_contains(k, spec_v4cidr_key(cidr@))
                    && urls.deep_view() == v4_map_model(*m)[k] && (forall|k2: (u32, u8)|
                    v4_map_model(*m).contains_key(k2) && spec_v4_contains(
                        k2,
                        spec_v4cidr_key(cidr@),
                    ) ==> k2.1 <= k.1),
            None => forall|k: (u32, u8)|
                v4_map_model(*m).contains_key(k) ==> !spec_v4_contains(
                    k,
                    spec_v4cidr_key(cidr@),
                ),
        },
{
    match cidr.parse::<Ipv4Net>() {
        Ok(net) => Ok(m.get_lpm(&net).map(|p| p.1.clone())),
        Err(_) => Err(()),
    }
}

/// Relies on `prefix_trie::PrefixMap::new`: the fresh map is empty.
#[verifier::external_body]
fn v6_map_new() -> (r: PrefixMap<Ipv6Net, Vec<String>>)
    ensures
        v6_map_model(r) == v6_empty_model(),
{
    PrefixMap::new()
}

/// Relies on `ipnet::Ipv6Net`'s string parse and on
/// `prefix_trie::PrefixMap::insert`, which stores the value under the
/// masked network, replacing any earlier value there.
#[verifier::external_body]
fn v6_map_insert(m: &mut PrefixMap<Ipv6Net, Vec<String>>, cidr: &str, urls: &Vec<String>) -> (ok:
    bool)
    ensures
        ok == (ipv6_net_of(cidr@) is Some),
        ok ==> v6_map_model(*final(m)) == v6_map_model(*old(m)).insert(
            spec_v6cidr_key(cidr@),
            urls.deep_view(),
        ),
        !ok ==> v6_map_model(*final(m)) == v6_map_model(*old(m)),
{
    match cidr.parse::<Ipv6Net>() {
        Ok(net) => {
            m.insert(net, urls.clone());
            true
        },
        Err(_) => false,
    }
}

/// Relies on `ipnet::Ipv6Net`'s string parse and on
/// `prefix_trie::PrefixMap::get_lpm`: the value of the longest stored
/// prefix containing the queried network, when one contains it.
#[verifier::external_body]
fn v6_map_lookup(m: &PrefixMap<Ipv6Net, Vec<String>>, cidr: &str) -> (r: Result<
    Option<Vec<String>>,
    (),
>)
    ensures
        r is Err <==> !(ipv6_net_of(cidr@) is Some),
        r matches Ok(found) ==> match found {
            Some(urls) => exists|k: (u128, u8)|
                #![auto]
                v6_map_model(*m).contains_key(k) && spec_v6_contains(k, spec_v6cidr_key(cidr@))
                    && urls.deep_view() == v6_map_model(*m)[k] && (forall|k2: (u128, u8)|
                    v6_map_model(*m).contains_key(k2) && spec_v6_contains(
                        k2,
                        spec_v6cidr_key(cidr@),
                    ) ==> k2.1 <= k.1),
            None => forall|k: (u128, u8)|
                v6_map_model(*m).contains_key(k) ==> !spec_v6_contains(
                    k,
                    spec_v6cidr_key(cidr@),
                ),
        },
{
    match cidr.parse::<Ipv6Net>() {
        Ok(net) => Ok(m.get_lpm(&net).map(|p| p.1.clone())),
        Err(_) => Err(()),
    }
}

/// The map the IPv4 services fill: each service's networks inserted in
/// order with the service's URLs, a malformed network stopping the
/// fill, an empty service stopping the lookup.
pub open spec fn spec_v4_fill_cidrs(
    cidrs: Seq<String>,
    urls: Seq<Seq<char>>,
    m: Map<(u32, u8), Seq<Seq<char>>>,
) -> Result<Map<(u32, u8), Seq<Seq<char>>>, BootstrapRegistryError>
    decreases cidrs,
{
    if cidrs.len() == 0 {
        Ok(m)
    } else if !spec_valid_v4cidr(cidrs[0]@) {
        Err(BootstrapRegistryError::InvalidBootstrapService)
    } else {
        spec_v4_fill_cidrs(cidrs.skip(1), urls, m.insert(spec_v4cidr_key(cidrs[0]@), urls))
    }
}

/// The filled IPv4 map over the remaining services.
pub open spec fn spec_v4_fill(
    svcs: Seq<Vec<Vec<String>>>,
    m: Map<(u32, u8), Seq<Seq<char>>>,
) -> Result<Map<(u32, u8), Seq<Seq<char>>>, BootstrapRegistryError>
    decreases svcs,
{
    if svcs.len() == 0 {
        Ok(m)
    } else if svcs[0]@.len() == 0 {
        Err(BootstrapRegistryError::EmptyService)
    } else {
        match spec_v4_fill_cidrs(svcs[0]@[0]@, spec_svc_urls(svcs[0]), m) {
            Err(e) => Err(e),
            Ok(m2) => spec_v4_fill(svcs.skip(1), m2),
        }
    }
}

/// The map the IPv6 services fill.
pub open spec fn spec_v6_fill_cidrs(
    cidrs: Seq<String>,
    urls: Seq<Seq<char>>,
    m: Map<(u128, u8), Seq<Seq<char>>>,
) -> Result<Map<(u128, u8), Seq<Seq<char>>>, BootstrapRegistryError>
    decreases cidrs,
{
    if cidrs.len() == 0 {
        Ok(m)
    } else if !(ipv6_net_of(cidrs[0]@) is Some) {
        Err(BootstrapRegistryError::InvalidBootstrapService)
    } else {
        spec_v6_fill_cidrs(cidrs.skip(1), urls, m.insert(spec_v6cidr_key(cidrs[0]@), urls))
    }
}

/// The filled IPv6 map over the remaining services.
pub open spec fn spec_v6_fill(
    svcs: Seq<Vec<Vec<String>>>,
    m: Map<(u128, u8), Seq<Seq<char>>>,
) -> Result<Map<(u128, u8), Seq<Seq<char>>>, BootstrapRegistryError>
    decreases svcs,
{
    if svcs.len() == 0 {
        Ok(m)
    } else if svcs[0]@.len() == 0 {
        Err(BootstrapRegistryError::EmptyService)
    } else {
        match spec_v6_fill_cidrs(svcs[0]@[0]@, spec_svc_urls(svcs[0]), m) {
            Err(e) => Err(e),
            Ok(m2) => spec_v6_fill(svcs.skip(1), m2),
        }
    }
}

/// Answers an IPv4 bootstrap query: fills the prefix map from the
/// services and takes the longest stored prefix containing the queried
/// network.
pub fn ipv4_lookup(reg: &IanaRegistry, ipv4: &str) -> (r: Result<
    Vec<String>,
    BootstrapRegistryError,
>)
    ensures
        match spec_v4_fill(reg.spec_services(), v4_empty_model()) {
            Err(e) => r matches Err(e2) && e2 == e,
            Ok(m) => if !spec_valid_v4cidr(ipv4@) {
                r matches Err(e2) && e2 == BootstrapRegistryError::InvalidBootstrapInput
            } else {
                match r {
                    Ok(v) => exists|k: (u32, u8)|
                        #![auto]
                        m.contains_key(k) && spec_v4_contains(k, spec_v4cidr_key(ipv4@))
                            && v.deep_view() == m[k] && (forall|k2: (u32, u8)|
                            m.contains_key(k2) && spec_v4_contains(k2, spec_v4cidr_key(ipv4@))
                                ==> k2.1 <= k.1),
                    Err(e2) => e2 == BootstrapRegistryError::NoBootstrapUrls && (forall|
                        k: (u32, u8),
                    |
                        m.contains_key(k) ==> !spec_v4_contains(k, spec_v4cidr_key(ipv4@))),
                }
            },
        },
{
    let IanaRegistry::RdapBootstrapRegistry(bootstrap) = reg;
    let svcs = &bootstrap.services;
    let mut pm = v4_map_new();
    let n = svcs.len();
    let mut i: usize = 0;
    proof {
        assert(svcs@.skip(0) =~= svcs@);
    }
    while i < n
        invariant
            n == svcs@.len(),
            i <= n,
            svcs@ == reg.spec_services(),
            spec_v4_fill(reg.spec_services(), v4_empty_model())
                == spec_v4_fill(svcs@.skip(i as int), v4_map_model(pm)),
        decreases n - i,
    {
        let svc = &svcs[i];
        proof {
            assert(svcs@.skip(i as int)[0] == svcs@[i as int]);
        }
        if svc.len() == 0 {
            return Err(BootstrapRegistryError::EmptyService);
        }
        let cidrs = &svc[0];
        let urls = &svc[svc.len() - 1];
        let ghost m0 = v4_map_model(pm);
        let m = cidrs.len();
        let mut j: usize = 0;
        proof {
            assert(cidrs@.skip(0) =~= cidrs@);
        }
        while j < m
            invariant
                n == svcs@.len(),
                i < n,
                svcs@ == reg.spec_services(),
                svcs@[i as int]@.len() > 0,
                m == cidrs@.len(),
                j <= m,
                cidrs@ == svcs@[i as int]@[0]@,
                urls.deep_view() == spec_svc_urls(svcs@[i as int]),
                spec_v4_fill(reg.spec_services(), v4_empty_model()) == spec_v4_fill(
                    svcs@.skip(i as int),
                    m0,
                ),
                spec_v4_fill_cidrs(cidrs@, urls.deep_view(), m0) == spec_v4_fill_cidrs(
                    cidrs@.skip(j as int),
                    urls.deep_view(),
                    v4_map_model(pm),
                ),
            decreases m - j,
        {
            proof {
                assert(cidrs@.skip(j as int)[0] == cidrs@[j as int]);
            }
            if !v4_map_insert(&mut pm, cidrs[j].as_str(), urls) {
                return Err(BootstrapRegistryError::InvalidBootstrapService);
            }
            j += 1;
            proof {
                assert(cidrs@.skip(j as int - 1).skip(1) =~= cidrs@.skip(j as int));
            }
        }
        proof {
            assert(cidrs@.skip(m as int).len() == 0);
        }
        i += 1;
        proof {
            assert(svcs@.skip(i as int - 1).skip(1) =~= svcs@.skip(i as int));
        }
    }
    proof {
        assert(svcs@.skip(n as int).len() == 0);
        assert(spec_v4_fill(reg.spec_services(), v4_empty_model()) matches Ok(mm) && mm
            == v4_map_model(pm));
    }
    match v4_map_lookup(&pm, ipv4) {
        Err(_) => Err(BootstrapRegistryError::InvalidBootstrapInput),
        Ok(None) => Err(BootstrapRegistryError::NoBootstrapUrls),
        Ok(Some(urls)) => Ok(urls),
    }
}

/// Answers an IPv6 bootstrap query: fills the prefix map from the
/// services and takes the longest stored prefix containing the queried
/// network.
pub fn ipv6_lookup(reg: &IanaRegistry, ipv6: &str) -> (r: Result<
    Vec<String>,
    BootstrapRegistryError,
>)
    ensures
        match spec_v6_fill(reg.spec_services(), v6_empty_model()) {
            Err(e) => r matches Err(e2) && e2 == e,
            Ok(m) => if !(ipv6_net_of(ipv6@) is Some) {
                r matches Err(e2) && e2 == BootstrapRegistryError::InvalidBootstrapInput
            } else {
                match r {
                    Ok(v) => exists|k: (u128, u8)|
                        #![auto]
                        m.contains_key(k) && spec_v6_contains(k, spec_v6cidr_key(ipv6@))
                            && v.deep_view() == m[k] && (forall|k2: (u128, u8)|
                            m.contains_key(k2) && spec_v6_contains(k2, spec_v6cidr_key(ipv6@))
                                ==> k2.1 <= k.1),
                    Err(e2) => e2 == BootstrapRegistryError::NoBootstrapUrls && (forall|
                        k: (u128, u8),
                    |
                        m.contains_key(k) ==> !spec_v6_contains(k, spec_v6cidr_key(ipv6@))),
                }
            },
        },
{
    let IanaRegistry::RdapBootstrapRegistry(bootstrap) = reg;
    let svcs = &bootstrap.services;
    let mut pm = v6_map_new();
    let n = svcs.len();
    let mut i: usize = 0;
    proof {
        assert(svcs@.skip(0) =~= svcs@);
    }
    while i < n
        invariant
            n == svcs@.len(),
            i <= n,
            svcs@ == reg.spec_services(),
            spec_v6_fill(reg.spec_services(), v6_empty_model())
                == spec_v6_fill(svcs@.skip(i as int), v6_map_model(pm)),
        decreases n - i,
    {
        let svc = &svcs[i];
        proof {
            assert(svcs@.skip(i as int)[0] == svcs@[i as int]);
        }
        if svc.len() == 0 {
            return Err(BootstrapRegistryError::EmptyService);
        }
        let cidrs = &svc[0];
        let urls = &svc[svc.len() - 1];
        let ghost m0 = v6_map_model(pm);
        let m = cidrs.len();
        let mut j: usize = 0;
        proof {
            assert(cidrs@.skip(0) =~= cidrs@);
        }
        while j < m
            invariant
                n == svcs@.len(),
                i < n,
                svcs@ == reg.spec_services(),
                svcs@[i as int]@.len() > 0,
                m == cidrs@.len(),
                j <= m,
                cidrs@ == svcs@[i as int]@[0]@,
                urls.deep_view() == spec_svc_urls(svcs@[i as int]),
                spec_v6_fill(reg.spec_services(), v6_empty_model()) == spec_v6_fill(
                    svcs@.skip(i as int),
                    m0,
                ),
                spec_v6_fill_cidrs(cidrs@, urls.deep_view(), m0) == spec_v6_fill_cidrs(
                    cidrs@.skip(j as int),
                    urls.deep_view(),
                    v6_map_model(pm),
                ),
            decreases m - j,
        {
            proof {
                assert(cidrs@.skip(j as int)[0] == cidrs@[j as int]);
            }
            if !v6_map_insert(&mut pm, cidrs[j].as_str(), urls) {
                return Err(BootstrapRegistryError::InvalidBootstrapService);
            }
            j += 1;
            proof {
                assert(cidrs@.skip(j as int - 1).skip(1) =~= cidrs@.skip(j as int));
            }
        }
        proof {
            assert(cidrs@.skip(m as int).len() == 0);
        }
        i += 1;
        proof {
            assert(svcs@.skip(i as int - 1).skip(1) =~= svcs@.skip(i as int));
        }
    }
    proof {
        assert(svcs@.skip(n as int).len() == 0);
        assert(spec_v6_fill(reg.spec_services(), v6_empty_model()) matches Ok(mm) && mm
            == v6_map_model(pm));
    }
    match v6_map_lookup(&pm, ipv6) {
        Err(_) => Err(BootstrapRegistryError::InvalidBootstrapInput),
        Ok(None) => Err(BootstrapRegistryError::NoBootstrapUrls),
        Ok(Some(urls)) => Ok(urls),
    }
}

} // verus!
