//! Textual IP addresses and autonomous system numbers.
//!
//! The engine must judge addresses as servers send them: as text. The
//! IPv4 grammar here is the common lenient one (one to three decimal
//! digits per octet, leading zeros allowed, each octet at most 255),
//! matching the parser the bootstrap registries go through. Beside the
//! parsers stand the special-use classifications: the well-known
//! private, loopback, documentation and reserved ranges that are worth
//! flagging but are not errors.

use vstd::prelude::*;

use crate::check::Check;

verus! {

/// True for the ten ASCII digits.
pub open spec fn spec_is_digit(c: char) -> bool {
    '0' <= c && c <= '9'
}

/// The value of one ASCII digit.
pub open spec fn spec_digit_val(c: char) -> int {
    c as int - '0' as int
}

/// True when the string is all digits (and so nonempty runs parse).
pub open spec fn spec_all_digits(s: Seq<char>) -> bool {
    forall|i: int| 0 <= i < s.len() ==> spec_is_digit(s[i])
}

/// The value of a digit string read in base ten.
pub open spec fn spec_dec_value(s: Seq<char>) -> int
    decreases s,
{
    if s.len() == 0 {
        0
    } else {
        spec_dec_value(s.drop_last()) * 10 + spec_digit_val(s.last())
    }
}

/// Ten to the given power.
pub open spec fn spec_pow10(n: nat) -> int
    decreases n,
{
    if n == 0 {
        1
    } else {
        10 * spec_pow10((n - 1) as nat)
    }
}

/// A digit string's value is at least zero and below ten to its length.
pub proof fn lemma_dec_value_bounds(s: Seq<char>)
    requires
        spec_all_digits(s),
    ensures
        0 <= spec_dec_value(s) < spec_pow10(s.len()),
    decreases s,
{
    if s.len() > 0 {
        lemma_dec_value_bounds(s.drop_last());
    }
}

/// Reading more digits never shrinks the value.
pub proof fn lemma_dec_value_prefix(s: Seq<char>, i: int)
    requires
        spec_all_digits(s),
        0 <= i <= s.len(),
    ensures
        spec_dec_value(s.take(i)) <= spec_dec_value(s),
    decreases s.len() - i,
{
    if i < s.len() {
        lemma_dec_value_bounds(s.take(i));
        assert(s.take(i + 1).drop_last() =~= s.take(i));
        assert(spec_all_digits(s.take(i + 1)));
        assert(spec_dec_value(s.take(i + 1)) == spec_dec_value(s.take(i)) * 10 + spec_digit_val(
            s[i],
        ));
        lemma_dec_value_prefix(s, i + 1);
        assert(s.take(s.len() as int) =~= s);
    } else {
        assert(s.take(i) =~= s);
    }
}

/// The value of a pure digit string, when it has a digit and fits.
pub open spec fn spec_u32_digits(t: Seq<char>) -> Option<u32> {
    if t.len() > 0 && spec_all_digits(t) && spec_dec_value(t) < 0x1_0000_0000 {
        Some(spec_dec_value(t) as u32)
    } else {
        None
    }
}

/// The value a `u32` parse of the string gives: an optional plus sign,
/// then only digits, and a value that fits.
pub open spec fn spec_parse_u32(s: Seq<char>) -> Option<u32> {
    if s.len() > 0 && s[0] == '+' {
        spec_u32_digits(s.skip(1))
    } else {
        spec_u32_digits(s)
    }
}

/// Parses an unsigned 32-bit decimal number: an optional leading plus
/// sign, then one or more digits; anything else, or a value that does
/// not fit, is `None`.
pub fn parse_u32(s: &str) -> (r: Option<u32>)
    ensures
        r == spec_parse_u32(s@),
{
    let n = s.unicode_len();
    let start: usize = if n > 0 && s.get_char(0) == '+' {
        1
    } else {
        0
    };
    let ghost t = if s@.len() > 0 && s@[0] == '+' {
        s@.skip(1)
    } else {
        s@
    };
    proof {
        assert(t =~= s@.subrange(start as int, n as int));
    }
    if n == start {
        proof {
            assert(t.len() == 0);
            assert(spec_parse_u32(s@) == spec_u32_digits(t));
        }
        return None;
    }
    let mut v: u64 = 0;
    let mut i: usize = start;
    while i < n
        invariant
            n == s@.len(),
            start <= i <= n,
            t == s@.subrange(start as int, n as int),
            spec_parse_u32(s@) == spec_u32_digits(t),
            spec_all_digits(t.take(i - start)),
            v == spec_dec_value(t.take(i - start)),
            v < 0x1_0000_0000,
        decreases n - i,
    {
        let c = s.get_char(i);
        if !('0' <= c && c <= '9') {
            proof {
                assert(t[i - start] == c);
                assert(!spec_all_digits(t));
                assert(spec_parse_u32(s@) == spec_u32_digits(t));
            }
            return None;
        }
        let d = (c as u32) - 48;
        v = v * 10 + (d as u64);
        i += 1;
        proof {
            assert(t.take(i - start).drop_last() =~= t.take(i - start - 1));
            assert(t.take(i - start).last() == c);
        }
        if v > 0xFFFF_FFFF {
            proof {
                if spec_all_digits(t) {
                    lemma_dec_value_prefix(t, i - start);
                }
                assert(spec_parse_u32(s@) == spec_u32_digits(t));
            }
            return None;
        }
    }
    proof {
        assert(t.take(n - start) =~= t);
        assert(spec_parse_u32(s@) == spec_u32_digits(t));
    }
    Some(v as u32)
}

/// A valid octet of the lenient IPv4 grammar: one to three digits,
/// value at most 255.
pub open spec fn spec_valid_octet(s: Seq<char>) -> bool {
    1 <= s.len() <= 3 && spec_all_digits(s) && spec_dec_value(s) <= 255
}

/// A decomposition of `s` as four octets around dots at the three
/// given positions.
pub open spec fn spec_ipv4_decomp(s: Seq<char>, p1: int, p2: int, p3: int) -> bool {
    &&& 0 <= p1 < p2 < p3 < s.len()
    &&& s[p1] == '.'
    &&& s[p2] == '.'
    &&& s[p3] == '.'
    &&& spec_valid_octet(s.subrange(0, p1))
    &&& spec_valid_octet(s.subrange(p1 + 1, p2))
    &&& spec_valid_octet(s.subrange(p2 + 1, p3))
    &&& spec_valid_octet(s.subrange(p3 + 1, s.len() as int))
}

/// True when the string is an IPv4 address of the lenient grammar.
pub open spec fn spec_valid_ipv4(s: Seq<char>) -> bool {
    exists|p1: int, p2: int, p3: int| spec_ipv4_decomp(s, p1, p2, p3)
}

/// The 32-bit value of a valid IPv4 address string.
pub open spec fn spec_ipv4_value(s: Seq<char>) -> int {
    let (p1, p2, p3) = choose|p1: int, p2: int, p3: int| spec_ipv4_decomp(s, p1, p2, p3);
    spec_dec_value(s.subrange(0, p1)) * 0x1000000 + spec_dec_value(s.subrange(p1 + 1, p2))
        * 0x10000 + spec_dec_value(s.subrange(p2 + 1, p3)) * 0x100 + spec_dec_value(
        s.subrange(p3 + 1, s.len() as int),
    )
}

/// In a decomposition the octets hold digits only, so the dots of the
/// decomposition are the only dots of the string.
proof fn lemma_ipv4_decomp_dots(s: Seq<char>, p1: int, p2: int, p3: int, x: int)
    requires
        spec_ipv4_decomp(s, p1, p2, p3),
        0 <= x < s.len(),
        s[x] == '.',
    ensures
        x == p1 || x == p2 || x == p3,
{
    if x < p1 {
        assert(spec_is_digit(s.subrange(0, p1)[x]));
        assert(false);
    } else if p1 < x < p2 {
        assert(spec_is_digit(s.subrange(p1 + 1, p2)[x - p1 - 1]));
        assert(false);
    } else if p2 < x < p3 {
        assert(spec_is_digit(s.subrange(p2 + 1, p3)[x - p2 - 1]));
        assert(false);
    } else if p3 < x {
        assert(spec_is_digit(s.subrange(p3 + 1, s.len() as int)[x - p3 - 1]));
        assert(false);
    }
}

/// The value of a digit segment, or `None` when the segment is not a
/// valid octet.
fn octet_value(s: &str, lo: usize, hi: usize) -> (r: Option<u32>)
    requires
        lo <= hi <= s@.len(),
    ensures
        r is Some <==> spec_valid_octet(s@.subrange(lo as int, hi as int)),
        r matches Some(v) ==> v == spec_dec_value(s@.subrange(lo as int, hi as int)) && v <= 255,
{
    let ghost seg = s@.subrange(lo as int, hi as int);
    let len = hi - lo;
    if len < 1 || len > 3 {
        return None;
    }
    let mut v: u32 = 0;
    let mut i: usize = 0;
    while i < len
        invariant
            lo <= hi <= s@.len(),
            seg == s@.subrange(lo as int, hi as int),
            len == hi - lo,
            1 <= len <= 3,
            i <= len,
            spec_all_digits(seg.take(i as int)),
            v == spec_dec_value(seg.take(i as int)),
            v <= 999,
        decreases len - i,
    {
        let c = s.get_char(lo + i);
        proof {
            assert(seg[i as int] == c);
        }
        if !('0' <= c && c <= '9') {
            proof {
                assert(!spec_all_digits(seg));
            }
            return None;
        }
        proof {
            lemma_dec_value_bounds(seg.take(i as int));
            reveal_with_fuel(spec_pow10, 4);
        }
        v = v * 10 + ((c as u32) - 48);
        i += 1;
        proof {
            assert(seg.take(i as int).drop_last() =~= seg.take(i as int - 1));
            assert(seg.take(i as int).last() == c);
        }
    }
    proof {
        assert(seg.take(len as int) =~= seg);
    }
    if v > 255 {
        return None;
    }
    Some(v)
}

/// Parses an IPv4 address of the lenient grammar: four octets of one
/// to three digits each, joined by dots. Returns the 32-bit value, or
/// `None` when the string has any other shape.
pub fn parse_ipv4(s: &str) -> (r: Option<u32>)
    ensures
        r is Some <==> spec_valid_ipv4(s@),
        r matches Some(v) ==> v == spec_ipv4_value(s@),
{
    let n = s.unicode_len();
    // Find the dots; a valid address has exactly three of them, its
    // decomposition points.
    let mut d1: usize = 0;
    let mut d2: usize = 0;
    let mut d3: usize = 0;
    let mut ndots: usize = 0;
    let mut i: usize = 0;
    while i < n
        invariant
            n == s@.len(),
            i <= n,
            ndots <= 3,
            ndots >= 1 ==> d1 < i && s@[d1 as int] == '.',
            ndots >= 2 ==> d1 < d2 < i && s@[d2 as int] == '.',
            ndots >= 3 ==> d2 < d3 < i && s@[d3 as int] == '.',
            forall|j: int|
                0 <= j < i && s@[j] == '.' ==> (ndots >= 1 && j == d1) || (ndots >= 2 && j == d2)
                    || (ndots >= 3 && j == d3),
        decreases n - i,
    {
        if s.get_char(i) == '.' {
            if ndots == 3 {
                // A fourth dot: no decomposition exists, since all dots
                // of a decomposed address are its three separators.
                proof {
                    assert forall|p1: int, p2: int, p3: int|
                        !spec_ipv4_decomp(s@, p1, p2, p3) by {
                        if spec_ipv4_decomp(s@, p1, p2, p3) {
                            lemma_ipv4_decomp_dots(s@, p1, p2, p3, d1 as int);
                            lemma_ipv4_decomp_dots(s@, p1, p2, p3, d2 as int);
                            lemma_ipv4_decomp_dots(s@, p1, p2, p3, d3 as int);
                            lemma_ipv4_decomp_dots(s@, p1, p2, p3, i as int);
                            assert(false);
                        }
                    }
                }
                return None;
            } else if ndots == 2 {
                d3 = i;
            } else if ndots == 1 {
                d2 = i;
            } else {
                d1 = i;
            }
            ndots += 1;
        }
        i += 1;
    }
    if ndots != 3 {
        // Fewer than three dots: a decomposition needs three distinct
        // ones.
        proof {
            assert forall|p1: int, p2: int, p3: int| !spec_ipv4_decomp(s@, p1, p2, p3) by {
                if spec_ipv4_decomp(s@, p1, p2, p3) {
                    assert((ndots >= 1 && p1 == d1) || (ndots >= 2 && p1 == d2) || (ndots >= 3
                        && p1 == d3));
                    assert((ndots >= 1 && p2 == d1) || (ndots >= 2 && p2 == d2) || (ndots >= 3
                        && p2 == d3));
                    assert((ndots >= 1 && p3 == d1) || (ndots >= 2 && p3 == d2) || (ndots >= 3
                        && p3 == d3));
                    assert(false);
                }
            }
        }
        return None;
    }
    let o1 = octet_value(s, 0, d1);
    let o2 = octet_value(s, d1 + 1, d2);
    let o3 = octet_value(s, d2 + 1, d3);
    let o4 = octet_value(s, d3 + 1, n);
    proof {
        // Any decomposition uses exactly the three dots found above.
        assert forall|p1: int, p2: int, p3: int|
            spec_ipv4_decomp(s@, p1, p2, p3) implies p1 == d1 && p2 == d2 && p3 == d3 by {
            lemma_ipv4_decomp_dots(s@, p1, p2, p3, p1);
            lemma_ipv4_decomp_dots(s@, p1, p2, p3, p2);
            lemma_ipv4_decomp_dots(s@, p1, p2, p3, p3);
        }
    }
    match (o1, o2, o3, o4) {
        (Some(a), Some(b), Some(c), Some(d)) => {
            proof {
                assert(spec_ipv4_decomp(s@, d1 as int, d2 as int, d3 as int));
            }
            Some(a * 0x1000000 + b * 0x10000 + c * 0x100 + d)
        },
        _ => {
            // Some segment between the dots is not an octet, so the
            // only candidate decomposition is invalid.
            None
        },
    }
}

/// The special-use classification of an IPv4 address, if any: the
/// "this network", private-use, shared-NAT, loopback, link-local,
/// documentation and reserved ranges, each per its defining RFC.
pub open spec fn spec_v4_special(a: u32) -> Option<Check> {
    if a >> 24 == 0 {
        Some(Check::IpAddressThisNetwork)
    } else if a >> 24 == 10 || a >> 20 == 0xAC1 || a >> 16 == 0xC0A8 {
        Some(Check::IpAddressPrivateUse)
    } else if a >> 22 == 0x191 {
        Some(Check::IpAddressSharedNat)
    } else if a >> 24 == 127 {
        Some(Check::IpAddressLoopback)
    } else if a >> 16 == 0xA9FE {
        Some(Check::IpAddressLinkLocal)
    } else if a >> 8 == 0xC00002 || a >> 8 == 0xC63364 || a >> 8 == 0xCB0071 {
        Some(Check::IpAddressDocumentationNet)
    } else if a >> 28 == 0xF {
        Some(Check::IpAddressReservedNet)
    } else {
        None
    }
}

/// Classifies an IPv4 address against the special-use ranges.
pub fn v4_special(a: u32) -> (r: Option<Check>)
    ensures
        r == spec_v4_special(a),
{
    if a >> 24 == 0 {
        Some(Check::IpAddressThisNetwork)
    } else if a >> 24 == 10 || a >> 20 == 0xAC1 || a >> 16 == 0xC0A8 {
        Some(Check::IpAddressPrivateUse)
    } else if a >> 22 == 0x191 {
        Some(Check::IpAddressSharedNat)
    } else if a >> 24 == 127 {
        Some(Check::IpAddressLoopback)
    } else if a >> 16 == 0xA9FE {
        Some(Check::IpAddressLinkLocal)
    } else if a >> 8 == 0xC00002 || a >> 8 == 0xC63364 || a >> 8 == 0xCB0071 {
        Some(Check::IpAddressDocumentationNet)
    } else if a >> 28 == 0xF {
        Some(Check::IpAddressReservedNet)
    } else {
        None
    }
}

/// What `ipnet` makes of a textual IPv6 network: the address bits and
/// the prefix length, or nothing when the text does not parse. The
/// result depends on the text alone.
pub uninterp spec fn ipv6_net_of(s: Seq<char>) -> Option<(u128, u8)>;

/// Relies on `ipnet::Ipv6Net`'s string parse: `address/length` with the
/// RFC 4291 textual address forms, a prefix length of at most 128, and
/// nothing after it.
#[verifier::external_body]
pub fn parse_ipv6_net(s: &str) -> (r: Option<(u128, u8)>)
    ensures
        r == ipv6_net_of(s@),
        r matches Some(p) ==> p.1 <= 128,
{
    match s.parse::<ipnet::Ipv6Net>() {
        Ok(n) => Some((n.addr().into(), n.prefix_len())),
        Err(_) => None,
    }
}

/// The address an IPv6 address string denotes, through the network
/// parse of the whole-address prefix form.
pub open spec fn spec_ipv6_addr_of(s: Seq<char>) -> Option<u128> {
    match ipv6_net_of(s + "/128"@) {
        Some(p) => Some(p.0),
        None => None,
    }
}

/// Parses a bare IPv6 address by parsing it as a full-length network.
pub fn parse_ipv6_addr(s: &str) -> (r: Option<u128>)
    ensures
        r == spec_ipv6_addr_of(s@),
{
    let mut t: String = s.to_owned();
    t.append("/128");
    match parse_ipv6_net(t.as_str()) {
        Some(p) => Some(p.0),
        None => None,
    }
}

/// The special-use classification of an IPv6 address, if any: the
/// unspecified address, loopback, link-local, unique-local and
/// documentation ranges.
pub open spec fn spec_v6_special(a: u128) -> Option<Check> {
    if a == 0 {
        Some(Check::IpAddressThisNetwork)
    } else if a == 1 {
        Some(Check::IpAddressLoopback)
    } else if a >> 118 == 0x3FA {
        Some(Check::IpAddressLinkLocal)
    } else if a >> 121 == 0x7E {
        Some(Check::IpAddressUniqueLocal)
    } else if a >> 96 == 0x20010DB8 {
        Some(Check::IpAddressDocumentationNet)
    } else {
        None
    }
}

/// Classifies an IPv6 address against the special-use ranges.
pub fn v6_special(a: u128) -> (r: Option<Check>)
    ensures
        r == spec_v6_special(a),
{
    if a == 0 {
        Some(Check::IpAddressThisNetwork)
    } else if a == 1 {
        Some(Check::IpAddressLoopback)
    } else if a >> 118 == 0x3FA {
        Some(Check::IpAddressLinkLocal)
    } else if a >> 121 == 0x7E {
        Some(Check::IpAddressUniqueLocal)
    } else if a >> 96 == 0x20010DB8 {
        Some(Check::IpAddressDocumentationNet)
    } else {
        None
    }
}

/// The special classification of an autonomous system number, if any:
/// the reserved, documentation and private-use ranges, each per its
/// defining RFC.
pub open spec fn spec_autnum_special(a: u32) -> Option<Check> {
    if a == 0 || a == 65535 || a == 0xFFFF_FFFF {
        Some(Check::AutnumReserved)
    } else if (64496 <= a && a <= 64511) || (65536 <= a && a <= 65551) {
        Some(Check::AutnumDocumentation)
    } else if (64512 <= a && a <= 65534) || (4200000000 <= a && a <= 4294967294) {
        Some(Check::AutnumPrivateUse)
    } else {
        None
    }
}

/// Classifies an autonomous system number against the special ranges.
pub fn autnum_special(a: u32) -> (r: Option<Check>)
    ensures
        r == spec_autnum_special(a),
{
    if a == 0 || a == 65535 || a == 0xFFFF_FFFF {
        Some(Check::AutnumReserved)
    } else if (64496 <= a && a <= 64511) || (65536 <= a && a <= 65551) {
        Some(Check::AutnumDocumentation)
    } else if (64512 <= a && a <= 65534) || (4200000000 <= a && a <= 4294967294) {
        Some(Check::AutnumPrivateUse)
    } else {
        None
    }
}

} // verus!
