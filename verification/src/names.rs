//! Domain name syntax.
//!
//! The LDH ("letters, digits, hyphen") grammar here asks for one or more
//! nonempty labels joined by dots, each label made of ASCII letters,
//! digits and hyphens, with no hyphen at either end of a label and no
//! trailing root dot. The documentation names are those RFC 6761 sets
//! aside for examples and testing.

use vstd::prelude::*;

use crate::check::string::{ends_with_str, spec_ends_with, str_eq};

verus! {

/// True for the characters a label may hold.
pub open spec fn spec_is_ldh_char(c: char) -> bool {
    ('a' <= c && c <= 'z') || ('A' <= c && c <= 'Z') || ('0' <= c && c <= '9') || c == '-'
}

/// True when the string is an LDH domain name: nonempty labels of
/// letters, digits and hyphens, joined by dots, no label starting or
/// ending with a hyphen.
pub open spec fn spec_valid_ldh(s: Seq<char>) -> bool {
    &&& s.len() >= 1
    &&& forall|i: int| 0 <= i < s.len() ==> spec_is_ldh_char(s[i]) || s[i] == '.'
    &&& s[0] != '.' && s[0] != '-'
    &&& s[s.len() - 1] != '.' && s[s.len() - 1] != '-'
    &&& forall|i: int| #![trigger s[i]]
        0 <= i < s.len() && s[i] == '.' ==> (i + 1 < s.len() ==> s[i + 1] != '.' && s[i + 1]
            != '-') && (i >= 1 ==> s[i - 1] != '-')
}

/// Returns true if the string is an LDH domain name.
pub fn is_ldh_name(s: &str) -> (r: bool)
    ensures
        r == spec_valid_ldh(s@),
{
    let n = s.unicode_len();
    if n == 0 {
        return false;
    }
    let first = s.get_char(0);
    if first == '.' || first == '-' {
        return false;
    }
    let last = s.get_char(n - 1);
    if last == '.' || last == '-' {
        return false;
    }
    let mut i: usize = 0;
    while i < n
        invariant
            n == s@.len(),
            1 <= n,
            i <= n,
            s@[0] != '.' && s@[0] != '-',
            s@[n - 1] != '.' && s@[n - 1] != '-',
            forall|j: int| 0 <= j < i ==> spec_is_ldh_char(s@[j]) || s@[j] == '.',
            forall|j: int| #![trigger s@[j]]
                0 <= j < i && s@[j] == '.' ==> (j + 1 < n ==> s@[j + 1] != '.' && s@[j + 1] != '-')
                    && (j >= 1 ==> s@[j - 1] != '-'),
        decreases n - i,
    {
        let c = s.get_char(i);
        let ldh = ('a' <= c && c <= 'z') || ('A' <= c && c <= 'Z') || ('0' <= c && c <= '9') || c
            == '-';
        if !ldh && c != '.' {
            return false;
        }
        if c == '.' {
            if i + 1 < n {
                let next = s.get_char(i + 1);
                if next == '.' || next == '-' {
                    return false;
                }
            }
            if i >= 1 {
                let prev = s.get_char(i - 1);
                if prev == '-' {
                    return false;
                }
            }
        }
        i += 1;
    }
    true
}

/// True when the name is one RFC 6761 sets aside for documentation and
/// testing: the reserved test, example, invalid and localhost names,
/// and the example second-level domains.
pub open spec fn spec_is_documentation_name(s: Seq<char>) -> bool {
    ||| s == "test"@
    ||| s == "example"@
    ||| s == "invalid"@
    ||| s == "localhost"@
    ||| s == "example.com"@
    ||| s == "example.net"@
    ||| s == "example.org"@
    ||| spec_ends_with(s, ".test"@)
    ||| spec_ends_with(s, ".example"@)
    ||| spec_ends_with(s, ".invalid"@)
    ||| spec_ends_with(s, ".localhost"@)
    ||| spec_ends_with(s, ".example.com"@)
    ||| spec_ends_with(s, ".example.net"@)
    ||| spec_ends_with(s, ".example.org"@)
}

/// Returns true if the name falls under a documentation name of RFC
/// 6761. The comparison is exact: names are expected in lower case.
pub fn is_documentation_name(s: &str) -> (r: bool)
    ensures
        r == spec_is_documentation_name(s@),
{
    str_eq(s, "test") || str_eq(s, "example") || str_eq(s, "invalid") || str_eq(s, "localhost")
        || str_eq(s, "example.com") || str_eq(s, "example.net") || str_eq(s, "example.org")
        || ends_with_str(s, ".test") || ends_with_str(s, ".example") || ends_with_str(s, ".invalid")
        || ends_with_str(s, ".localhost") || ends_with_str(s, ".example.com") || ends_with_str(
        s,
        ".example.net",
    ) || ends_with_str(s, ".example.org")
}

/// True when the string plausibly is a Unicode domain name: the LDH
/// label shape, with any character beyond ASCII also allowed inside
/// labels.
pub open spec fn spec_plausible_unicode_name(s: Seq<char>) -> bool {
    &&& s.len() >= 1
    &&& forall|i: int|
        0 <= i < s.len() ==> spec_is_ldh_char(s[i]) || s[i] == '.' || s[i] as int > 127
    &&& s[0] != '.' && s[0] != '-'
    &&& s[s.len() - 1] != '.' && s[s.len() - 1] != '-'
    &&& forall|i: int| #![trigger s[i]]
        0 <= i < s.len() && s[i] == '.' ==> (i + 1 < s.len() ==> s[i + 1] != '.' && s[i + 1]
            != '-') && (i >= 1 ==> s[i - 1] != '-')
}

/// Returns true if the string plausibly is a Unicode domain name.
pub fn is_plausible_unicode_name(s: &str) -> (r: bool)
    ensures
        r == spec_plausible_unicode_name(s@),
{
    let n = s.unicode_len();
    if n == 0 {
        return false;
    }
    let first = s.get_char(0);
    if first == '.' || first == '-' {
        return false;
    }
    let last = s.get_char(n - 1);
    if last == '.' || last == '-' {
        return false;
    }
    let mut i: usize = 0;
    while i < n
        invariant
            n == s@.len(),
            1 <= n,
            i <= n,
            s@[0] != '.' && s@[0] != '-',
            s@[n - 1] != '.' && s@[n - 1] != '-',
            forall|j: int|
                0 <= j < i ==> spec_is_ldh_char(s@[j]) || s@[j] == '.' || s@[j] as int > 127,
            forall|j: int| #![trigger s@[j]]
                0 <= j < i && s@[j] == '.' ==> (j + 1 < n ==> s@[j + 1] != '.' && s@[j + 1] != '-')
                    && (j >= 1 ==> s@[j - 1] != '-'),
        decreases n - i,
    {
        let c = s.get_char(i);
        let ldh = ('a' <= c && c <= 'z') || ('A' <= c && c <= 'Z') || ('0' <= c && c <= '9') || c
            == '-';
        let wide = (c as u32) > 127;
        if !ldh && !wide && c != '.' {
            return false;
        }
        if c == '.' {
            if i + 1 < n {
                let next = s.get_char(i + 1);
                if next == '.' || next == '-' {
                    return false;
                }
            }
            if i >= 1 {
                let prev = s.get_char(i - 1);
                if prev == '-' {
                    return false;
                }
            }
        }
        i += 1;
    }
    true
}

/// True when every character of the string is ASCII.
pub open spec fn spec_all_ascii(s: Seq<char>) -> bool {
    forall|i: int| 0 <= i < s.len() ==> (s[i] as int) <= 127
}

/// Returns true if every character of the string is ASCII.
pub fn is_all_ascii(s: &str) -> (r: bool)
    ensures
        r == spec_all_ascii(s@),
{
    let n = s.unicode_len();
    let mut i: usize = 0;
    while i < n
        invariant
            n == s@.len(),
            i <= n,
            forall|j: int| 0 <= j < i ==> (s@[j] as int) <= 127,
        decreases n - i,
    {
        if (s.get_char(i) as u32) > 127 {
            return false;
        }
        i += 1;
    }
    true
}

/// True when the string holds an ASCII control character, the one way a
/// name held in this model can fail to be sensible text.
pub open spec fn spec_has_control_char(s: Seq<char>) -> bool {
    exists|i: int| 0 <= i < s.len() && (s[i] as int) < 32
}

/// Returns true if the string holds an ASCII control character.
pub fn has_control_char(s: &str) -> (r: bool)
    ensures
        r == spec_has_control_char(s@),
{
    let n = s.unicode_len();
    let mut i: usize = 0;
    while i < n
        invariant
            n == s@.len(),
            i <= n,
            forall|j: int| 0 <= j < i ==> (s@[j] as int) >= 32,
        decreases n - i,
    {
        let c = s.get_char(i);
        if (c as u32) < 32 {
            return true;
        }
        i += 1;
    }
    false
}

} // verus!
