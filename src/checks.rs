//! Checks on single configuration values: environment names, socket
//! addresses and server lists.

use vstd::prelude::*;
use vstd::string::{StrSliceExecFns, StringExecFns};
use crate::sources::{decimal_value, digit_value, is_decimal, is_digit, parse_decimal};

verus! {

/// The environments a broker can run in.
pub open spec fn known_environment(e: Seq<char>) -> bool {
    e == "development"@ || e == "staging"@ || e == "production"@ || e == "test"@
}

pub fn is_known_environment(e: &String) -> (r: bool)
    ensures
        r == known_environment(e@),
{
    *e == String::from_str("development") || *e == String::from_str("staging")
        || *e == String::from_str("production") || *e == String::from_str("test")
}

/// Reading `h` as a dotted IPv4 address, left to right: the dots seen,
/// whether the octet being read has a digit yet, and its value; `None`
/// once `h` cannot begin an address (a stray character, an empty octet, a
/// fourth dot, a leading zero, an octet above 255).
pub open spec fn octet_scan(h: Seq<char>) -> Option<(nat, bool, nat)>
    decreases h.len(),
{
    if h.len() == 0 {
        Some((0, false, 0))
    } else {
        match octet_scan(h.drop_last()) {
            None => None,
            Some((dots, started, val)) => {
                let c = h.last();
                if c == '.' {
                    if started && dots < 3 { Some((dots + 1, false, 0)) } else { None }
                } else if is_digit(c) {
                    if (started && val == 0) || val * 10 + digit_value(c) > 255 {
                        None
                    } else {
                        Some((dots, true, val * 10 + digit_value(c)))
                    }
                } else {
                    None
                }
            },
        }
    }
}

proof fn lemma_scan_stays_none(h: Seq<char>, j: int)
    requires
        0 <= j <= h.len(),
        octet_scan(h.take(j)) is None,
    ensures
        octet_scan(h) is None,
    decreases h.len() - j,
{
    if j < h.len() {
        assert(h.take(j + 1).drop_last() =~= h.take(j));
        lemma_scan_stays_none(h, j + 1);
    } else {
        assert(h.take(j) =~= h);
    }
}

/// Four decimal octets up to 255, without leading zeros, joined by dots.
pub open spec fn ipv4_ok(h: Seq<char>) -> bool {
    octet_scan(h) matches Some((dots, started, _)) && dots == 3 && started
}

pub open spec fn ipv6_char(c: char) -> bool {
    ('0' <= c && c <= '9') || ('a' <= c && c <= 'f') || ('A' <= c && c <= 'F') || c == ':' || c == '.'
}

/// A bracketed IPv6 literal: `[`, hex digits, colons and dots, `]`.
pub open spec fn bracketed_ipv6_ok(h: Seq<char>) -> bool {
    &&& h.len() > 2
    &&& h[0] == '['
    &&& h[h.len() - 1] == ']'
    &&& forall|i: int| 0 < i < h.len() - 1 ==> ipv6_char(#[trigger] h[i])
}

/// The host of a socket address: an IPv4 address or a bracketed IPv6 one.
pub open spec fn ip_host_ok(h: Seq<char>) -> bool {
    ipv4_ok(h) || bracketed_ipv6_ok(h)
}

pub fn is_ipv4(h: &str) -> (r: bool)
    ensures
        r == ipv4_ok(h@),
{
    let n = h.unicode_len();
    let mut dots: u64 = 0;
    let mut started: bool = false;
    let mut val: u64 = 0;
    let mut i: usize = 0;
    while i < n
        invariant
            n == h@.len(),
            i <= n,
            octet_scan(h@.take(i as int)) == Some((dots as nat, started, val as nat)),
            dots <= 3,
            val <= 255,
        decreases n - i,
    {
        let c = h.get_char(i);
        proof {
            assert(h@.take(i + 1).drop_last() =~= h@.take(i as int));
            assert(h@.take(i + 1).last() == c);
        }
        if c == '.' {
            if started && dots < 3 {
                dots = dots + 1;
                started = false;
                val = 0;
            } else {
                proof {
                    lemma_scan_stays_none(h@, i as int + 1);
                }
                return false;
            }
        } else if '0' <= c && c <= '9' {
            let d = (c as u32 - '0' as u32) as u64;
            if (started && val == 0) || val * 10 + d > 255 {
                proof {
                    lemma_scan_stays_none(h@, i as int + 1);
                }
                return false;
            }
            started = true;
            val = val * 10 + d;
        } else {
            proof {
                lemma_scan_stays_none(h@, i as int + 1);
            }
            return false;
        }
        i = i + 1;
    }
    assert(h@.take(n as int) =~= h@);
    dots == 3 && started
}

pub fn is_bracketed_ipv6(h: &str) -> (r: bool)
    ensures
        r == bracketed_ipv6_ok(h@),
{
    let n = h.unicode_len();
    if n <= 2 || h.get_char(0) != '[' || h.get_char(n - 1) != ']' {
        return false;
    }
    let mut i: usize = 1;
    while i < n - 1
        invariant
            n == h@.len(),
            n > 2,
            1 <= i <= n - 1,
            forall|k: int| 0 < k < i ==> ipv6_char(#[trigger] h@[k]),
        decreases n - i,
    {
        let c = h.get_char(i);
        if !(('0' <= c && c <= '9') || ('a' <= c && c <= 'f') || ('A' <= c && c <= 'F') || c == ':' || c == '.') {
            return false;
        }
        i = i + 1;
    }
    true
}

pub fn is_ip_host(h: &str) -> (r: bool)
    ensures
        r == ip_host_ok(h@),
{
    is_ipv4(h) || is_bracketed_ipv6(h)
}

/// `host:port` with an IPv4 or bracketed IPv6 host and a decimal port up
/// to 65535; the port follows the last colon, so the IPv6 host may hold
/// colons.
pub open spec fn socket_address_ok(s: Seq<char>) -> bool {
    exists|p: int|
        0 < p < s.len() && s[p] == ':' && (forall|q: int| p < q < s.len() ==> #[trigger] s[q] != ':')
            && ip_host_ok(s.subrange(0, p))
            && is_decimal(s.subrange(p + 1, s.len() as int))
            && decimal_value(#[trigger] s.subrange(p + 1, s.len() as int)) <= 65535
}

pub fn is_socket_address(s: &String) -> (r: bool)
    ensures
        r == socket_address_ok(s@),
{
    let t = s.as_str();
    let n = t.unicode_len();
    let mut i: usize = n;
    while i > 0
        invariant
            i <= n,
            n == s@.len(),
            t@ == s@,
            forall|q: int| i <= q < n ==> #[trigger] s@[q] != ':',
        decreases i,
    {
        if t.get_char(i - 1) == ':' {
            let p = i - 1;
            if p == 0 {
                proof {
                    assert forall|x: int|
                        0 < x < s@.len() && s@[x] == ':' implies !(forall|q: int| x < q < s@.len() ==> #[trigger] s@[q] != ':') by {
                        assert(x < n);
                        assert(s@[0] == ':');
                        if x > 0 {
                            assert(s@[x] == ':');
                        }
                    }
                }
                assert(!socket_address_ok(s@)) by {
                    assert forall|x: int|
                        0 < x < s@.len() && s@[x] == ':' implies exists|q: int| x < q < s@.len() && #[trigger] s@[q] == ':' by {
                        if x >= i {
                            assert(s@[x] != ':');
                        }
                    }
                }
                return false;
            }
            let port = t.substring_char(i, n);
            let r = parse_decimal(port, 65535);
            let host = t.substring_char(0, p);
            let host_good = is_ip_host(host);
            assert(host@ == s@.subrange(0, p as int));
            proof {
                assert forall|x: int|
                    0 < x < s@.len() && s@[x] == ':' && x != p implies exists|q: int| x < q < s@.len() && #[trigger] s@[q] == ':' by {
                    if x > p {
                        assert(s@[x] != ':');
                    } else {
                        assert(s@[p as int] == ':');
                    }
                }
            }
            assert(port@ == s@.subrange(p + 1, n as int));
            proof {
                if r.is_some() && host_good {
                    assert(forall|q: int| p < q < s@.len() ==> #[trigger] s@[q] != ':');
                    assert(socket_address_ok(s@));
                } else {
                    assert forall|x: int|
                        0 < x < s@.len() && s@[x] == ':' && (forall|q: int| x < q < s@.len() ==> #[trigger] s@[q] != ':')
                            implies !(ip_host_ok(s@.subrange(0, x)) && is_decimal(s@.subrange(x + 1, s@.len() as int))
                            && decimal_value(s@.subrange(x + 1, s@.len() as int)) <= 65535) by {
                        if x != p {
                            let q = choose|q: int| x < q < s@.len() && #[trigger] s@[q] == ':';
                        }
                    }
                }
            }
            return r.is_some() && host_good;
        }
        i = i - 1;
    }
    proof {
        assert forall|x: int| 0 < x < s@.len() implies s@[x] != ':' by {}
    }
    false
}

/// A comma-separated list with no empty item: not empty, no comma first or
/// last, no two commas in a row.
pub open spec fn no_empty_item(t: Seq<char>) -> bool {
    &&& t.len() > 0
    &&& t[0] != ','
    &&& t[t.len() - 1] != ','
    &&& forall|i: int| 0 <= i < t.len() - 1 ==> !(#[trigger] t[i] == ',' && t[i + 1] == ',')
}

pub fn has_no_empty_item(s: &String) -> (r: bool)
    ensures
        r == no_empty_item(s@),
{
    let t = s.as_str();
    let n = t.unicode_len();
    if n == 0 || t.get_char(0) == ',' || t.get_char(n - 1) == ',' {
        return false;
    }
    let mut i: usize = 0;
    while i + 1 < n
        invariant
            n == s@.len(),
            t@ == s@,
            i < n,
            forall|k: int| 0 <= k < i ==> !(#[trigger] s@[k] == ',' && s@[k + 1] == ','),
        decreases n - i,
    {
        if t.get_char(i) == ',' && t.get_char(i + 1) == ',' {
            return false;
        }
        i = i + 1;
    }
    true
}

} // verus!
