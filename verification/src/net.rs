//! Network addresses as text.

use vstd::prelude::*;
use crate::text::{
    all_digits, chars_of, digits_value, is_digit, parse_u64, split, split_text, string_of, texts,
    unsigned_part,
};

verus! {

/// A socket address: the IP address in its usual text form, and the port.
#[derive(Debug, Clone, PartialEq, Eq)]
pub struct SocketAddress {
    pub ip: String,
    pub port: u16,
}

impl SocketAddress {
    /// The address that `self` is, as plain values.
    pub open spec fn parts(self) -> (Seq<char>, u16) {
        (self.ip@, self.port)
    }

    /// A copy of the address.
    pub fn copy(&self) -> (r: Self)
        ensures
            r == *self,
    {
        SocketAddress { ip: self.ip.clone(), port: self.port }
    }
}

/// A hexadecimal digit.
pub open spec fn is_hex_digit(c: char) -> bool {
    is_digit(c) || ('a' <= c <= 'f') || ('A' <= c <= 'F')
}

/// One group of an IPv6 address: one to four hexadecimal digits.
pub open spec fn ipv6_group(s: Seq<char>) -> bool {
    1 <= s.len() <= 4 && forall|i: int| 0 <= i < s.len() ==> is_hex_digit(#[trigger] s[i])
}

/// One byte of a dotted IPv4 address: a number up to 255 without leading zeros.
pub open spec fn ipv4_octet(s: Seq<char>) -> bool {
    1 <= s.len() <= 3 && all_digits(s) && digits_value(s) <= 255 && (s[0] == '0' ==> s.len() == 1)
}

/// A dotted IPv4 address.
pub open spec fn ipv4_text(s: Seq<char>) -> bool {
    let p = split(s, '.');
    p.len() == 4 && forall|i: int| 0 <= i < 4 ==> ipv4_octet(#[trigger] p[i])
}

/// How many groups of an IPv6 address a run of colon-separated pieces makes,
/// where it is one. A dotted IPv4 address at the end makes two groups.
pub open spec fn ipv6_run(s: Seq<char>, dotted_end: bool) -> Option<nat> {
    let p = split(s, ':');
    if s.len() == 0 {
        Some(0)
    } else if !(forall|i: int| 0 <= i < p.len() - 1 ==> ipv6_group(#[trigger] p[i])) {
        None
    } else if ipv6_group(p.last()) {
        Some(p.len())
    } else if dotted_end && ipv4_text(p.last()) {
        Some(p.len() + 1)
    } else {
        None
    }
}

/// The first position of two colons in a row at or after `i`, or the length.
pub open spec fn double_colon_from(s: Seq<char>, i: int) -> int
    decreases s.len() - i,
{
    if i + 1 >= s.len() {
        s.len() as int
    } else if s[i] == ':' && s[i + 1] == ':' {
        i
    } else {
        double_colon_from(s, i + 1)
    }
}

/// The text of an IPv6 address: eight groups, or two runs of groups around the
/// first `::` that stands for one zero group or more.
pub open spec fn ipv6_text(s: Seq<char>) -> bool {
    let k = double_colon_from(s, 0);
    if k < s.len() {
        match (ipv6_run(s.take(k), false), ipv6_run(s.skip(k + 2), true)) {
            (Some(a), Some(b)) => a + b <= 7,
            _ => false,
        }
    } else {
        ipv6_run(s, true) == Some(8nat)
    }
}

/// The text of an IP address, as the ip of a socket address is.
pub open spec fn ip_text(s: Seq<char>) -> bool {
    ipv4_text(s) || ipv6_text(s)
}

fn char_is_hex(c: char) -> (r: bool)
    ensures
        r == is_hex_digit(c),
{
    ('0' <= c && c <= '9') || ('a' <= c && c <= 'f') || ('A' <= c && c <= 'F')
}

fn is_ipv6_group(s: &str) -> (r: bool)
    ensures
        r == ipv6_group(s@),
{
    let v = chars_of(s);
    if v.len() < 1 || v.len() > 4 {
        return false;
    }
    let mut i: usize = 0;
    while i < v.len()
        invariant
            0 <= i <= v@.len(),
            v@ == s@,
            forall|j: int| 0 <= j < i ==> is_hex_digit(#[trigger] v@[j]),
        decreases v@.len() - i,
    {
        if !char_is_hex(v[i]) {
            return false;
        }
        i = i + 1;
    }
    true
}

fn is_ipv4_octet(s: &str) -> (r: bool)
    ensures
        r == ipv4_octet(s@),
{
    let v = chars_of(s);
    if v.len() < 1 || v.len() > 3 {
        return false;
    }
    if v[0] == '+' {
        proof {
            assert(!is_digit(s@[0]));
        }
        return false;
    }
    if v[0] == '0' && v.len() > 1 {
        return false;
    }
    proof {
        assert(unsigned_part(s@) == s@);
    }
    parse_u64(s, 255).is_some()
}

/// Tells whether `s` is an IPv4 address.
pub fn is_ipv4_text(s: &str) -> (r: bool)
    ensures
        r == ipv4_text(s@),
{
    let p = split_text(s, '.');
    let ghost q = split(s@, '.');
    proof {
        assert(q == texts(p@));
        assert(q.len() == p@.len());
        assert(forall|i: int| 0 <= i < p@.len() ==> q[i] == (#[trigger] p@[i])@);
    }
    if p.len() != 4 {
        return false;
    }
    let mut i: usize = 0;
    while i < 4
        invariant
            0 <= i <= 4,
            p@.len() == 4,
            q.len() == 4,
            q == split(s@, '.'),
            forall|j: int| 0 <= j < 4 ==> q[j] == (#[trigger] p@[j])@,
            forall|j: int| 0 <= j < i ==> ipv4_octet(#[trigger] q[j]),
        decreases 4 - i,
    {
        if !is_ipv4_octet(p[i].as_str()) {
            proof {
                assert(q[i as int] == p@[i as int]@);
                assert(!ipv4_octet(q[i as int]));
            }
            return false;
        }
        i = i + 1;
    }
    true
}

/// The number of colon-separated pieces of a run of groups, and whether the last
/// of them is a dotted IPv4 address, which makes two groups.
fn count_ipv6_run(s: &str, dotted_end: bool) -> (r: Option<(usize, bool)>)
    ensures
        match r {
            Some((n, dotted)) => (dotted ==> dotted_end) && ipv6_run(s@, dotted_end) == Some(
                if dotted {
                    n as nat + 1
                } else {
                    n as nat
                },
            ),
            None => ipv6_run(s@, dotted_end) is None,
        },
{
    if s.is_empty() {
        return Some((0, false));
    }
    let p = split_text(s, ':');
    let ghost q = split(s@, ':');
    proof {
        assert(q == texts(p@));
        assert(q.len() == p@.len());
        assert(forall|i: int| 0 <= i < p@.len() ==> q[i] == (#[trigger] p@[i])@);
    }
    let last: usize = p.len() - 1;
    let mut i: usize = 0;
    while i < last
        invariant
            0 <= i <= last,
            last == p@.len() - 1,
            s@.len() > 0,
            q.len() == p@.len(),
            q == split(s@, ':'),
            forall|j: int| 0 <= j < p@.len() ==> q[j] == (#[trigger] p@[j])@,
            forall|j: int| 0 <= j < i ==> ipv6_group(#[trigger] q[j]),
        decreases last - i,
    {
        if !is_ipv6_group(p[i].as_str()) {
            proof {
                assert(q[i as int] == p@[i as int]@);
                assert(!ipv6_group(q[i as int]));
            }
            return None;
        }
        i = i + 1;
    }
    proof {
        assert(q.last() == p@[last as int]@);
    }
    if is_ipv6_group(p[last].as_str()) {
        Some((p.len(), false))
    } else if dotted_end && is_ipv4_text(p[last].as_str()) {
        Some((p.len(), true))
    } else {
        None
    }
}

fn find_double_colon(v: &Vec<char>) -> (r: usize)
    ensures
        r == double_colon_from(v@, 0),
        r <= v@.len(),
        r < v@.len() ==> r + 2 <= v@.len(),
{
    let n = v.len();
    let mut i: usize = 0;
    while i < n && n - i > 1
        invariant
            0 <= i <= n,
            n == v@.len(),
            double_colon_from(v@, 0) == double_colon_from(v@, i as int),
        decreases n - i,
    {
        if v[i] == ':' && v[i + 1] == ':' {
            return i;
        }
        i = i + 1;
    }
    n
}

/// Tells whether `s` is the text of an IPv6 address.
pub fn is_ipv6_text(s: &str) -> (r: bool)
    ensures
        r == ipv6_text(s@),
{
    let v = chars_of(s);
    let k = find_double_colon(&v);
    if k < v.len() {
        let left = string_of(&v, 0, k);
        let right = string_of(&v, k + 2, v.len());
        proof {
            assert(v@.subrange(0, k as int) =~= v@.take(k as int));
            assert(v@.subrange(k + 2, v@.len() as int) =~= v@.skip(k + 2));
        }
        match (count_ipv6_run(left.as_str(), false), count_ipv6_run(right.as_str(), true)) {
            (Some((a, _)), Some((b, dotted))) => {
                let extra: usize = if dotted {
                    1
                } else {
                    0
                };
                a <= 7 && b <= 7 && a + b + extra <= 7
            },
            _ => false,
        }
    } else {
        match count_ipv6_run(s, true) {
            Some((n, dotted)) => if dotted {
                n == 7
            } else {
                n == 8
            },
            None => false,
        }
    }
}

} // verus!
