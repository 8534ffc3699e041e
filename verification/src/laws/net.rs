//! Network addresses.

use vstd::prelude::*;

use crate::laws::text::lemma_join_split;
use crate::net::{is_ipv4_text, is_ipv6_text, ipv4_octet, ipv6_group, SocketAddress};
use crate::text::{
    all_digits, decimal, decimal_round_trip, digits_value, is_digit, join, split,
};

verus! {

/// A decimal number up to 255 is at most three digits without a zero in front.
proof fn lemma_octet(n: nat)
    requires
        n <= 255,
    ensures
        ipv4_octet(decimal(n)),
        !decimal(n).contains('.'),
{
    decimal_round_trip(n, 255);
    let d = decimal(n);
    assert forall|i: int| 0 <= i < d.len() implies d[i] != '.' by {
        assert(is_digit(d[i]));
    }
    if n >= 10 {
        assert(decimal(n) == decimal(n / 10).push(crate::text::digit_char(n % 10)));
        if n >= 100 {
            assert(decimal(n / 10) == decimal(n / 100).push(
                crate::text::digit_char((n / 10) % 10),
            )) by {
                assert((n / 10) / 10 == n / 100);
            }
            assert(decimal(n / 100) == seq![crate::text::digit_char(n / 100)]);
            assert(d[0] == crate::text::digit_char(n / 100));
        } else {
            assert(decimal(n / 10) == seq![crate::text::digit_char(n / 10)]);
            assert(d[0] == crate::text::digit_char(n / 10));
        }
    }
}

/// Four numbers up to 255 with dots between them are an IPv4 address.
pub proof fn four_numbers_are_an_address(s: &str, r: bool, a: u8, b: u8, c: u8, d: u8)
    requires
        call_ensures(is_ipv4_text, (s,), r),
        s@ == decimal(a as nat) + seq!['.'] + decimal(b as nat) + seq!['.'] + decimal(c as nat)
            + seq!['.'] + decimal(d as nat),
    ensures
        r,
{
    let p = seq![decimal(a as nat), decimal(b as nat), decimal(c as nat), decimal(d as nat)];
    lemma_octet(a as nat);
    lemma_octet(b as nat);
    lemma_octet(c as nat);
    lemma_octet(d as nat);
    assert(p.drop_last() =~= seq![decimal(a as nat), decimal(b as nat), decimal(c as nat)]);
    assert(p.drop_last().drop_last() =~= seq![decimal(a as nat), decimal(b as nat)]);
    assert(p.drop_last().drop_last().drop_last() =~= seq![decimal(a as nat)]);
    assert(join(p.drop_last().drop_last().drop_last(), seq!['.']) == decimal(a as nat));
    assert(join(p.drop_last().drop_last(), seq!['.']) == decimal(a as nat) + seq!['.'] + decimal(
        b as nat,
    ));
    assert(join(p.drop_last(), seq!['.']) == decimal(a as nat) + seq!['.'] + decimal(b as nat)
        + seq!['.'] + decimal(c as nat));
    assert(join(p, seq!['.']) =~= s@);
    lemma_join_split(p, '.');
}

/// An IPv4 address is four groups of at most three digits, each up to 255, with dots
/// between them; and no IPv6 address without a colon.
pub proof fn addresses_have_their_groups(
    s: &str,
    four: bool,
    six: bool,
    i: int,
)
    requires
        call_ensures(is_ipv4_text, (s,), four),
        call_ensures(is_ipv6_text, (s,), six),
    ensures
        four ==> split(s@, '.').len() == 4,
        four && 0 <= i < 4 ==> ({
            let g = split(s@, '.')[i];
            &&& 1 <= g.len() <= 3
            &&& digits_value(g) <= 255
            &&& all_digits(g)
            &&& g.len() > 1 ==> g[0] != '0'
        }),
{
    if four && 0 <= i < 4 {
        assert(ipv4_octet(split(s@, '.')[i]));
    }
}

/// An address is copied with its port.
pub proof fn addresses_are_copied(a: SocketAddress, r: SocketAddress)
    requires
        call_ensures(SocketAddress::copy, (&a,), r),
    ensures
        r.ip@ == a.ip@ && r.port == a.port,
{
}

/// Eight groups of one to four hexadecimal digits with colons between them are an IPv6
/// address, where no two colons touch.
pub proof fn eight_groups_are_an_address(s: &str, r: bool, groups: Seq<Seq<char>>)
    requires
        call_ensures(is_ipv6_text, (s,), r),
        groups.len() == 8,
        forall|i: int| 0 <= i < 8 ==> ipv6_group(#[trigger] groups[i]),
        s@ == join(groups, seq![':']),
    ensures
        r,
{
    assert forall|i: int| 0 <= i < 8 implies !(#[trigger] groups[i]).contains(':') by {
        assert(ipv6_group(groups[i]));
    }
    lemma_join_split(groups, ':');
    lemma_no_double(groups);
    lemma_double_none(s@, 0);
    assert(ipv6_group(groups[7]));
}

proof fn lemma_double_none(s: Seq<char>, i: int)
    requires
        0 <= i,
        forall|k: int| 0 <= k < s.len() - 1 ==> !(#[trigger] s[k] == ':' && s[k + 1] == ':'),
    ensures
        crate::net::double_colon_from(s, i) >= s.len(),
    decreases s.len() - i,
{
    if i + 1 < s.len() {
        lemma_double_none(s, i + 1);
    }
}

proof fn lemma_no_double(groups: Seq<Seq<char>>)
    requires
        groups.len() > 0,
        forall|i: int| 0 <= i < groups.len() ==> ipv6_group(#[trigger] groups[i]),
    ensures
        ({
            let s = join(groups, seq![':']);
            &&& s.len() > 0 && s[0] != ':' && s.last() != ':'
            &&& forall|k: int|
                0 <= k < s.len() - 1 ==> !(#[trigger] s[k] == ':' && s[k + 1] == ':')
        }),
    decreases groups.len(),
{
    let g = groups[groups.len() - 1];
    assert(ipv6_group(g));
    assert(forall|k: int| 0 <= k < g.len() ==> crate::net::is_hex_digit(#[trigger] g[k]));
    if groups.len() > 1 {
        let h = groups.drop_last();
        assert forall|i: int| 0 <= i < h.len() implies ipv6_group(#[trigger] h[i]) by {
            assert(h[i] == groups[i]);
        }
        lemma_no_double(h);
        let t = join(h, seq![':']);
        let s = join(groups, seq![':']);
        assert(s == t + seq![':'] + g);
        let n = t.len() as int;
        assert forall|k: int| 0 <= k < s.len() - 1 implies !(#[trigger] s[k] == ':' && s[k + 1]
            == ':') by {
            if k < n - 1 {
                assert(t[k] == s[k] && t[k + 1] == s[k + 1]);
            } else if k == n - 1 {
                assert(s[k] == t.last());
            } else if k == n {
                assert(s[k + 1] == g[0]);
            } else {
                assert(s[k] == g[k - n - 1]);
            }
        }
    }
}

} // verus!
