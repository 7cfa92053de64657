//! IPv4 addresses and subnet masks in dotted-quad notation.

use vstd::prelude::*;
use crate::error::{ConfigError, ConfigErrorView, ConfigFault, ConfigFaultView};
use crate::text::{decimal, digit_char, pieces, joined, split_on, chars_of, push_decimal};

verus! {

/// An IPv4 address as its four octets, the most significant first.
#[derive(Clone, Copy, Debug, PartialEq, Eq, Structural)]
pub struct Ipv4 {
    pub a: u8,
    pub b: u8,
    pub c: u8,
    pub d: u8,
}

/// The dotted-quad notation of `ip`: four decimal numerals with dots between.
pub open spec fn dotted(ip: Ipv4) -> Seq<char> {
    decimal(ip.a as nat) + seq!['.'] + decimal(ip.b as nat) + seq!['.'] + decimal(ip.c as nat)
        + seq!['.'] + decimal(ip.d as nat)
}

/// Whether `s` is the dotted-quad notation of some address.
pub open spec fn is_dotted_quad(s: Seq<char>) -> bool {
    exists|ip: Ipv4| s == dotted(ip)
}

/// 2 to the power `e`.
pub open spec fn two_to(e: nat) -> nat
    decreases e,
{
    if e == 0 {
        1
    } else {
        2 * two_to((e - 1) as nat)
    }
}

/// The octet whose `ones` most significant bits are set, the others
/// clear; `ones` below 0 counts as 0 and above 8 as 8.
pub open spec fn mask_octet(ones: int) -> u8 {
    if ones <= 0 {
        0
    } else if ones >= 8 {
        255
    } else {
        (256 - two_to((8 - ones) as nat)) as u8
    }
}

/// The subnet mask whose `prefix` leading bits are set.
pub open spec fn netmask(prefix: nat) -> Ipv4 {
    Ipv4 {
        a: mask_octet(prefix as int),
        b: mask_octet(prefix - 8),
        c: mask_octet(prefix - 16),
        d: mask_octet(prefix - 24),
    }
}

/// The dotted-quad notation of the mask with `prefix` leading bits set.
pub open spec fn subnet_text(prefix: nat) -> Seq<char> {
    dotted(netmask(prefix))
}

impl Ipv4 {
    /// The address as one number, the first octet the most significant.
    pub open spec fn value(self) -> nat {
        (self.a * 16777216 + self.b * 65536 + self.c * 256 + self.d) as nat
    }

    /// Whether this is the unspecified address `0.0.0.0`.
    pub open spec fn is_unspecified(self) -> bool {
        self.a == 0 && self.b == 0 && self.c == 0 && self.d == 0
    }

    /// Whether the address lies in the auto-configuration block
    /// `169.254.0.0/16`.
    pub open spec fn is_link_local(self) -> bool {
        self.a == 169 && self.b == 254
    }

    /// The dotted-quad notation of the address.
    pub fn to_text(&self) -> (r: String)
        ensures
            r@ == dotted(*self),
    {
        let mut r = String::new();
        push_decimal(&mut r, self.a as u64);
        r.push('.');
        push_decimal(&mut r, self.b as u64);
        r.push('.');
        push_decimal(&mut r, self.c as u64);
        r.push('.');
        push_decimal(&mut r, self.d as u64);
        r
    }
}

/// The digit that `c` writes, if it writes one.
pub fn digit_value(c: char) -> (r: Option<u8>)
    ensures
        r matches Some(d) ==> d < 10 && c == digit_char(d as nat),
        r is None ==> forall|d: nat| d < 10 ==> c != digit_char(d),
{
    match c {
        '0' => Some(0),
        '1' => Some(1),
        '2' => Some(2),
        '3' => Some(3),
        '4' => Some(4),
        '5' => Some(5),
        '6' => Some(6),
        '7' => Some(7),
        '8' => Some(8),
        '9' => Some(9),
        _ => None,
    }
}

/// The numeral of a number below 256, digit by digit.
pub proof fn lemma_decimal_octet(n: u8)
    ensures
        n < 10 ==> decimal(n as nat) == seq![digit_char(n as nat)],
        10 <= n < 100 ==> decimal(n as nat) == seq![
            digit_char(n as nat / 10),
            digit_char(n as nat % 10),
        ],
        100 <= n ==> decimal(n as nat) == seq![
            digit_char(n as nat / 100),
            digit_char((n as nat / 10) % 10),
            digit_char(n as nat % 10),
        ],
        1 <= decimal(n as nat).len() <= 3,
        forall|i: int| 0 <= i < decimal(n as nat).len() ==> #[trigger] decimal(n as nat)[i] != '.',
{
    reveal_with_fuel(decimal, 3);
    let m = n as nat;
    if m >= 100 {
        assert((m / 10) / 10 == m / 100);
        assert((m / 10) >= 10);
        assert(decimal(m) == decimal(m / 10).push(digit_char(m % 10)));
        assert(decimal(m / 10) == decimal(m / 100).push(digit_char((m / 10) % 10)));
        assert(decimal(m) =~= seq![
            digit_char(m / 100),
            digit_char((m / 10) % 10),
            digit_char(m % 10),
        ]);
    } else if m >= 10 {
        assert(decimal(m) =~= seq![digit_char(m / 10), digit_char(m % 10)]);
    }
}

/// Reads the decimal numeral of an octet: no sign, no leading zero, at
/// most 255.
pub fn parse_octet(part: &str) -> (r: Option<u8>)
    ensures
        r matches Some(n) ==> part@ == decimal(n as nat),
        r is None ==> forall|n: u8| part@ != decimal(n as nat),
{
    let v = chars_of(part);
    proof {
        assert forall|n: u8| v@.len() == 0 || v@.len() > 3 implies part@ != decimal(n as nat) by {
            lemma_decimal_octet(n);
        }
    }
    if v.len() == 0 || v.len() > 3 {
        return None;
    }
    let d0 = match digit_value(v[0]) {
        Some(d) => d,
        None => {
            proof {
                assert forall|n: u8| part@ != decimal(n as nat) by {
                    lemma_decimal_octet(n);
                }
            }
            return None;
        },
    };
    if v.len() == 1 {
        proof {
            lemma_decimal_octet(d0);
            assert(v@ =~= seq![digit_char(d0 as nat)]);
        }
        return Some(d0);
    }
    let d1 = match digit_value(v[1]) {
        Some(d) => d,
        None => {
            proof {
                assert forall|n: u8| part@ != decimal(n as nat) by {
                    lemma_decimal_octet(n);
                }
            }
            return None;
        },
    };
    if d0 == 0 {
        proof {
            assert forall|n: u8| part@ != decimal(n as nat) by {
                lemma_decimal_octet(n);
            }
        }
        return None;
    }
    if v.len() == 2 {
        let n: u8 = d0 * 10 + d1;
        proof {
            lemma_decimal_octet(n);
            assert(v@ =~= seq![digit_char(d0 as nat), digit_char(d1 as nat)]);
        }
        return Some(n);
    }
    let d2 = match digit_value(v[2]) {
        Some(d) => d,
        None => {
            proof {
                assert forall|n: u8| part@ != decimal(n as nat) by {
                    lemma_decimal_octet(n);
                }
            }
            return None;
        },
    };
    let wide: u16 = (d0 as u16) * 100 + (d1 as u16) * 10 + (d2 as u16);
    if wide > 255 {
        proof {
            assert forall|n: u8| part@ != decimal(n as nat) by {
                lemma_decimal_octet(n);
                if part@ == decimal(n as nat) {
                    assert(v@[0] == digit_char(n as nat / 100));
                    assert(v@[1] == digit_char((n as nat / 10) % 10));
                    assert(v@[2] == digit_char(n as nat % 10));
                }
            }
        }
        return None;
    }
    let n: u8 = wide as u8;
    proof {
        lemma_decimal_octet(n);
        assert(v@ =~= seq![digit_char(d0 as nat), digit_char(d1 as nat), digit_char(d2 as nat)]);
    }
    Some(n)
}

/// Splitting never gives an empty list of parts.
pub proof fn lemma_pieces_nonempty(s: Seq<char>, sep: char)
    ensures
        pieces(s, sep).len() >= 1,
    decreases s.len(),
{
    if s.len() > 0 {
        lemma_pieces_nonempty(s.drop_last(), sep);
    }
}

/// A text without the separator is its own single part.
pub proof fn lemma_pieces_single(s: Seq<char>, sep: char)
    requires
        forall|i: int| 0 <= i < s.len() ==> #[trigger] s[i] != sep,
    ensures
        pieces(s, sep) == seq![s],
    decreases s.len(),
{
    if s.len() > 0 {
        let t = s.drop_last();
        assert forall|i: int| 0 <= i < t.len() implies #[trigger] t[i] != sep by {
            assert(t[i] == s[i]);
        }
        lemma_pieces_single(t, sep);
        assert(s[s.len() - 1] != sep);
        assert(t.push(s.last()) =~= s);
        assert(seq![t].drop_last().push(t.push(s.last())) =~= seq![s]);
        assert(pieces(s, sep) == seq![t].drop_last().push(seq![t].last().push(s.last())));
    } else {
        assert(s =~= Seq::<char>::empty());
    }
}

/// The parts of `x`, a separator and `y` are the parts of `x` followed
/// by the parts of `y`.
pub proof fn lemma_pieces_concat(x: Seq<char>, y: Seq<char>, sep: char)
    ensures
        pieces(x + seq![sep] + y, sep) == pieces(x, sep) + pieces(y, sep),
    decreases y.len(),
{
    let whole = x + seq![sep] + y;
    if y.len() == 0 {
        assert(whole.drop_last() == x);
        assert(pieces(x, sep).push(Seq::<char>::empty()) =~= pieces(x, sep) + pieces(y, sep));
    } else {
        let t = y.drop_last();
        lemma_pieces_concat(x, t, sep);
        lemma_pieces_nonempty(t, sep);
        assert(whole.drop_last() == x + seq![sep] + t);
        assert(whole.last() == y.last());
        let left = pieces(x, sep);
        let right = pieces(t, sep);
        if y.last() == sep {
            assert((left + right).push(Seq::<char>::empty()) =~= left + right.push(
                Seq::<char>::empty(),
            ));
        } else {
            assert((left + right).drop_last().push((left + right).last().push(y.last())) =~= left
                + right.drop_last().push(right.last().push(y.last())));
        }
    }
}

/// Joining the parts of a text with the separator gives the text back.
pub proof fn lemma_joined_pieces(s: Seq<char>, sep: char)
    ensures
        joined(pieces(s, sep), seq![sep]) == s,
    decreases s.len(),
{
    if s.len() > 0 {
        let t = s.drop_last();
        let before = pieces(t, sep);
        lemma_joined_pieces(t, sep);
        lemma_pieces_nonempty(t, sep);
        if s.last() == sep {
            let now = before.push(Seq::<char>::empty());
            assert(now.drop_last() == before);
            assert(joined(now, seq![sep]) =~= s);
        } else {
            let now = before.drop_last().push(before.last().push(s.last()));
            assert(now.drop_last() == before.drop_last());
            if before.len() == 1 {
                assert(now[0] == before[0].push(s.last()));
                assert(t.push(s.last()) =~= s);
            } else {
                let head = joined(before.drop_last(), seq![sep]) + seq![sep];
                assert(joined(before, seq![sep]) == head + before.last());
                assert(now.last() == before.last().push(s.last()));
                assert(joined(now, seq![sep]) == head + before.last().push(s.last()));
                assert(head + before.last().push(s.last()) =~= (head + before.last()).push(
                    s.last(),
                ));
                assert(t.push(s.last()) =~= s);
            }
        }
    }
}

/// The parts of a dotted quad are the numerals of its four octets.
pub proof fn lemma_pieces_dotted(ip: Ipv4)
    ensures
        pieces(dotted(ip), '.') == seq![
            decimal(ip.a as nat),
            decimal(ip.b as nat),
            decimal(ip.c as nat),
            decimal(ip.d as nat),
        ],
{
    let a = decimal(ip.a as nat);
    let b = decimal(ip.b as nat);
    let c = decimal(ip.c as nat);
    let d = decimal(ip.d as nat);
    lemma_decimal_octet(ip.a);
    lemma_decimal_octet(ip.b);
    lemma_decimal_octet(ip.c);
    lemma_decimal_octet(ip.d);
    lemma_pieces_single(a, '.');
    lemma_pieces_single(b, '.');
    lemma_pieces_single(c, '.');
    lemma_pieces_single(d, '.');
    lemma_pieces_concat(a, b, '.');
    lemma_pieces_concat(a + seq!['.'] + b, c, '.');
    lemma_pieces_concat(a + seq!['.'] + b + seq!['.'] + c, d, '.');
    assert(seq![a] + seq![b] + seq![c] + seq![d] =~= seq![a, b, c, d]);
}

/// Two digits written by the same character are the same.
pub proof fn lemma_digit_char_injective(a: nat, b: nat)
    requires
        a < 10,
        b < 10,
        digit_char(a) == digit_char(b),
    ensures
        a == b,
{
}

/// Two octets with the same numeral are the same.
pub proof fn lemma_decimal_octet_injective(m: u8, n: u8)
    requires
        decimal(m as nat) == decimal(n as nat),
    ensures
        m == n,
{
    lemma_decimal_octet(m);
    lemma_decimal_octet(n);
    let x = decimal(m as nat);
    let y = decimal(n as nat);
    let (m, n) = (m as nat, n as nat);
    assert(x.len() == y.len());
    assert(x[0] == y[0]);
    if x.len() == 2 {
        assert(x[1] == y[1]);
        lemma_digit_char_injective(m / 10, n / 10);
        lemma_digit_char_injective(m % 10, n % 10);
    } else if x.len() == 3 {
        assert(x[1] == y[1]);
        assert(x[2] == y[2]);
        lemma_digit_char_injective(m / 100, n / 100);
        lemma_digit_char_injective((m / 10) % 10, (n / 10) % 10);
        lemma_digit_char_injective(m % 10, n % 10);
        assert(m / 10 == (m / 100) * 10 + (m / 10) % 10);
        assert(n / 10 == (n / 100) * 10 + (n / 10) % 10);
    } else {
        assert(m < 10 && n < 10);
        assert(x[0] == digit_char(m) && y[0] == digit_char(n));
        lemma_digit_char_injective(m, n);
    }
}

/// Two addresses with the same dotted-quad notation are the same.
pub proof fn lemma_dotted_injective(x: Ipv4, y: Ipv4)
    requires
        dotted(x) == dotted(y),
    ensures
        x == y,
{
    lemma_pieces_dotted(x);
    lemma_pieces_dotted(y);
    let px = pieces(dotted(x), '.');
    assert(px[0] == decimal(x.a as nat) && px[0] == decimal(y.a as nat));
    assert(px[1] == decimal(x.b as nat) && px[1] == decimal(y.b as nat));
    assert(px[2] == decimal(x.c as nat) && px[2] == decimal(y.c as nat));
    assert(px[3] == decimal(x.d as nat) && px[3] == decimal(y.d as nat));
    lemma_decimal_octet_injective(x.a, y.a);
    lemma_decimal_octet_injective(x.b, y.b);
    lemma_decimal_octet_injective(x.c, y.c);
    lemma_decimal_octet_injective(x.d, y.d);
}

/// Reads an IPv4 address in dotted-quad notation: four decimal octets
/// without sign or leading zeros, separated by single dots, and nothing
/// else.
pub fn parse_ipv4(s: &str) -> (r: Option<Ipv4>)
    ensures
        r matches Some(ip) ==> s@ == dotted(ip),
        r is None ==> !is_dotted_quad(s@),
{
    let parts = split_on(s, '.');
    proof {
        assert forall|ip: Ipv4| s@ == dotted(ip) implies {
            &&& parts.len() == 4
            &&& parts[0]@ == decimal(ip.a as nat)
            &&& parts[1]@ == decimal(ip.b as nat)
            &&& parts[2]@ == decimal(ip.c as nat)
            &&& parts[3]@ == decimal(ip.d as nat)
        } by {
            lemma_pieces_dotted(ip);
            assert(parts.deep_view().len() == 4);
            assert(parts.deep_view()[0] == decimal(ip.a as nat));
            assert(parts.deep_view()[1] == decimal(ip.b as nat));
            assert(parts.deep_view()[2] == decimal(ip.c as nat));
            assert(parts.deep_view()[3] == decimal(ip.d as nat));
        }
    }
    if parts.len() != 4 {
        return None;
    }
    let a = match parse_octet(parts[0].as_str()) {
        Some(n) => n,
        None => { return None; },
    };
    let b = match parse_octet(parts[1].as_str()) {
        Some(n) => n,
        None => { return None; },
    };
    let c = match parse_octet(parts[2].as_str()) {
        Some(n) => n,
        None => { return None; },
    };
    let d = match parse_octet(parts[3].as_str()) {
        Some(n) => n,
        None => { return None; },
    };
    let ip = Ipv4 { a, b, c, d };
    proof {
        lemma_joined_pieces(s@, '.');
        let p = pieces(s@, '.');
        assert(p == parts.deep_view());
        assert(p[0] == parts[0]@ && p[1] == parts[1]@ && p[2] == parts[2]@ && p[3] == parts[3]@);
        reveal_with_fuel(joined, 4);
        assert(p.drop_last().drop_last().drop_last() =~= seq![p[0]]);
        assert(p.drop_last().drop_last() =~= seq![p[0], p[1]]);
        assert(p.drop_last() =~= seq![p[0], p[1], p[2]]);
        assert(joined(p, seq!['.']) == dotted(ip));
    }
    Some(ip)
}

/// The prefix length that the dotted-quad mask `mask` stands for, if it
/// is the notation of a contiguous mask.
pub open spec fn prefix_of_mask(mask: Seq<char>) -> Option<nat> {
    if exists|p: nat| p <= 32 && mask == subnet_text(p) {
        Some(choose|p: nat| p <= 32 && mask == subnet_text(p))
    } else {
        None
    }
}

/// The dotted-quad mask of a prefix length, if the length is at most 32.
pub open spec fn mask_of_prefix(prefix: nat) -> Option<Seq<char>> {
    if prefix <= 32 {
        Some(subnet_text(prefix))
    } else {
        None
    }
}

/// The octets of a mask are what `mask_octet` says of 0 to 8 set bits.
pub proof fn lemma_mask_octets()
    ensures
        mask_octet(0) == 0,
        mask_octet(1) == 128,
        mask_octet(2) == 192,
        mask_octet(3) == 224,
        mask_octet(4) == 240,
        mask_octet(5) == 248,
        mask_octet(6) == 252,
        mask_octet(7) == 254,
        mask_octet(8) == 255,
{
    reveal_with_fuel(two_to, 9);
}

/// Different prefix lengths up to 32 have different masks.
pub proof fn lemma_netmask_injective(p: nat, q: nat)
    requires
        p <= 32,
        q <= 32,
        netmask(p) == netmask(q),
    ensures
        p == q,
{
    lemma_mask_octets();
}

/// Different prefix lengths up to 32 have different dotted-quad masks.
pub proof fn lemma_subnet_text_injective(p: nat, q: nat)
    requires
        p <= 32,
        q <= 32,
        subnet_text(p) == subnet_text(q),
    ensures
        p == q,
{
    lemma_dotted_injective(netmask(p), netmask(q));
    lemma_netmask_injective(p, q);
}

/// The powers of 2 up to the 32nd.
pub proof fn lemma_two_to_table()
    ensures
        two_to(0) == 1,
        two_to(1) == 2,
        two_to(2) == 4,
        two_to(3) == 8,
        two_to(4) == 16,
        two_to(5) == 32,
        two_to(6) == 64,
        two_to(7) == 128,
        two_to(8) == 256,
        two_to(9) == 512,
        two_to(10) == 1024,
        two_to(11) == 2048,
        two_to(12) == 4096,
        two_to(13) == 8192,
        two_to(14) == 16384,
        two_to(15) == 32768,
        two_to(16) == 65536,
        two_to(17) == 131072,
        two_to(18) == 262144,
        two_to(19) == 524288,
        two_to(20) == 1048576,
        two_to(21) == 2097152,
        two_to(22) == 4194304,
        two_to(23) == 8388608,
        two_to(24) == 16777216,
        two_to(25) == 33554432,
        two_to(26) == 67108864,
        two_to(27) == 134217728,
        two_to(28) == 268435456,
        two_to(29) == 536870912,
        two_to(30) == 1073741824,
        two_to(31) == 2147483648,
        two_to(32) == 4294967296,
{
    assert(two_to(1) == 2 * two_to(0));
    assert(two_to(2) == 2 * two_to(1));
    assert(two_to(3) == 2 * two_to(2));
    assert(two_to(4) == 2 * two_to(3));
    assert(two_to(5) == 2 * two_to(4));
    assert(two_to(6) == 2 * two_to(5));
    assert(two_to(7) == 2 * two_to(6));
    assert(two_to(8) == 2 * two_to(7));
    assert(two_to(9) == 2 * two_to(8));
    assert(two_to(10) == 2 * two_to(9));
    assert(two_to(11) == 2 * two_to(10));
    assert(two_to(12) == 2 * two_to(11));
    assert(two_to(13) == 2 * two_to(12));
    assert(two_to(14) == 2 * two_to(13));
    assert(two_to(15) == 2 * two_to(14));
    assert(two_to(16) == 2 * two_to(15));
    assert(two_to(17) == 2 * two_to(16));
    assert(two_to(18) == 2 * two_to(17));
    assert(two_to(19) == 2 * two_to(18));
    assert(two_to(20) == 2 * two_to(19));
    assert(two_to(21) == 2 * two_to(20));
    assert(two_to(22) == 2 * two_to(21));
    assert(two_to(23) == 2 * two_to(22));
    assert(two_to(24) == 2 * two_to(23));
    assert(two_to(25) == 2 * two_to(24));
    assert(two_to(26) == 2 * two_to(25));
    assert(two_to(27) == 2 * two_to(26));
    assert(two_to(28) == 2 * two_to(27));
    assert(two_to(29) == 2 * two_to(28));
    assert(two_to(30) == 2 * two_to(29));
    assert(two_to(31) == 2 * two_to(30));
    assert(two_to(32) == 2 * two_to(31));
}

/// A mask with `prefix` leading bits set is, as a number, all 32 bits set
/// less the `32 - prefix` low ones: the set bits are contiguous.
pub proof fn law_netmask_is_contiguous(prefix: nat)
    requires
        prefix <= 32,
    ensures
        netmask(prefix).value() + two_to((32 - prefix) as nat) == two_to(32),
{
    lemma_mask_octets();
    lemma_two_to_table();
}

/// The octet with `ones` leading bits set; 8 or more set them all.
pub fn octet_with_ones(ones: u8) -> (m: u8)
    ensures
        m == mask_octet(ones as int),
{
    proof {
        lemma_mask_octets();
    }
    match ones {
        0 => 0,
        1 => 128,
        2 => 192,
        3 => 224,
        4 => 240,
        5 => 248,
        6 => 252,
        7 => 254,
        _ => 255,
    }
}

/// The subnet mask whose `prefix` leading bits are set.
pub fn netmask_of(prefix: u8) -> (m: Ipv4)
    ensures
        m == netmask(prefix as nat),
{
    Ipv4 {
        a: octet_with_ones(prefix),
        b: octet_with_ones(if prefix > 8 { prefix - 8 } else { 0 }),
        c: octet_with_ones(if prefix > 16 { prefix - 16 } else { 0 }),
        d: octet_with_ones(if prefix > 24 { prefix - 24 } else { 0 }),
    }
}

/// The dotted-quad subnet mask of a prefix length; none for a length
/// above 32.
pub fn prefix_to_subnet(prefix: u8) -> (r: Option<String>)
    ensures
        r.deep_view() == mask_of_prefix(prefix as nat),
{
    if prefix > 32 {
        return None;
    }
    Some(netmask_of(prefix).to_text())
}

/// What is wrong with a text that is no subnet mask: its format where it
/// does not have four parts with dots between, else its value.
pub open spec fn mask_fault(mask: Seq<char>) -> ConfigFaultView {
    if pieces(mask, '.').len() != 4 {
        ConfigFaultView::BadMaskFormat
    } else {
        ConfigFaultView::BadMaskValue
    }
}

/// The prefix length of a dotted-quad subnet mask. The mask must be the
/// dotted-quad notation of 32 bits of which the leading ones, and only
/// they, are set. Anything else is refused: for its format where it does
/// not have four parts, else for its value.
pub fn subnet_to_prefix(subnet: &str) -> (r: Result<u8, ConfigError>)
    ensures
        match r {
            Ok(p) => prefix_of_mask(subnet@) == Some(p as nat),
            Err(e) => prefix_of_mask(subnet@) is None && e@ == ConfigErrorView::InvalidConfig(
                mask_fault(subnet@),
            ),
        },
{
    let parts = split_on(subnet, '.');
    if parts.len() != 4 {
        proof {
            assert forall|p: nat| p <= 32 implies subnet@ != subnet_text(p) by {
                lemma_pieces_dotted(netmask(p));
            }
        }
        return Err(ConfigError::InvalidConfig(ConfigFault::BadMaskFormat));
    }
    let ip = match parse_ipv4(subnet) {
        Some(ip) => ip,
        None => {
            proof {
                assert forall|p: nat| p <= 32 implies subnet@ != subnet_text(p) by {
                    if subnet@ == subnet_text(p) {
                        assert(subnet@ == dotted(netmask(p)));
                    }
                }
            }
            return Err(ConfigError::InvalidConfig(ConfigFault::BadMaskValue));
        },
    };
    let mut p: u8 = 0;
    while p <= 32
        invariant
            p <= 33,
            subnet@ == dotted(ip),
            pieces(subnet@, '.').len() == 4,
            forall|q: nat| q < p ==> netmask(q) != ip,
        decreases 33 - p,
    {
        if netmask_of(p) == ip {
            proof {
                assert(subnet@ == subnet_text(p as nat));
                let found = choose|q: nat| q <= 32 && subnet@ == subnet_text(q);
                lemma_subnet_text_injective(found, p as nat);
            }
            return Ok(p);
        }
        p += 1;
    }
    proof {
        assert forall|q: nat| q <= 32 implies subnet@ != subnet_text(q) by {
            if subnet@ == subnet_text(q) {
                lemma_dotted_injective(ip, netmask(q));
            }
        }
    }
    Err(ConfigError::InvalidConfig(ConfigFault::BadMaskValue))
}

/// A dotted-quad mask that has a prefix length is the mask of that
/// length: from mask to prefix and back gives the same text.
pub proof fn law_mask_round_trip(mask: Seq<char>)
    requires
        prefix_of_mask(mask) is Some,
    ensures
        mask_of_prefix(prefix_of_mask(mask).unwrap()) == Some(mask),
{
}

/// The mask of a prefix length up to 32 has that length: from prefix to
/// mask and back gives the same number.
pub proof fn law_prefix_round_trip(prefix: nat)
    requires
        prefix <= 32,
    ensures
        mask_of_prefix(prefix) is Some,
        prefix_of_mask(mask_of_prefix(prefix).unwrap()) == Some(prefix),
{
    let found = choose|p: nat| p <= 32 && subnet_text(prefix) == subnet_text(p);
    lemma_subnet_text_injective(found, prefix);
}

} // verus!
