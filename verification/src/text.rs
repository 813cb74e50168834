//! Canonical text rendering of addresses: dotted-quad IPv4, compressed
//! lowercase-hex IPv6, and the literal domain string.

use crate::vless::{SpecAddress, VlessAddress};
use vstd::prelude::*;

verus! {

/// The decimal digit character for `d` (0 through 9).
pub open spec fn dec_digit(d: int) -> char {
    if d == 0 {
        '0'
    } else if d == 1 {
        '1'
    } else if d == 2 {
        '2'
    } else if d == 3 {
        '3'
    } else if d == 4 {
        '4'
    } else if d == 5 {
        '5'
    } else if d == 6 {
        '6'
    } else if d == 7 {
        '7'
    } else if d == 8 {
        '8'
    } else {
        '9'
    }
}

/// The decimal rendering of `n` without leading zeros (a bare `0` for zero).
pub open spec fn dec_seq(n: int) -> Seq<char>
    decreases n,
{
    if n < 10 {
        seq![dec_digit(n)]
    } else {
        dec_seq(n / 10).push(dec_digit(n % 10))
    }
}

/// The lowercase hexadecimal digit character for `d` (0 through 15).
pub open spec fn hex_digit(d: int) -> char {
    if d < 10 {
        dec_digit(d)
    } else if d == 10 {
        'a'
    } else if d == 11 {
        'b'
    } else if d == 12 {
        'c'
    } else if d == 13 {
        'd'
    } else if d == 14 {
        'e'
    } else {
        'f'
    }
}

/// The lowercase hexadecimal rendering of `n` without leading zeros.
pub open spec fn hex_seq(n: int) -> Seq<char>
    decreases n,
{
    if n < 16 {
        seq![hex_digit(n)]
    } else {
        hex_seq(n / 16).push(hex_digit(n % 16))
    }
}

/// Dotted-quad rendering of the four bytes of `v`.
pub open spec fn ipv4_text(v: Seq<u8>) -> Seq<char> {
    dec_seq(v[0] as int) + seq!['.'] + dec_seq(v[1] as int) + seq!['.'] + dec_seq(v[2] as int)
        + seq!['.'] + dec_seq(v[3] as int)
}

/// The `i`-th 16-bit group of a 16-byte IPv6 address, big-endian.
pub open spec fn seg(v: Seq<u8>, i: int) -> int {
    v[2 * i] * 256 + v[2 * i + 1]
}

/// Number of consecutive zero groups starting at group `i`.
pub open spec fn zero_run_len(v: Seq<u8>, i: int) -> int
    decreases 8 - i,
{
    if i < 0 || i >= 8 {
        0
    } else if seg(v, i) != 0 {
        0
    } else {
        1 + zero_run_len(v, i + 1)
    }
}

/// The leftmost-longest run of zero groups among those starting before `i`:
/// its start and its length (start 8 and length 0 when no group qualifies).
pub open spec fn best_zero_run(v: Seq<u8>, i: int) -> (int, int)
    decreases i,
{
    if i <= 0 {
        (8, 0)
    } else {
        let prev = best_zero_run(v, i - 1);
        let l = zero_run_len(v, i - 1);
        if l > prev.1 {
            (i - 1, l)
        } else {
            prev
        }
    }
}

/// Hex renderings of groups `from` (inclusive) to `to` (exclusive), joined
/// by `:`.
pub open spec fn segs_text(v: Seq<u8>, from: int, to: int) -> Seq<char>
    decreases to - from,
{
    if to <= from {
        Seq::empty()
    } else if from + 1 == to {
        hex_seq(seg(v, from))
    } else {
        hex_seq(seg(v, from)) + seq![':'] + segs_text(v, from + 1, to)
    }
}

/// Whether the 16 bytes are an IPv4-mapped IPv6 address (`::ffff:a.b.c.d`).
pub open spec fn is_v4_mapped(v: Seq<u8>) -> bool {
    v[0] == 0 && v[1] == 0 && v[2] == 0 && v[3] == 0 && v[4] == 0 && v[5] == 0 && v[6] == 0
        && v[7] == 0 && v[8] == 0 && v[9] == 0 && v[10] == 0xff && v[11] == 0xff
}

/// Canonical rendering of a 16-byte IPv6 address: IPv4-mapped addresses in
/// mixed notation, otherwise lowercase hex groups with the leftmost-longest
/// run of two or more zero groups compressed to `::`.
pub open spec fn ipv6_text(v: Seq<u8>) -> Seq<char> {
    if is_v4_mapped(v) {
        seq![':', ':', 'f', 'f', 'f', 'f', ':'] + ipv4_text(v.subrange(12, 16))
    } else {
        let br = best_zero_run(v, 8);
        if br.1 < 2 {
            segs_text(v, 0, 8)
        } else {
            segs_text(v, 0, br.0) + seq![':', ':'] + segs_text(v, br.0 + br.1, 8)
        }
    }
}

/// Canonical text form of an address.
pub open spec fn spec_address_text(a: SpecAddress) -> Seq<char> {
    match a {
        SpecAddress::IPv4(v) => ipv4_text(v),
        SpecAddress::DomainName(s) => s,
        SpecAddress::IPv6(v) => ipv6_text(v),
    }
}

/// Relies on `String::push`: it appends exactly the one character.
#[verifier::external_body]
fn push_char(s: &mut String, c: char)
    ensures
        final(s)@ == old(s)@.push(c),
{
    s.push(c);
}

/// The decimal digit character for `d`, executably.
fn dec_digit_char(d: u8) -> (c: char)
    requires
        d < 10,
    ensures
        c == dec_digit(d as int),
{
    match d {
        0 => '0',
        1 => '1',
        2 => '2',
        3 => '3',
        4 => '4',
        5 => '5',
        6 => '6',
        7 => '7',
        8 => '8',
        _ => '9',
    }
}

/// The lowercase hexadecimal digit character for `d`, executably.
fn hex_digit_char(d: u8) -> (c: char)
    requires
        d < 16,
    ensures
        c == hex_digit(d as int),
{
    if d < 10 {
        dec_digit_char(d)
    } else {
        match d {
            10 => 'a',
            11 => 'b',
            12 => 'c',
            13 => 'd',
            14 => 'e',
            _ => 'f',
        }
    }
}

/// Appends the decimal rendering of `n`.
fn push_dec(s: &mut String, n: u16)
    ensures
        final(s)@ == old(s)@ + dec_seq(n as int),
    decreases n,
{
    if n >= 10 {
        push_dec(s, n / 10);
    }
    let d = (n % 10) as u8;
    push_char(s, dec_digit_char(d));
    proof {
        if n < 10 {
            assert(s@ =~= old(s)@ + dec_seq(n as int));
        } else {
            assert(dec_seq(n as int) == dec_seq(n as int / 10).push(dec_digit(n as int % 10)));
            assert(s@ =~= old(s)@ + dec_seq(n as int));
        }
    }
}

/// Appends the lowercase hexadecimal rendering of `n`.
fn push_hex(s: &mut String, n: u16)
    ensures
        final(s)@ == old(s)@ + hex_seq(n as int),
    decreases n,
{
    if n >= 16 {
        push_hex(s, n / 16);
    }
    let d = (n % 16) as u8;
    push_char(s, hex_digit_char(d));
    proof {
        if n < 16 {
            assert(s@ =~= old(s)@ + hex_seq(n as int));
        } else {
            assert(hex_seq(n as int) == hex_seq(n as int / 16).push(hex_digit(n as int % 16)));
            assert(s@ =~= old(s)@ + hex_seq(n as int));
        }
    }
}

/// Appends the dotted-quad rendering of the four bytes at `off`.
fn push_ipv4(s: &mut String, v: &Vec<u8>, off: usize)
    requires
        off + 4 <= v@.len(),
    ensures
        final(s)@ == old(s)@ + ipv4_text(v@.subrange(off as int, off as int + 4)),
{
    let n = v.len();
    proof {
        assert(off + 4 <= n);
    }
    push_dec(s, v[off] as u16);
    push_char(s, '.');
    push_dec(s, v[off + 1] as u16);
    push_char(s, '.');
    push_dec(s, v[off + 2] as u16);
    push_char(s, '.');
    push_dec(s, v[off + 3] as u16);
    proof {
        let w = v@.subrange(off as int, off as int + 4);
        assert(w[0] == v@[off as int] && w[1] == v@[off as int + 1] && w[2] == v@[off as int + 2]
            && w[3] == v@[off as int + 3]);
        assert(s@ =~= old(s)@ + ipv4_text(w));
    }
}

/// The `i`-th 16-bit group of the address, executably.
fn seg_at(v: &Vec<u8>, i: usize) -> (r: u16)
    requires
        v@.len() == 16,
        i < 8,
    ensures
        r as int == seg(v@, i as int),
{
    (v[2 * i] as u16) * 256 + (v[2 * i + 1] as u16)
}

/// How appending one more group extends a joined rendering.
proof fn lemma_segs_text_snoc(v: Seq<u8>, from: int, j: int)
    requires
        0 <= from <= j,
    ensures
        segs_text(v, from, j + 1) == if j == from {
            hex_seq(seg(v, from))
        } else {
            segs_text(v, from, j) + seq![':'] + hex_seq(seg(v, j))
        },
    decreases j - from,
{
    if j == from {
    } else {
        lemma_segs_text_snoc(v, from + 1, j);
        if j == from + 1 {
            assert(segs_text(v, from, j + 1) =~= segs_text(v, from, j) + seq![':'] + hex_seq(
                seg(v, j),
            ));
        } else {
            assert(segs_text(v, from, j + 1) =~= segs_text(v, from, j) + seq![':'] + hex_seq(
                seg(v, j),
            ));
        }
    }
}

/// Appends the hex renderings of groups `from..to`, joined by `:`.
fn push_segs(s: &mut String, v: &Vec<u8>, from: usize, to: usize)
    requires
        v@.len() == 16,
        from <= to <= 8,
    ensures
        final(s)@ == old(s)@ + segs_text(v@, from as int, to as int),
{
    let mut j = from;
    proof {
        assert(s@ =~= old(s)@ + segs_text(v@, from as int, from as int));
    }
    while j < to
        invariant
            from <= j <= to <= 8,
            v@.len() == 16,
            s@ == old(s)@ + segs_text(v@, from as int, j as int),
        decreases to - j,
    {
        if j > from {
            push_char(s, ':');
        }
        let g = seg_at(v, j);
        push_hex(s, g);
        proof {
            lemma_segs_text_snoc(v@, from as int, j as int);
            assert(s@ =~= old(s)@ + segs_text(v@, from as int, j as int + 1));
        }
        j += 1;
    }
}

/// Appends the canonical rendering of a 16-byte IPv6 address.
fn push_ipv6(s: &mut String, v: &Vec<u8>)
    requires
        v@.len() == 16,
    ensures
        final(s)@ == old(s)@ + ipv6_text(v@),
{
    let mapped = v[0] == 0 && v[1] == 0 && v[2] == 0 && v[3] == 0 && v[4] == 0 && v[5] == 0
        && v[6] == 0 && v[7] == 0 && v[8] == 0 && v[9] == 0 && v[10] == 0xff && v[11] == 0xff;
    proof {
        assert(mapped == is_v4_mapped(v@));
    }
    if mapped {
        push_char(s, ':');
        push_char(s, ':');
        push_char(s, 'f');
        push_char(s, 'f');
        push_char(s, 'f');
        push_char(s, 'f');
        push_char(s, ':');
        push_ipv4(s, v, 12);
        proof {
            assert(s@ =~= old(s)@ + ipv6_text(v@));
        }
        return ;
    }
    // leftmost-longest run of zero groups
    let mut best_s: usize = 8;
    let mut best_l: usize = 0;
    let mut i: usize = 0;
    while i < 8
        invariant
            i <= 8,
            v@.len() == 16,
            best_s as int == best_zero_run(v@, i as int).0,
            best_l as int == best_zero_run(v@, i as int).1,
            best_s <= 8,
            best_s + best_l <= 8,
        decreases 8 - i,
    {
        let mut l: usize = 0;
        while i + l < 8 && seg_at(v, i + l) == 0
            invariant
                i < 8,
                l <= 8 - i,
                v@.len() == 16,
                zero_run_len(v@, i as int) == l + zero_run_len(v@, i as int + l as int),
            decreases 8 - i - l,
        {
            proof {
                assert(zero_run_len(v@, i as int + l as int) == 1 + zero_run_len(
                    v@,
                    i as int + l as int + 1,
                ));
            }
            l += 1;
        }
        proof {
            assert(zero_run_len(v@, i as int + l as int) == 0);
            assert(l as int == zero_run_len(v@, i as int));
        }
        if l > best_l {
            best_s = i;
            best_l = l;
        }
        i += 1;
    }
    if best_l < 2 {
        push_segs(s, v, 0, 8);
        proof {
            assert(s@ =~= old(s)@ + ipv6_text(v@));
        }
    } else {
        push_segs(s, v, 0, best_s);
        push_char(s, ':');
        push_char(s, ':');
        push_segs(s, v, best_s + best_l, 8);
        proof {
            assert(s@ =~= old(s)@ + ipv6_text(v@));
        }
    }
}

impl VlessAddress {
    /// Canonical text form usable as a connection target: dotted quad,
    /// compressed IPv6 form, or the literal domain string.
    pub fn to_text(&self) -> (r: String)
        requires
            self.wf(),
        ensures
            r@ == spec_address_text(self@),
    {
        match self {
            VlessAddress::IPv4(v) => {
                let mut s = String::new();
                push_ipv4(&mut s, v, 0);
                proof {
                    assert(v@.subrange(0, 4) =~= v@);
                    assert(s@ =~= ipv4_text(v@));
                }
                s
            },
            VlessAddress::DomainName(d) => d.clone(),
            VlessAddress::IPv6(v) => {
                let mut s = String::new();
                push_ipv6(&mut s, v);
                proof {
                    assert(s@ =~= ipv6_text(v@));
                }
                s
            },
        }
    }
}

} // verus!
