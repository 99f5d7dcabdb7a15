//! The text of a client address, as the access log writes it: an IPv4
//! address in dotted decimal, an IPv6 address in the compressed form of
//! RFC 5952 (the first longest run of two or more zero segments written
//! as `::`, IPv4-mapped addresses as `::ffff:` and dotted decimal).

use crate::interface::ClientIp;
use crate::text::{decimal, hex, push_char, push_decimal, push_hex, push_str};
use vstd::prelude::*;

verus! {

/// Dotted decimal: the four octets in decimal, separated by `.`.
pub open spec fn dotted(o: Seq<u8>) -> Seq<char>
    recommends
        o.len() == 4,
{
    decimal(o[0] as nat) + seq!['.'] + decimal(o[1] as nat) + seq!['.'] + decimal(o[2] as nat)
        + seq!['.'] + decimal(o[3] as nat)
}

/// Segments in lowercase hexadecimal, separated by `:`.
pub open spec fn hex_groups(segs: Seq<u16>) -> Seq<char>
    decreases segs.len(),
{
    if segs.len() == 0 {
        seq![]
    } else if segs.len() == 1 {
        hex(segs[0] as nat)
    } else {
        hex_groups(segs.drop_last()) + seq![':'] + hex(segs.last() as nat)
    }
}

/// `segs[start..start + len]` is a nonempty run of zero segments.
pub open spec fn is_zero_run(segs: Seq<u16>, start: int, len: int) -> bool {
    &&& 1 <= len
    &&& 0 <= start
    &&& start + len <= segs.len()
    &&& forall|k: int| start <= k < start + len ==> segs[k] == 0
}

/// `segs[start..start + len]` is the first of the longest runs of zero
/// segments.
pub open spec fn is_first_longest_zero_run(segs: Seq<u16>, start: int, len: int) -> bool {
    &&& is_zero_run(segs, start, len)
    &&& forall|s: int, l: int| #[trigger] is_zero_run(segs, s, l) ==> l <= len
    &&& forall|s: int| #[trigger] is_zero_run(segs, s, len) ==> start <= s
}

/// An IPv6 address of the form `::ffff:a.b.c.d`.
pub open spec fn is_ipv4_mapped(segs: Seq<u16>) -> bool {
    &&& segs.len() == 8
    &&& forall|k: int| 0 <= k < 5 ==> segs[k] == 0
    &&& segs[5] == 0xffff
}

/// The text of an IPv6 address given by its eight segments.
pub open spec fn ipv6_text(segs: Seq<u16>) -> Seq<char> {
    if is_ipv4_mapped(segs) {
        "::ffff:"@ + dotted(
            seq![
                (segs[6] / 256) as u8,
                (segs[6] % 256) as u8,
                (segs[7] / 256) as u8,
                (segs[7] % 256) as u8,
            ],
        )
    } else if exists|s: int, l: int| is_first_longest_zero_run(segs, s, l) && l > 1 {
        let (s, l) = choose|s: int, l: int| is_first_longest_zero_run(segs, s, l) && l > 1;
        hex_groups(segs.take(s)) + "::"@ + hex_groups(segs.skip(s + l))
    } else {
        hex_groups(segs)
    }
}

/// The text of a client address.
pub open spec fn ip_text(ip: ClientIp) -> Seq<char> {
    match ip {
        ClientIp::V4(o) => dotted(o@),
        ClientIp::V6(segs) => ipv6_text(segs@),
    }
}

fn push_dotted(out: &mut String, a: u8, b: u8, c: u8, d: u8)
    ensures
        final(out)@ == old(out)@ + dotted(seq![a, b, c, d]),
{
    push_decimal(out, a as u64);
    push_char(out, '.');
    push_decimal(out, b as u64);
    push_char(out, '.');
    push_decimal(out, c as u64);
    push_char(out, '.');
    push_decimal(out, d as u64);
    assert(seq![a, b, c, d][0] == a && seq![a, b, c, d][1] == b);
    assert(seq![a, b, c, d][2] == c && seq![a, b, c, d][3] == d);
}

fn push_hex_groups(out: &mut String, segs: &[u16; 8], lo: usize, hi: usize)
    requires
        lo <= hi <= 8,
    ensures
        final(out)@ == old(out)@ + hex_groups(segs@.subrange(lo as int, hi as int)),
{
    let ghost start = out@;
    assert(segs@.subrange(lo as int, lo as int) =~= Seq::<u16>::empty());
    for j in lo..hi
        invariant
            lo <= j <= hi <= 8,
            segs@.len() == 8,
            out@ == start + hex_groups(segs@.subrange(lo as int, j as int)),
    {
        let ghost prev = out@;
        if j > lo {
            push_char(out, ':');
        }
        push_hex(out, segs[j] as u64);
        let ghost part = segs@.subrange(lo as int, j + 1);
        assert(part.drop_last() =~= segs@.subrange(lo as int, j as int));
        assert(part.last() == segs@[j as int]);
        if j == lo {
            assert(part.len() == 1);
        }
    }
}

/// Appends the text of an IPv6 address.
fn push_ipv6(out: &mut String, segs: &[u16; 8])
    ensures
        final(out)@ == old(out)@ + ipv6_text(segs@),
{
    let ghost sq = segs@;
    if segs[0] == 0 && segs[1] == 0 && segs[2] == 0 && segs[3] == 0 && segs[4] == 0 && segs[5]
        == 0xffff {
        assert(is_ipv4_mapped(sq));
        push_str(out, "::ffff:");
        push_dotted(
            out,
            (segs[6] / 256) as u8,
            (segs[6] % 256) as u8,
            (segs[7] / 256) as u8,
            (segs[7] % 256) as u8,
        );
        return;
    }
    assert(!is_ipv4_mapped(sq));
    let mut best_start: usize = 0;
    let mut best_len: usize = 0;
    let mut cur_start: usize = 0;
    let mut cur_len: usize = 0;
    for i in 0..8
        invariant
            sq == segs@,
            sq.len() == 8,
            cur_len > 0 ==> is_zero_run(sq, cur_start as int, cur_len as int) && cur_start + cur_len
                == i && (cur_start == 0 || sq[cur_start - 1] != 0),
            cur_len == 0 ==> i == 0 || sq[i - 1] != 0,
            best_len > 0 ==> is_zero_run(sq, best_start as int, best_len as int) && best_start
                + best_len <= i,
            best_len >= cur_len,
            cur_len > 0 && best_len > 0 ==> (best_start == cur_start && best_len == cur_len)
                || best_start + best_len < cur_start,
            forall|s: int, l: int|
                #[trigger] is_zero_run(sq, s, l) && s + l <= i ==> l <= best_len,
            forall|s: int|
                #[trigger] is_zero_run(sq, s, best_len as int) && s + best_len <= i ==> best_start
                    <= s,
    {
        if segs[i] == 0 {
            if cur_len == 0 {
                cur_start = i;
            }
            cur_len = cur_len + 1;
            assert forall|s: int, l: int|
                #[trigger] is_zero_run(sq, s, l) && s + l == i + 1 implies s >= cur_start && l
                <= cur_len by {
                if s < cur_start {
                    assert(sq[cur_start - 1] == 0);
                }
            }
            if cur_len > best_len {
                best_start = cur_start;
                best_len = cur_len;
            }
        } else {
            cur_len = 0;
            assert forall|s: int, l: int|
                #[trigger] is_zero_run(sq, s, l) implies s + l != i + 1 by {
                if s + l == i + 1 {
                    assert(sq[i as int] == 0);
                }
            }
        }
    }
    if best_len > 1 {
        assert(is_first_longest_zero_run(sq, best_start as int, best_len as int));
        let ghost (s, l) = choose|s: int, l: int| is_first_longest_zero_run(sq, s, l) && l > 1;
        assert(is_zero_run(sq, s, l));
        assert(is_zero_run(sq, best_start as int, l));
        assert(s == best_start && l == best_len);
        push_hex_groups(out, segs, 0, best_start);
        push_str(out, "::");
        push_hex_groups(out, segs, best_start + best_len, 8);
        assert(sq.take(best_start as int) == sq.subrange(0, best_start as int));
        assert(sq.skip(best_start + best_len) == sq.subrange(best_start + best_len, 8));
    } else {
        assert forall|s: int, l: int| is_first_longest_zero_run(sq, s, l) implies l <= 1 by {
            if best_len == 0 {
                assert(is_zero_run(sq, s, l));
            }
        }
        push_hex_groups(out, segs, 0, 8);
        assert(sq.subrange(0, 8) == sq);
    }
}

/// Appends the text of a client address.
pub fn push_ip(out: &mut String, ip: &ClientIp)
    ensures
        final(out)@ == old(out)@ + ip_text(*ip),
{
    match ip {
        ClientIp::V4(o) => {
            push_dotted(out, o[0], o[1], o[2], o[3]);
            assert(seq![o[0], o[1], o[2], o[3]] == o@);
        },
        ClientIp::V6(segs) => push_ipv6(out, segs),
    }
}

/// The text of a client address.
pub fn ip_string(ip: &ClientIp) -> (res: String)
    ensures
        res@ == ip_text(*ip),
{
    let mut out = String::new();
    push_ip(&mut out, ip);
    out
}

} // verus!
