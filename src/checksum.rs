use vstd::prelude::*;

use crate::bytes::{be16, be32, push_all, push_be16, push_be32};

verus! {

/// The sum of `b` read as 16-bit words, most significant byte first; an odd
/// trailing byte is the high byte of a word whose low byte is zero.
pub open spec fn word_sum(b: Seq<u8>) -> nat
    decreases b.len(),
{
    if b.len() == 0 {
        0
    } else if b.len() == 1 {
        b[0] as nat * 0x100
    } else {
        b[0] as nat * 0x100 + b[1] as nat + word_sum(b.subrange(2, b.len() as int))
    }
}

/// `s` folded into 16 bits with end-around carry: zero stays zero, any other
/// sum becomes the value in `1..=0xffff` congruent to it modulo `0xffff`.
pub open spec fn fold_carries(s: nat) -> nat {
    if s == 0 {
        0
    } else {
        ((s - 1) as nat % 0xffff + 1) as nat
    }
}

/// The Internet checksum of `b`: the one's complement of the one's
/// complement sum of its 16-bit words.
pub open spec fn internet_checksum_spec(b: Seq<u8>) -> u16 {
    (0xffff - fold_carries(word_sum(b))) as u16
}

/// Two sums congruent modulo `0xffff` and both non-zero fold to the same value.
proof fn lemma_fold_congruent(a: nat, b: nat, q: nat)
    requires
        a > 0,
        b > 0,
        a == b + 0xffff * q,
    ensures
        fold_carries(a) == fold_carries(b),
{
    vstd::arithmetic::div_mod::lemma_mod_multiples_vanish(q as int, b - 1, 0xffff);
    assert((a - 1) as int == 0xffff * q + (b - 1));
}

proof fn lemma_word_sum_step(b: Seq<u8>, i: int)
    requires
        0 <= i < b.len(),
    ensures
        i + 1 < b.len() ==> word_sum(b.subrange(i, b.len() as int)) == b[i] as nat * 0x100
            + b[i + 1] as nat + word_sum(b.subrange(i + 2, b.len() as int)),
        i + 1 == b.len() ==> word_sum(b.subrange(i, b.len() as int)) == b[i] as nat * 0x100,
{
    let rest = b.subrange(i, b.len() as int);
    if i + 1 < b.len() {
        assert(rest.subrange(2, rest.len() as int) =~= b.subrange(i + 2, b.len() as int));
    }
}

/// The Internet checksum of `b` (RFC 1071): its 16-bit big-endian words are
/// added with end-around carry, and the sum is complemented.
pub fn internet_checksum(b: &[u8]) -> (r: u16)
    ensures
        r == internet_checksum_spec(b@),
{
    let len = b.len();
    let mut sum: u32 = 0;
    let mut i: usize = 0;
    assert(b@.subrange(0, len as int) =~= b@);
    while i < len
        invariant
            len == b@.len(),
            i <= len,
            sum <= 0xffff,
            fold_carries((sum + word_sum(b@.subrange(i as int, len as int))) as nat) == fold_carries(
                word_sum(b@),
            ),
        decreases len - i,
    {
        proof {
            lemma_word_sum_step(b@, i as int);
        }
        let word: u32 = if i + 1 < len {
            b[i] as u32 * 0x100 + b[i + 1] as u32
        } else {
            b[i] as u32 * 0x100
        };
        let next: usize = if i + 1 < len {
            i + 2
        } else {
            len
        };
        let ghost rest = word_sum(b@.subrange(next as int, len as int));
        if next == len {
            assert(b@.subrange(len as int, len as int).len() == 0);
        }
        assert(sum + word_sum(b@.subrange(i as int, len as int)) == sum + word + rest);
        let total = sum + word;
        if total > 0xffff {
            sum = total % 0x10000 + total / 0x10000;
            proof {
                lemma_fold_congruent(
                    (total + rest) as nat,
                    (sum + rest) as nat,
                    (total / 0x10000) as nat,
                );
            }
        } else {
            sum = total;
        }
        i = next;
    }
    assert(b@.subrange(len as int, len as int).len() == 0);
    assert(fold_carries(sum as nat) == sum);
    (0xffff - sum) as u16
}

/// The pseudo-header that TCP and UDP checksums cover ahead of the segment.
pub open spec fn pseudo_header(source: u32, destination: u32, proto: u8, len: u16) -> Seq<u8> {
    be32(source) + be32(destination) + seq![0u8, proto] + be16(len)
}

/// The checksum of `segment` behind its IPv4 pseudo-header.
pub open spec fn pseudo_checksum_spec(segment: Seq<u8>, proto: u8, source: u32, destination: u32) -> u16 {
    internet_checksum_spec(pseudo_header(source, destination, proto, segment.len() as u16) + segment)
}

/// Checksum of a transport segment (header with a zero checksum field, then
/// payload) of protocol `proto` sent from `source` to `destination`.
pub fn proto_ipv4_checksum(segment: &[u8], proto: u8, source: u32, destination: u32) -> (r: u16)
    requires
        segment@.len() <= 0xffff,
    ensures
        r == pseudo_checksum_spec(segment@, proto, source, destination),
{
    let mut bytes: Vec<u8> = Vec::new();
    push_be32(&mut bytes, source);
    push_be32(&mut bytes, destination);
    bytes.push(0);
    bytes.push(proto);
    push_be16(&mut bytes, segment.len() as u16);
    assert(bytes@ =~= pseudo_header(source, destination, proto, segment@.len() as u16));
    push_all(&mut bytes, segment);
    internet_checksum(bytes.as_slice())
}

pub const TCP_PROTOCOL: u8 = 6;
pub const UDP_PROTOCOL: u8 = 17;
pub const ICMP_PROTOCOL: u8 = 1;

/// Checksum of a TCP segment whose checksum field is zero.
pub fn tcp_ipv4_checksum(segment: &[u8], source: u32, destination: u32) -> (r: u16)
    requires
        segment@.len() <= 0xffff,
    ensures
        r == pseudo_checksum_spec(segment@, TCP_PROTOCOL, source, destination),
{
    proto_ipv4_checksum(segment, TCP_PROTOCOL, source, destination)
}

/// Checksum of a UDP datagram whose checksum field is zero.
pub fn udp_ipv4_checksum(segment: &[u8], source: u32, destination: u32) -> (r: u16)
    requires
        segment@.len() <= 0xffff,
    ensures
        r == pseudo_checksum_spec(segment@, UDP_PROTOCOL, source, destination),
{
    proto_ipv4_checksum(segment, UDP_PROTOCOL, source, destination)
}

/// The weight of byte `i` in its 16-bit word.
pub open spec fn byte_weight(i: int) -> nat {
    if i % 2 == 0 {
        0x100
    } else {
        1
    }
}

proof fn lemma_word_sum_update(b: Seq<u8>, i: int, v: u8)
    requires
        0 <= i < b.len(),
    ensures
        word_sum(b.update(i, v)) + b[i] as nat * byte_weight(i) == word_sum(b) + v as nat
            * byte_weight(i),
    decreases b.len(),
{
    let c = b.update(i, v);
    if b.len() == 1 {
    } else if i < 2 {
        assert(c.subrange(2, c.len() as int) =~= b.subrange(2, b.len() as int));
    } else {
        let rest = b.subrange(2, b.len() as int);
        assert(c.subrange(2, c.len() as int) =~= rest.update(i - 2, v));
        lemma_word_sum_update(rest, i - 2, v);
        assert(byte_weight(i - 2) == byte_weight(i));
    }
}

proof fn lemma_fold_distinct(s1: nat, s2: nat)
    requires
        s1 < s2 < s1 + 0xffff,
    ensures
        fold_carries(s1) != fold_carries(s2),
{
    if s1 > 0 {
        let a = (s1 - 1) as nat;
        let b = (s2 - 1) as nat;
        assert(a % 0xffff != b % 0xffff) by {
            vstd::arithmetic::div_mod::lemma_fundamental_div_mod(a as int, 0xffff);
            vstd::arithmetic::div_mod::lemma_fundamental_div_mod(b as int, 0xffff);
            if a % 0xffff == b % 0xffff {
                assert(b - a == 0xffff * (b / 0xffff - a / 0xffff));
                if b / 0xffff - a / 0xffff >= 1 {
                    vstd::arithmetic::mul::lemma_mul_inequality(1, b / 0xffff - a / 0xffff, 0xffff);
                }
            }
        }
    }
}

/// Changing any one byte of the input changes its Internet checksum.
pub proof fn lemma_checksum_detects_byte_change(b: Seq<u8>, i: int, v: u8)
    requires
        0 <= i < b.len(),
        b[i] != v,
    ensures
        internet_checksum_spec(b.update(i, v)) != internet_checksum_spec(b),
{
    lemma_word_sum_update(b, i, v);
    let s1 = word_sum(b);
    let s2 = word_sum(b.update(i, v));
    let w = byte_weight(i);
    if b[i] < v {
        assert(s2 - s1 == (v - b[i]) * w) by (nonlinear_arith)
            requires
                s2 + b[i] * w == s1 + v * w,
        ;
        assert((v - b[i]) * w <= 0xff * 0x100) by (nonlinear_arith)
            requires
                0 < v - b[i] <= 0xff,
                w <= 0x100,
        ;
        assert((v - b[i]) * w >= 1) by (nonlinear_arith)
            requires
                0 < v - b[i],
                w >= 1,
        ;
        lemma_fold_distinct(s1, s2);
    } else {
        assert(s1 - s2 == (b[i] - v) * w) by (nonlinear_arith)
            requires
                s2 + b[i] * w == s1 + v * w,
        ;
        assert((b[i] - v) * w <= 0xff * 0x100) by (nonlinear_arith)
            requires
                0 < b[i] - v <= 0xff,
                w <= 0x100,
        ;
        assert((b[i] - v) * w >= 1) by (nonlinear_arith)
            requires
                0 < b[i] - v,
                w >= 1,
        ;
        lemma_fold_distinct(s2, s1);
    }
}

/// Changing any one byte of a segment changes the checksum computed over its
/// pseudo-header and the segment.
pub proof fn lemma_pseudo_checksum_detects_byte_change(
    segment: Seq<u8>,
    i: int,
    v: u8,
    proto: u8,
    source: u32,
    destination: u32,
)
    requires
        0 <= i < segment.len(),
        segment[i] != v,
    ensures
        pseudo_checksum_spec(segment.update(i, v), proto, source, destination)
            != pseudo_checksum_spec(segment, proto, source, destination),
{
    let h = pseudo_header(source, destination, proto, segment.len() as u16);
    assert(h + segment.update(i, v) =~= (h + segment).update(h.len() + i, v));
    lemma_checksum_detects_byte_change(h + segment, h.len() + i, v);
}

/// Corrupting any one byte of a TCP segment, header or payload, changes its
/// checksum.
pub proof fn lemma_tcp_checksum_detects_byte_change(
    segment: Seq<u8>,
    i: int,
    v: u8,
    source: u32,
    destination: u32,
)
    requires
        segment.len() <= 0xffff,
        0 <= i < segment.len(),
        segment[i] != v,
    ensures
        pseudo_checksum_spec(segment.update(i, v), TCP_PROTOCOL, source, destination)
            != pseudo_checksum_spec(segment, TCP_PROTOCOL, source, destination),
{
    lemma_pseudo_checksum_detects_byte_change(segment, i, v, TCP_PROTOCOL, source, destination);
}

} // verus!
