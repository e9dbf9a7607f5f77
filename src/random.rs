use vstd::prelude::*;

use rand::rngs::StdRng;
use rand::Rng;

verus! {

#[verifier::external_type_specification]
#[verifier::external_body]
pub struct ExStdRng(StdRng);

/// Relies on `rand::Rng::random_range` over `lo..=hi`: the value it draws lies
/// in that range; it panics only when the range is empty.
#[verifier::external_body]
pub(crate) fn random_in(rng: &mut StdRng, lo: u32, hi: u32) -> (r: u32)
    requires
        lo <= hi,
    ensures
        lo <= r <= hi,
{
    rng.random_range(lo..=hi)
}

/// 10.0.0.0/8, 172.16.0.0/12 and 192.168.0.0/16.
pub open spec fn is_private_ipv4(a: u32) -> bool {
    ||| 0x0a00_0000 <= a <= 0x0aff_ffff
    ||| 0xac10_0000 <= a <= 0xac1f_ffff
    ||| 0xc0a8_0000 <= a <= 0xc0a8_ffff
}

/// 127.0.0.0/8.
pub open spec fn is_loopback_ipv4(a: u32) -> bool {
    0x7f00_0000 <= a <= 0x7fff_ffff
}

/// 169.254.0.0/16.
pub open spec fn is_link_local_ipv4(a: u32) -> bool {
    0xa9fe_0000 <= a <= 0xa9fe_ffff
}

/// Addresses that an unconstrained draw must not produce.
pub open spec fn is_reserved_ipv4(a: u32) -> bool {
    is_private_ipv4(a) || is_loopback_ipv4(a) || is_link_local_ipv4(a)
}

/// How many addresses of the block `start..start + size` lie below `a`.
pub open spec fn block_below(a: int, start: int, size: int) -> int {
    if a <= start {
        0
    } else if a >= start + size {
        size
    } else {
        a - start
    }
}

/// How many private, loopback or link-local addresses lie below `a`.
pub open spec fn reserved_below(a: u32) -> int {
    block_below(a as int, 0x0a00_0000, 0x100_0000) + block_below(a as int, 0x7f00_0000, 0x100_0000)
        + block_below(a as int, 0xa9fe_0000, 0x1_0000) + block_below(a as int, 0xac10_0000, 0x10_0000)
        + block_below(a as int, 0xc0a8_0000, 0x1_0000)
}

/// How many addresses are neither private, loopback nor link-local.
pub const PUBLIC_IPV4_COUNT: u32 = 4_260_233_216;

/// The `k`-th address, in increasing order, that is neither private,
/// loopback nor link-local, counting from zero: exactly `k` such addresses
/// lie below it. The excluded blocks are skipped in address order.
pub fn public_ipv4_at(k: u32) -> (r: u32)
    requires
        k < PUBLIC_IPV4_COUNT,
    ensures
        !is_reserved_ipv4(r),
        r - k == reserved_below(r),
{
    let mut x: u64 = k as u64;
    if x >= 0x0a00_0000 {
        x = x + 0x100_0000;
    }
    if x >= 0x7f00_0000 {
        x = x + 0x100_0000;
    }
    if x >= 0xa9fe_0000 {
        x = x + 0x1_0000;
    }
    if x >= 0xac10_0000 {
        x = x + 0x10_0000;
    }
    if x >= 0xc0a8_0000 {
        x = x + 0x1_0000;
    }
    x as u32
}

/// Public addresses keep their order when numbered: so each index names at
/// most one address, and `public_ipv4_at` returns a different address for
/// each index.
pub proof fn lemma_public_index_increasing(a: u32, b: u32)
    requires
        !is_reserved_ipv4(a),
        !is_reserved_ipv4(b),
        a < b,
    ensures
        a - reserved_below(a) < b - reserved_below(b),
{
}

/// Draws an address uniformly among those that are neither private,
/// loopback nor link-local.
pub fn random_public_ipv4(rng: &mut StdRng) -> (r: u32)
    ensures
        !is_reserved_ipv4(r),
        r - reserved_below(r) < PUBLIC_IPV4_COUNT,
{
    let k = random_in(rng, 0, PUBLIC_IPV4_COUNT - 1);
    public_ipv4_at(k)
}

} // verus!
