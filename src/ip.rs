use vstd::prelude::*;

use crate::error::ConstraintError;
use crate::parse::{chars_of, count_char, count_of};
use crate::range::Range;

verus! {

/// What `ipnet::Ipv4Net` reads from a text: its address and prefix length.
pub uninterp spec fn parsed_ipv4_net(s: Seq<char>) -> Option<(u32, u8)>;

/// Relies on `<ipnet::Ipv4Net as FromStr>::from_str`: reads `a.b.c.d/len`
/// into an address and a prefix length, which `Ipv4Net` keeps at most 32.
#[verifier::external_body]
fn parse_ipv4_net(s: &str) -> (r: Option<(u32, u8)>)
    ensures
        r == parsed_ipv4_net(s@),
        r matches Some((_, p)) ==> p <= 32,
{
    match s.parse::<ipnet::Ipv4Net>() {
        Ok(net) => Some((u32::from(net.addr()), net.prefix_len())),
        Err(_) => None,
    }
}

/// The text read as a network: `s` itself when it has a `/`, else `s/32`.
pub open spec fn network_text(s: Seq<char>) -> Seq<char> {
    if count_char(s, '/') > 0 {
        s
    } else {
        s + seq!['/', '3', '2']
    }
}

/// Reads `a.b.c.d/len`, or `a.b.c.d` as a network of one address.
pub(crate) fn parse_network_text(s: &str) -> (r: Option<(u32, u8)>)
    ensures
        r == parsed_ipv4_net(network_text(s@)),
        r matches Some((_, p)) ==> p <= 32,
{
    let cs = chars_of(s);
    if count_of(&cs, '/') > 0 {
        parse_ipv4_net(s)
    } else {
        let t = String::from_str(s).concat("/32");
        proof {
            reveal_strlit("/32");
            assert(t@ =~= network_text(s@));
        }
        parse_ipv4_net(t.as_str())
    }
}

/// The mask of a prefix of `p` bits.
pub open spec fn prefix_mask(p: u8) -> u32 {
    if p == 0 {
        0
    } else {
        0xffff_ffffu32 << ((32 - p) as u32)
    }
}

/// An IPv4 network: an address and the length of its network prefix.
#[derive(Debug, Clone, Copy, PartialEq, Eq, Structural)]
pub struct Ipv4Network {
    pub addr: u32,
    pub prefix_len: u8,
}

proof fn lemma_network_bounds(a: u32, m: u32)
    ensures
        a & m <= a | !m,
{
    assert(a & m <= a | !m) by (bit_vector);
}

proof fn lemma_between_is_inside(a: u32, x: u32, k: u32)
    requires
        k < 32,
        a & (0xffff_ffffu32 << k) <= x <= a | !(0xffff_ffffu32 << k),
    ensures
        x & (0xffff_ffffu32 << k) == a & (0xffff_ffffu32 << k),
{
    assert(k < 32 && a & (0xffff_ffffu32 << k) <= x && x <= a | !(0xffff_ffffu32 << k) ==> x & (
    0xffff_ffffu32 << k) == a & (0xffff_ffffu32 << k)) by (bit_vector);
}

impl Ipv4Network {
    pub open spec fn wf(&self) -> bool {
        self.prefix_len <= 32
    }

    pub open spec fn spec_network(&self) -> u32 {
        self.addr & prefix_mask(self.prefix_len)
    }

    pub open spec fn spec_broadcast(&self) -> u32 {
        self.addr | !prefix_mask(self.prefix_len)
    }

    /// `x` shares the network prefix.
    pub open spec fn contains(&self, x: u32) -> bool {
        x & prefix_mask(self.prefix_len) == self.spec_network()
    }

    fn mask(&self) -> (r: u32)
        requires
            self.wf(),
        ensures
            r == prefix_mask(self.prefix_len),
    {
        if self.prefix_len == 0 {
            0
        } else {
            let k: u32 = 32 - self.prefix_len as u32;
            assert(k == (32 - self.prefix_len) as u32);
            0xffff_ffffu32 << k
        }
    }

    /// The first address of the network.
    pub fn network(&self) -> (r: u32)
        requires
            self.wf(),
        ensures
            r == self.spec_network(),
            r <= self.spec_broadcast(),
    {
        proof {
            lemma_network_bounds(self.addr, prefix_mask(self.prefix_len));
        }
        let m = self.mask();
        self.addr & m
    }

    /// The last address of the network.
    pub fn broadcast(&self) -> (r: u32)
        requires
            self.wf(),
        ensures
            r == self.spec_broadcast(),
    {
        let m = self.mask();
        self.addr | !m
    }

    /// Every address from the first to the last lies in the network.
    pub proof fn lemma_range_inside(&self, x: u32)
        requires
            self.wf(),
            self.spec_network() <= x <= self.spec_broadcast(),
        ensures
            self.contains(x),
    {
        if self.prefix_len == 0 {
            assert(x & 0 == 0) by (bit_vector);
            assert(self.addr & 0 == 0) by (bit_vector);
        } else {
            lemma_between_is_inside(self.addr, x, (32 - self.prefix_len) as u32);
        }
    }
}

/// An address constraint: every address from `start` to `end`.
#[derive(Debug, Clone, Copy)]
pub struct Ip(pub Range<u32>);

impl Ip {
    /// Reads `a.b.c.d/len` as the addresses of that network, or `a.b.c.d`
    /// as that one address.
    pub fn from_str(s: &str) -> (r: Result<Ip, ConstraintError>)
        ensures
            parsed_ipv4_net(network_text(s@)) matches Some((a, p)) ==> r matches Ok(ip) && ip.0.wf()
                && ip.0.start == (Ipv4Network { addr: a, prefix_len: p }).spec_network()
                && ip.0.end == (Ipv4Network { addr: a, prefix_len: p }).spec_broadcast(),
            parsed_ipv4_net(network_text(s@)) is None ==> r == Err::<Ip, ConstraintError>(ConstraintError::InvalidNetwork),
    {
        match parse_network_text(s) {
            Some((a, p)) => {
                let net = Ipv4Network { addr: a, prefix_len: p };
                Ok(Ip(Range::new(net.network(), net.broadcast())))
            },
            None => Err(ConstraintError::InvalidNetwork),
        }
    }
}

impl std::str::FromStr for Ip {
    type Err = ConstraintError;

    fn from_str(s: &str) -> Result<Self, ConstraintError> {
        Ip::from_str(s)
    }
}

} // verus!
