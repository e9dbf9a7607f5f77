use vstd::prelude::*;

use rand::rngs::StdRng;

use crate::error::ConstraintError;
use crate::ip::{network_text, parsed_ipv4_net, Ipv4Network};
use crate::parse::{chars_of, count_char, count_of, parse_uint, parse_uint_spec};
use crate::random::{is_reserved_ipv4, random_in, random_public_ipv4};
use crate::range::{parse_range, parse_range_spec, Range};

verus! {

/// What a port or payload-size text reads as: `start-end` when it has a `-`,
/// else one value; `single_error` is the error of a bad single value.
pub open spec fn u16_constraint_spec(s: Seq<char>, single_error: ConstraintError) -> Result<
    (nat, nat),
    ConstraintError,
> {
    if count_char(s, '-') > 0 {
        parse_range_spec(s, 0xffff)
    } else {
        match parse_uint_spec(s, 0xffff) {
            Some(v) => Ok((v, v)),
            None => Err(single_error),
        }
    }
}

/// Reads a `u16` value or range; a single value comes back as `(v, v)` and
/// `single` tells the two apart.
fn parse_u16_constraint(s: &str, single_error: ConstraintError) -> (r: Result<
    (u16, u16, bool),
    ConstraintError,
>)
    ensures
        r matches Ok((a, b, single)) ==> a <= b && u16_constraint_spec(s@, single_error) == Ok::<
            (nat, nat),
            ConstraintError,
        >((a as nat, b as nat)) && single == (count_char(s@, '-') == 0),
        r matches Err(e) ==> u16_constraint_spec(s@, single_error) == Err::<
            (nat, nat),
            ConstraintError,
        >(e),
{
    let cs = chars_of(s);
    if count_of(&cs, '-') > 0 {
        match parse_range(&cs, 0xffff) {
            Ok((a, b)) => Ok((a as u16, b as u16, false)),
            Err(e) => Err(e),
        }
    } else {
        assert(cs@.subrange(0, cs@.len() as int) =~= cs@);
        match parse_uint(&cs, 0, cs.len(), 0xffff) {
            Some(v) => Ok((v as u16, v as u16, true)),
            None => Err(single_error),
        }
    }
}

/// A payload size: one value or a range of them.
#[derive(Debug, Clone, Copy)]
pub enum ArgData {
    Single(u16),
    Range(Range<u16>),
}

impl ArgData {
    pub open spec fn wf(&self) -> bool {
        match self {
            ArgData::Single(_) => true,
            ArgData::Range(r) => r.wf(),
        }
    }

    /// The smallest and largest sizes it allows.
    pub open spec fn bounds(&self) -> (u16, u16) {
        match self {
            ArgData::Single(v) => (*v, *v),
            ArgData::Range(r) => (r.start, r.end),
        }
    }

    /// `v` is one of the sizes it allows.
    pub open spec fn admits(&self, v: u16) -> bool {
        self.bounds().0 <= v <= self.bounds().1
    }

    /// Reads `n` or `start-end`.
    pub fn from_str(s: &str) -> (r: Result<Self, ConstraintError>)
        ensures
            r matches Ok(d) ==> d.wf() && u16_constraint_spec(s@, ConstraintError::InvalidDataSize)
                == Ok::<(nat, nat), ConstraintError>((d.bounds().0 as nat, d.bounds().1 as nat))
                && (d is Single <==> count_char(s@, '-') == 0),
            r matches Err(e) ==> u16_constraint_spec(s@, ConstraintError::InvalidDataSize) == Err::<
                (nat, nat),
                ConstraintError,
            >(e),
    {
        match parse_u16_constraint(s, ConstraintError::InvalidDataSize) {
            Ok((a, b, single)) => if single {
                Ok(ArgData::Single(a))
            } else {
                Ok(ArgData::Range(Range::new(a, b)))
            },
            Err(e) => Err(e),
        }
    }

    /// Draws a size it allows.
    pub fn get_random_value(&self, rng: &mut StdRng) -> (r: u16)
        requires
            self.wf(),
        ensures
            self.admits(r),
            self matches ArgData::Single(v) ==> r == v,
    {
        match self {
            ArgData::Single(v) => *v,
            ArgData::Range(range) => range.get_random_value(rng),
        }
    }
}

impl std::str::FromStr for ArgData {
    type Err = ConstraintError;

    fn from_str(s: &str) -> Result<Self, ConstraintError> {
        ArgData::from_str(s)
    }
}

/// A port: one value or a range of them.
#[derive(Debug, Clone, Copy, PartialEq, Eq)]
pub enum ArgPort {
    Single(u16),
    Range(Range<u16>),
}

impl ArgPort {
    pub open spec fn wf(&self) -> bool {
        match self {
            ArgPort::Single(_) => true,
            ArgPort::Range(r) => r.wf(),
        }
    }

    /// The smallest and largest ports it allows.
    pub open spec fn bounds(&self) -> (u16, u16) {
        match self {
            ArgPort::Single(v) => (*v, *v),
            ArgPort::Range(r) => (r.start, r.end),
        }
    }

    /// `v` is one of the ports it allows.
    pub open spec fn admits(&self, v: u16) -> bool {
        self.bounds().0 <= v <= self.bounds().1
    }

    /// Reads `port` or `start-end`.
    pub fn from_str(s: &str) -> (r: Result<Self, ConstraintError>)
        ensures
            r matches Ok(p) ==> p.wf() && u16_constraint_spec(s@, ConstraintError::InvalidPort)
                == Ok::<(nat, nat), ConstraintError>((p.bounds().0 as nat, p.bounds().1 as nat))
                && (p is Single <==> count_char(s@, '-') == 0),
            r matches Err(e) ==> u16_constraint_spec(s@, ConstraintError::InvalidPort) == Err::<
                (nat, nat),
                ConstraintError,
            >(e),
    {
        match parse_u16_constraint(s, ConstraintError::InvalidPort) {
            Ok((a, b, single)) => if single {
                Ok(ArgPort::Single(a))
            } else {
                Ok(ArgPort::Range(Range::new(a, b)))
            },
            Err(e) => Err(e),
        }
    }

    /// Draws a port it allows.
    pub fn get_random_value(&self, rng: &mut StdRng) -> (r: u16)
        requires
            self.wf(),
        ensures
            self.admits(r),
            self matches ArgPort::Single(v) ==> r == v,
    {
        match self {
            ArgPort::Single(v) => *v,
            ArgPort::Range(range) => range.get_random_value(rng),
        }
    }
}

impl std::str::FromStr for ArgPort {
    type Err = ConstraintError;

    fn from_str(s: &str) -> Result<Self, ConstraintError> {
        ArgPort::from_str(s)
    }
}

/// An address constraint: one address, or every address of a network.
#[derive(Debug, Clone, Copy, PartialEq, Eq)]
pub enum ArgIp {
    Address(u32),
    Network(Ipv4Network),
}

impl ArgIp {
    pub open spec fn wf(&self) -> bool {
        match self {
            ArgIp::Address(_) => true,
            ArgIp::Network(n) => n.wf(),
        }
    }

    /// `v` is one of the addresses it allows.
    pub open spec fn admits(&self, v: u32) -> bool {
        match self {
            ArgIp::Address(a) => v == *a,
            ArgIp::Network(n) => n.contains(v) && n.spec_network() <= v <= n.spec_broadcast(),
        }
    }

    /// Reads `a.b.c.d/len` as a network, or `a.b.c.d` as one address.
    pub fn from_str(s: &str) -> (r: Result<Self, ConstraintError>)
        ensures
            count_char(s@, '/') > 0 ==> match parsed_ipv4_net(s@) {
                Some((a, p)) => r == Ok::<ArgIp, ConstraintError>(
                    ArgIp::Network(Ipv4Network { addr: a, prefix_len: p }),
                ),
                None => r == Err::<ArgIp, ConstraintError>(ConstraintError::InvalidNetwork),
            },
            count_char(s@, '/') == 0 ==> match parsed_ipv4_net(network_text(s@)) {
                Some((a, _)) => r == Ok::<ArgIp, ConstraintError>(ArgIp::Address(a)),
                None => r == Err::<ArgIp, ConstraintError>(ConstraintError::InvalidAddress),
            },
            r matches Ok(ip) ==> ip.wf(),
    {
        let cs = chars_of(s);
        let is_net = count_of(&cs, '/') > 0;
        match crate::ip::parse_network_text(s) {
            Some((a, p)) => if is_net {
                Ok(ArgIp::Network(Ipv4Network { addr: a, prefix_len: p }))
            } else {
                Ok(ArgIp::Address(a))
            },
            None => if is_net {
                Err(ConstraintError::InvalidNetwork)
            } else {
                Err(ConstraintError::InvalidAddress)
            },
        }
    }

    /// Draws an address it allows.
    pub fn get_random_value(&self, rng: &mut StdRng) -> (r: u32)
        requires
            self.wf(),
        ensures
            self.admits(r),
            self matches ArgIp::Address(a) ==> r == a,
    {
        match self {
            ArgIp::Address(a) => *a,
            ArgIp::Network(n) => {
                let lo = n.network();
                let hi = n.broadcast();
                let v = random_in(rng, lo, hi);
                proof {
                    n.lemma_range_inside(v);
                }
                v
            },
        }
    }
}

impl std::str::FromStr for ArgIp {
    type Err = ConstraintError;

    fn from_str(s: &str) -> Result<Self, ConstraintError> {
        ArgIp::from_str(s)
    }
}

/// Picks one of `arg` uniformly, or draws a public address when `arg` is empty.
pub fn random_ip(rng: &mut StdRng, arg: &Vec<ArgIp>) -> (r: u32)
    requires
        forall|i: int| 0 <= i < arg@.len() ==> (#[trigger] arg@[i]).wf(),
    ensures
        arg@.len() > 0 ==> exists|i: int| 0 <= i < arg@.len() && (#[trigger] arg@[i]).admits(r),
        arg@.len() == 0 ==> !is_reserved_ipv4(r),
{
    if arg.len() == 0 {
        random_public_ipv4(rng)
    } else {
        let i = random_in(rng, 0, (arg.len() - 1) as u32) as usize;
        random_ip_at(rng, arg, i)
    }
}

/// Draws an address allowed by entry `i` of `arg`.
pub fn random_ip_at(rng: &mut StdRng, arg: &Vec<ArgIp>, i: usize) -> (r: u32)
    requires
        i < arg@.len(),
        arg@[i as int].wf(),
    ensures
        arg@[i as int].admits(r),
        arg@[i as int] matches ArgIp::Address(a) ==> r == a,
{
    arg[i].get_random_value(rng)
}

/// Picks one of `arg` uniformly, or any port when `arg` is empty.
pub fn random_port(rng: &mut StdRng, arg: &Vec<ArgPort>) -> (r: u16)
    requires
        forall|i: int| 0 <= i < arg@.len() ==> (#[trigger] arg@[i]).wf(),
    ensures
        arg@.len() > 0 ==> exists|i: int| 0 <= i < arg@.len() && (#[trigger] arg@[i]).admits(r),
{
    if arg.len() == 0 {
        random_in(rng, 0, 0xffff) as u16
    } else {
        let i = random_in(rng, 0, (arg.len() - 1) as u32) as usize;
        random_port_at(rng, arg, i)
    }
}

/// Draws a port allowed by entry `i` of `arg`.
pub fn random_port_at(rng: &mut StdRng, arg: &Vec<ArgPort>, i: usize) -> (r: u16)
    requires
        i < arg@.len(),
        arg@[i as int].wf(),
    ensures
        arg@[i as int].admits(r),
        arg@[i as int] matches ArgPort::Single(p) ==> r == p,
{
    arg[i].get_random_value(rng)
}

/// Draws a payload size; none when no size is configured.
pub fn random_data_size(rng: &mut StdRng, arg: &Option<ArgData>) -> (r: u16)
    requires
        arg matches Some(d) ==> d.wf(),
    ensures
        arg is None ==> r == 0,
        arg matches Some(d) ==> d.admits(r),
{
    match arg {
        Some(d) => d.get_random_value(rng),
        None => 0,
    }
}

} // verus!
