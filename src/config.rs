use vstd::prelude::*;

use crate::args::{ArgData, ArgIp, ArgPort};
use crate::checksum::{ICMP_PROTOCOL, TCP_PROTOCOL, UDP_PROTOCOL};
use crate::error::ConfigError;

verus! {

/// The protocol carried by every datagram of a run.
#[derive(Debug, Clone, Copy, PartialEq, Eq, Structural)]
pub enum Protocol {
    Tcp,
    Udp,
    Icmp,
    /// Only the IPv4 header is written; its protocol field holds the number.
    Raw(u8),
}

pub const IP_HEADER_SIZE: u16 = 20;
pub const TCP_HEADER_SIZE: u16 = 20;
pub const UDP_HEADER_SIZE: u16 = 8;
pub const ICMP_HEADER_SIZE: u16 = 8;

impl Protocol {
    pub open spec fn spec_number(&self) -> u8 {
        match self {
            Protocol::Tcp => TCP_PROTOCOL,
            Protocol::Udp => UDP_PROTOCOL,
            Protocol::Icmp => ICMP_PROTOCOL,
            Protocol::Raw(n) => *n,
        }
    }

    pub open spec fn spec_header_len(&self) -> nat {
        match self {
            Protocol::Tcp => TCP_HEADER_SIZE as nat,
            Protocol::Udp => UDP_HEADER_SIZE as nat,
            Protocol::Icmp => ICMP_HEADER_SIZE as nat,
            Protocol::Raw(_) => 0,
        }
    }

    /// The value of the IPv4 protocol field.
    pub fn number(&self) -> (r: u8)
        ensures
            r == self.spec_number(),
    {
        match self {
            Protocol::Tcp => TCP_PROTOCOL,
            Protocol::Udp => UDP_PROTOCOL,
            Protocol::Icmp => ICMP_PROTOCOL,
            Protocol::Raw(n) => *n,
        }
    }

    /// The size of the transport header written after the IPv4 header.
    pub fn header_len(&self) -> (r: u16)
        ensures
            r == self.spec_header_len(),
    {
        match self {
            Protocol::Tcp => TCP_HEADER_SIZE,
            Protocol::Udp => UDP_HEADER_SIZE,
            Protocol::Icmp => ICMP_HEADER_SIZE,
            Protocol::Raw(_) => 0,
        }
    }
}

/// The protocol chosen by the mode switches and the raw protocol number.
pub open spec fn select_protocol_spec(
    tcp: bool,
    udp: bool,
    icmp: bool,
    rawip: bool,
    proto: Option<u8>,
) -> Result<Protocol, ConfigError> {
    let n = (if tcp { 1int } else { 0 }) + (if udp { 1int } else { 0 }) + (if icmp { 1int } else { 0 })
        + (if rawip { 1int } else { 0 });
    if n > 1 {
        Err(ConfigError::ConflictingProtocols)
    } else if tcp {
        Ok(Protocol::Tcp)
    } else if udp {
        Ok(Protocol::Udp)
    } else if icmp {
        Ok(Protocol::Icmp)
    } else {
        match proto {
            Some(p) => Ok(Protocol::Raw(p)),
            None => if rawip {
                Err(ConfigError::MissingProtocolNumber)
            } else {
                Err(ConfigError::NoProtocol)
            },
        }
    }
}

/// Chooses exactly one protocol: at most one mode switch may be on; with
/// none on, a protocol number alone selects raw IP mode.
pub fn select_protocol(tcp: bool, udp: bool, icmp: bool, rawip: bool, proto: Option<u8>) -> (r:
    Result<Protocol, ConfigError>)
    ensures
        r == select_protocol_spec(tcp, udp, icmp, rawip, proto),
{
    let n: u8 = (if tcp { 1u8 } else { 0 }) + (if udp { 1u8 } else { 0 }) + (if icmp { 1u8 } else { 0 })
        + (if rawip { 1u8 } else { 0 });
    if n > 1 {
        Err(ConfigError::ConflictingProtocols)
    } else if tcp {
        Ok(Protocol::Tcp)
    } else if udp {
        Ok(Protocol::Udp)
    } else if icmp {
        Ok(Protocol::Icmp)
    } else {
        match proto {
            Some(p) => Ok(Protocol::Raw(p)),
            None => if rawip {
                Err(ConfigError::MissingProtocolNumber)
            } else {
                Err(ConfigError::NoProtocol)
            },
        }
    }
}

/// How long to wait between two datagrams.
#[derive(Debug, Clone, Copy, PartialEq, Eq, Structural)]
pub enum Pacing {
    /// No wait at all.
    Flood,
    /// A wait of this many nanoseconds.
    Interval(u64),
}

/// The wait when neither flood mode nor an interval is given: 100 ms.
pub const DEFAULT_INTERVAL_NS: u64 = 100_000_000;

pub open spec fn select_pacing_spec(flood: bool, interval_ns: Option<u64>) -> Result<Pacing, ConfigError> {
    match (flood, interval_ns) {
        (true, Some(_)) => Err(ConfigError::FloodWithInterval),
        (true, None) => Ok(Pacing::Flood),
        (false, Some(n)) => Ok(Pacing::Interval(n)),
        (false, None) => Ok(Pacing::Interval(DEFAULT_INTERVAL_NS)),
    }
}

/// Flood mode and an explicit interval exclude each other.
pub fn select_pacing(flood: bool, interval_ns: Option<u64>) -> (r: Result<Pacing, ConfigError>)
    ensures
        r == select_pacing_spec(flood, interval_ns),
{
    match (flood, interval_ns) {
        (true, Some(_)) => Err(ConfigError::FloodWithInterval),
        (true, None) => Ok(Pacing::Flood),
        (false, Some(n)) => Ok(Pacing::Interval(n)),
        (false, None) => Ok(Pacing::Interval(DEFAULT_INTERVAL_NS)),
    }
}

pub const FIN: u8 = 0x01;
pub const SYN: u8 = 0x02;
pub const RST: u8 = 0x04;
pub const PSH: u8 = 0x08;
pub const ACK: u8 = 0x10;
pub const URG: u8 = 0x20;

/// The TCP flags asked for, single and composite.
#[derive(Debug, Clone, Copy, PartialEq, Eq, Structural)]
pub struct TcpFlagSet {
    pub fin: bool,
    pub syn: bool,
    pub rst: bool,
    pub psh: bool,
    pub ack: bool,
    pub urg: bool,
    /// FIN, PSH and URG together.
    pub xmas: bool,
    /// FIN, PSH, URG and ACK together.
    pub ymas: bool,
}

impl TcpFlagSet {
    pub open spec fn spec_bits(&self) -> u8 {
        (if self.fin { FIN } else { 0u8 }) | (if self.syn { SYN } else { 0u8 }) | (if self.rst {
            RST
        } else {
            0u8
        }) | (if self.psh { PSH } else { 0u8 }) | (if self.ack { ACK } else { 0u8 }) | (if self.urg {
            URG
        } else {
            0u8
        }) | (if self.xmas { FIN | PSH | URG } else { 0u8 }) | (if self.ymas {
            FIN | PSH | URG | ACK
        } else {
            0u8
        })
    }

    /// The flag byte: the bitwise or of every flag asked for.
    pub fn bits(&self) -> (r: u8)
        ensures
            r == self.spec_bits(),
    {
        let single = (if self.fin { FIN } else { 0u8 }) | (if self.syn { SYN } else { 0u8 }) | (
        if self.rst {
            RST
        } else {
            0u8
        }) | (if self.psh { PSH } else { 0u8 }) | (if self.ack { ACK } else { 0u8 }) | (if self.urg {
            URG
        } else {
            0u8
        });
        single | (if self.xmas { FIN | PSH | URG } else { 0u8 }) | (if self.ymas {
            FIN | PSH | URG | ACK
        } else {
            0u8
        })
    }

    /// The composite flags: `xmas` sets FIN, PSH and URG, `ymas` sets FIN,
    /// PSH, URG and ACK, each on top of whatever else is set; asked for alone,
    /// each sets exactly those bits and no other.
    pub proof fn lemma_composite_flags(&self)
        ensures
            FIN | PSH | URG == 0x29u8,
            FIN | PSH | URG | ACK == 0x39u8,
            self.xmas ==> self.spec_bits() & (FIN | PSH | URG) == FIN | PSH | URG,
            self.ymas ==> self.spec_bits() & (FIN | PSH | URG | ACK) == FIN | PSH | URG | ACK,
            self.xmas && !self.ymas && !self.fin && !self.syn && !self.rst && !self.psh && !self.ack
                && !self.urg ==> self.spec_bits() == FIN | PSH | URG,
            self.ymas && !self.xmas && !self.fin && !self.syn && !self.rst && !self.psh && !self.ack
                && !self.urg ==> self.spec_bits() == FIN | PSH | URG | ACK,
    {
        let s = (if self.fin { FIN } else { 0u8 }) | (if self.syn { SYN } else { 0u8 }) | (if self.rst {
            RST
        } else {
            0u8
        }) | (if self.psh { PSH } else { 0u8 }) | (if self.ack { ACK } else { 0u8 }) | (if self.urg {
            URG
        } else {
            0u8
        });
        let x = if self.xmas { FIN | PSH | URG } else { 0u8 };
        let y = if self.ymas { FIN | PSH | URG | ACK } else { 0u8 };
        assert(self.spec_bits() == s | x | y);
        assert(x == 0x29u8 ==> (s | x | y) & 0x29u8 == 0x29u8) by (bit_vector);
        assert(y == 0x39u8 ==> (s | x | y) & 0x39u8 == 0x39u8) by (bit_vector);
        assert(s == 0u8 && x == 0x29u8 && y == 0u8 ==> s | x | y == 0x29u8) by (bit_vector);
        assert(s == 0u8 && y == 0x39u8 && x == 0u8 ==> s | x | y == 0x39u8) by (bit_vector);
        if !self.fin && !self.syn && !self.rst && !self.psh && !self.ack && !self.urg {
            assert(0u8 | 0u8 | 0u8 | 0u8 | 0u8 | 0u8 == 0u8) by (bit_vector);
        }
        assert(FIN | PSH | URG == 0x29u8) by (bit_vector);
        assert(FIN | PSH | URG | ACK == 0x39u8) by (bit_vector);
    }
}

pub open spec fn ips_wf(v: Seq<ArgIp>) -> bool {
    forall|i: int| 0 <= i < v.len() ==> (#[trigger] v[i]).wf()
}

pub open spec fn ports_wf(v: Seq<ArgPort>) -> bool {
    forall|i: int| 0 <= i < v.len() ==> (#[trigger] v[i]).wf()
}

fn check_ips(v: &Vec<ArgIp>) -> (r: bool)
    ensures
        r == ips_wf(v@),
{
    let mut i: usize = 0;
    while i < v.len()
        invariant
            i <= v@.len(),
            forall|j: int| 0 <= j < i ==> (#[trigger] v@[j]).wf(),
        decreases v@.len() - i,
    {
        match &v[i] {
            ArgIp::Address(_) => {},
            ArgIp::Network(n) => {
                if n.prefix_len > 32 {
                    return false;
                }
            },
        }
        i = i + 1;
    }
    true
}

fn check_ports(v: &Vec<ArgPort>) -> (r: bool)
    ensures
        r == ports_wf(v@),
{
    let mut i: usize = 0;
    while i < v.len()
        invariant
            i <= v@.len(),
            forall|j: int| 0 <= j < i ==> (#[trigger] v@[j]).wf(),
        decreases v@.len() - i,
    {
        match &v[i] {
            ArgPort::Single(_) => {},
            ArgPort::Range(r) => {
                if r.start > r.end {
                    return false;
                }
            },
        }
        i = i + 1;
    }
    true
}

/// Everything a run needs, fixed before the first datagram is sent. An empty
/// address or port list leaves that field unconstrained.
#[derive(Debug, Clone)]
pub struct Config {
    pub protocol: Protocol,
    pub src_ip: Vec<ArgIp>,
    pub dst_ip: Vec<ArgIp>,
    pub src_port: Vec<ArgPort>,
    pub dst_port: Vec<ArgPort>,
    /// Payload size; no payload when absent.
    pub data: Option<ArgData>,
    pub ttl: u8,
    /// IPv4 identification; drawn for every datagram when absent.
    pub id: Option<u16>,
    pub flags: TcpFlagSet,
    pub window: u16,
    /// TCP sequence number; drawn for every datagram when absent.
    pub seq: Option<u32>,
    /// TCP acknowledgment number; drawn for every datagram when absent.
    pub ack_seq: Option<u32>,
    pub icmp_type: u8,
    pub icmp_code: u8,
    /// The byte that fills the payload.
    pub fill: u8,
    pub pacing: Pacing,
    /// Stop after this many datagrams were sent.
    pub count: Option<u32>,
    /// Stop once this many nanoseconds have passed since the start.
    pub duration_ns: Option<u64>,
}

/// The fill byte when none is configured: `X`.
pub const DEFAULT_FILL: u8 = 0x58;

impl Config {
    /// The largest payload that fits in one datagram of the protocol.
    pub open spec fn max_payload(&self) -> nat {
        (0xffff - IP_HEADER_SIZE - self.protocol.spec_header_len()) as nat
    }

    pub open spec fn constraints_wf(&self) -> bool {
        &&& ips_wf(self.src_ip@)
        &&& ips_wf(self.dst_ip@)
        &&& ports_wf(self.src_port@)
        &&& ports_wf(self.dst_port@)
        &&& self.data matches Some(d) ==> d.wf()
    }

    pub open spec fn wf(&self) -> bool {
        &&& self.constraints_wf()
        &&& self.data matches Some(d) ==> d.bounds().1 <= self.max_payload()
    }

    /// Checks the constraints and that the largest payload fits.
    pub fn validate(&self) -> (r: Result<(), ConfigError>)
        ensures
            r is Ok <==> self.wf(),
            r == Err::<(), ConfigError>(ConfigError::MalformedConstraint) <==> !self.constraints_wf(),
            r == Err::<(), ConfigError>(ConfigError::PayloadTooLarge) <==> self.constraints_wf()
                && !self.wf(),
    {
        let data_ok = match &self.data {
            Some(ArgData::Single(_)) => true,
            Some(ArgData::Range(r)) => r.start <= r.end,
            None => true,
        };
        if !(check_ips(&self.src_ip) && check_ips(&self.dst_ip) && check_ports(&self.src_port)
            && check_ports(&self.dst_port) && data_ok) {
            return Err(ConfigError::MalformedConstraint);
        }
        let max = 0xffff - IP_HEADER_SIZE - self.protocol.header_len();
        let fits = match &self.data {
            Some(ArgData::Single(v)) => *v <= max,
            Some(ArgData::Range(r)) => r.end <= max,
            None => true,
        };
        if fits {
            Ok(())
        } else {
            Err(ConfigError::PayloadTooLarge)
        }
    }
}

} // verus!
