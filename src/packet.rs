use vstd::prelude::*;
use vstd::slice::slice_subrange;

use rand::rngs::StdRng;

use crate::args::{random_data_size, random_ip, random_port, ArgIp, ArgPort};
use crate::bytes::{be16, be32, push_be16, push_be32, push_repeated, put_be16, repeat_byte};
use crate::checksum::{internet_checksum, internet_checksum_spec, proto_ipv4_checksum, pseudo_checksum_spec};
use crate::config::{Config, Protocol, IP_HEADER_SIZE};
use crate::random::{is_reserved_ipv4, random_in};

verus! {

/// The values drawn for one datagram.
#[derive(Debug, Clone, Copy, PartialEq, Eq, Structural)]
pub struct PacketFields {
    pub src_ip: u32,
    pub dst_ip: u32,
    pub src_port: u16,
    pub dst_port: u16,
    pub data_len: u16,
    pub id: u16,
    pub seq: u32,
    pub ack: u32,
}

/// `a` is allowed by the address list `c`: by one of its entries, or, for an
/// empty list, by not being private, loopback or link-local.
pub open spec fn ip_allowed(c: Seq<ArgIp>, a: u32) -> bool {
    if c.len() == 0 {
        !is_reserved_ipv4(a)
    } else {
        exists|i: int| 0 <= i < c.len() && (#[trigger] c[i]).admits(a)
    }
}

/// `p` is allowed by the port list `c`; an empty list allows any port.
pub open spec fn port_allowed(c: Seq<ArgPort>, p: u16) -> bool {
    c.len() > 0 ==> exists|i: int| 0 <= i < c.len() && (#[trigger] c[i]).admits(p)
}

/// A fixed value is kept; an absent one may be anything.
pub open spec fn fixed_or_any<T>(c: Option<T>, v: T) -> bool {
    c matches Some(x) ==> v == x
}

impl Config {
    /// `f` is a possible draw under this configuration.
    pub open spec fn allows(&self, f: PacketFields) -> bool {
        &&& ip_allowed(self.src_ip@, f.src_ip)
        &&& ip_allowed(self.dst_ip@, f.dst_ip)
        &&& port_allowed(self.src_port@, f.src_port)
        &&& port_allowed(self.dst_port@, f.dst_port)
        &&& (self.data is None ==> f.data_len == 0)
        &&& (self.data matches Some(d) ==> d.admits(f.data_len))
        &&& fixed_or_any(self.id, f.id)
        &&& fixed_or_any(self.seq, f.seq)
        &&& fixed_or_any(self.ack_seq, f.ack)
    }
}

fn fixed_or_random_u16(c: Option<u16>, rng: &mut StdRng) -> (r: u16)
    ensures
        fixed_or_any(c, r),
{
    match c {
        Some(v) => v,
        None => random_in(rng, 0, 0xffff) as u16,
    }
}

fn fixed_or_random_u32(c: Option<u32>, rng: &mut StdRng) -> (r: u32)
    ensures
        fixed_or_any(c, r),
{
    match c {
        Some(v) => v,
        None => random_in(rng, 0, 0xffff_ffff),
    }
}

/// Draws fresh values for one datagram.
pub fn sample_fields(config: &Config, rng: &mut StdRng) -> (f: PacketFields)
    requires
        config.wf(),
    ensures
        config.allows(f),
        f.data_len <= config.max_payload(),
{
    let data_len = random_data_size(rng, &config.data);
    let src_ip = random_ip(rng, &config.src_ip);
    let dst_ip = random_ip(rng, &config.dst_ip);
    let src_port = random_port(rng, &config.src_port);
    let dst_port = random_port(rng, &config.dst_port);
    let id = fixed_or_random_u16(config.id, rng);
    let seq = fixed_or_random_u32(config.seq, rng);
    let ack = fixed_or_random_u32(config.ack_seq, rng);
    PacketFields { src_ip, dst_ip, src_port, dst_port, data_len, id, seq, ack }
}

/// Length of the whole datagram.
pub open spec fn total_len(c: &Config, f: PacketFields) -> nat {
    (IP_HEADER_SIZE + c.protocol.spec_header_len() + f.data_len) as nat
}

/// The 20-byte IPv4 header without options, with the given checksum.
pub open spec fn ipv4_header_spec(c: &Config, f: PacketFields, checksum: u16) -> Seq<u8> {
    seq![0x45u8, 0u8] + be16(total_len(c, f) as u16) + be16(f.id) + seq![
        0u8,
        0u8,
        c.ttl,
        c.protocol.spec_number(),
    ] + be16(checksum) + be32(f.src_ip) + be32(f.dst_ip)
}

/// The transport header, with the given checksum.
pub open spec fn transport_header_spec(c: &Config, f: PacketFields, checksum: u16) -> Seq<u8> {
    match c.protocol {
        Protocol::Tcp => be16(f.src_port) + be16(f.dst_port) + be32(f.seq) + be32(f.ack) + seq![
            0x50u8,
            c.flags.spec_bits(),
        ] + be16(c.window) + be16(checksum) + seq![0u8, 0u8],
        Protocol::Udp => be16(f.src_port) + be16(f.dst_port) + be16((8 + f.data_len) as u16) + be16(
            checksum,
        ),
        Protocol::Icmp => seq![c.icmp_type, c.icmp_code] + be16(checksum) + seq![0u8, 0u8, 0u8, 0u8],
        Protocol::Raw(_) => seq![],
    }
}

/// The payload: `data_len` copies of the fill byte.
pub open spec fn payload_spec(c: &Config, f: PacketFields) -> Seq<u8> {
    repeat_byte(c.fill, f.data_len as nat)
}

/// The checksum of the transport part: over the pseudo-header and segment for
/// TCP and UDP, over the message for ICMP, none for raw IP.
pub open spec fn transport_checksum_spec(c: &Config, f: PacketFields) -> u16 {
    let unchecked = transport_header_spec(c, f, 0) + payload_spec(c, f);
    match c.protocol {
        Protocol::Tcp => pseudo_checksum_spec(unchecked, c.protocol.spec_number(), f.src_ip, f.dst_ip),
        Protocol::Udp => pseudo_checksum_spec(unchecked, c.protocol.spec_number(), f.src_ip, f.dst_ip),
        Protocol::Icmp => internet_checksum_spec(unchecked),
        Protocol::Raw(_) => 0,
    }
}

/// Transport header and payload, the checksum filled in.
pub open spec fn segment_spec(c: &Config, f: PacketFields) -> Seq<u8> {
    transport_header_spec(c, f, transport_checksum_spec(c, f)) + payload_spec(c, f)
}

/// The whole datagram: the IPv4 header, whose checksum covers the header
/// alone, then the segment.
pub open spec fn packet_spec(c: &Config, f: PacketFields) -> Seq<u8> {
    ipv4_header_spec(c, f, internet_checksum_spec(ipv4_header_spec(c, f, 0))) + segment_spec(c, f)
}

fn push_ipv4_header(buf: &mut Vec<u8>, c: &Config, f: &PacketFields, total: u16)
    requires
        total == total_len(c, *f),
    ensures
        final(buf)@ == old(buf)@ + ipv4_header_spec(c, *f, 0),
{
    let ghost start = buf@;
    buf.push(0x45);
    buf.push(0);
    push_be16(buf, total);
    push_be16(buf, f.id);
    buf.push(0);
    buf.push(0);
    buf.push(c.ttl);
    buf.push(c.protocol.number());
    push_be16(buf, 0);
    push_be32(buf, f.src_ip);
    push_be32(buf, f.dst_ip);
    assert(buf@ =~= start + ipv4_header_spec(c, *f, 0));
}

fn push_transport_header(buf: &mut Vec<u8>, c: &Config, f: &PacketFields)
    requires
        f.data_len <= c.max_payload(),
    ensures
        final(buf)@ == old(buf)@ + transport_header_spec(c, *f, 0),
{
    let ghost start = buf@;
    match c.protocol {
        Protocol::Tcp => {
            push_be16(buf, f.src_port);
            push_be16(buf, f.dst_port);
            push_be32(buf, f.seq);
            push_be32(buf, f.ack);
            buf.push(0x50);
            buf.push(c.flags.bits());
            push_be16(buf, c.window);
            push_be16(buf, 0);
            buf.push(0);
            buf.push(0);
        },
        Protocol::Udp => {
            push_be16(buf, f.src_port);
            push_be16(buf, f.dst_port);
            push_be16(buf, 8 + f.data_len);
            push_be16(buf, 0);
        },
        Protocol::Icmp => {
            buf.push(c.icmp_type);
            buf.push(c.icmp_code);
            push_be16(buf, 0);
            buf.push(0);
            buf.push(0);
            buf.push(0);
            buf.push(0);
        },
        Protocol::Raw(_) => {},
    }
    assert(buf@ =~= start + transport_header_spec(c, *f, 0));
}

/// Offset of the checksum field within the transport header.
pub open spec fn checksum_offset(p: Protocol) -> nat {
    match p {
        Protocol::Tcp => 16,
        Protocol::Udp => 6,
        _ => 2,
    }
}

/// Lays out the datagram for `f` in `buf`, which is emptied first and keeps
/// its allocation: IPv4 header, transport header, payload, then the transport
/// checksum, then the IPv4 header checksum. Returns the datagram's length.
#[verifier::rlimit(40)]
pub fn build_ipv4_packet(config: &Config, f: &PacketFields, buf: &mut Vec<u8>) -> (len: usize)
    requires
        f.data_len <= config.max_payload(),
    ensures
        final(buf)@ == packet_spec(config, *f),
        len == final(buf)@.len(),
        len == total_len(config, *f),
{
    let hlen = config.protocol.header_len();
    let total: u16 = IP_HEADER_SIZE + hlen + f.data_len;
    buf.clear();
    push_ipv4_header(buf, config, f, total);
    push_transport_header(buf, config, f);
    push_repeated(buf, config.fill, f.data_len as usize);
    let ghost hdr0 = ipv4_header_spec(config, *f, 0);
    let ghost unchecked = transport_header_spec(config, *f, 0) + payload_spec(config, *f);
    assert(buf@ =~= hdr0 + unchecked);
    let len = buf.len();
    let cs: u16 = transport_checksum(config, f, buf, len);
    proof {
        assert(cs == transport_checksum_spec(config, *f));
    }
    match config.protocol {
        Protocol::Raw(_) => {
            assert(unchecked =~= segment_spec(config, *f));
        },
        _ => {
            let at: usize = 20 + if config.protocol == Protocol::Tcp {
                16
            } else if config.protocol == Protocol::Udp {
                6
            } else {
                2
            };
            put_be16(buf, at, cs);
            assert(buf@ =~= hdr0 + segment_spec(config, *f));
        },
    }
    let ghost mid = buf@;
    let ipcs = internet_checksum(slice_subrange(buf.as_slice(), 0, 20));
    assert(mid.subrange(0, 20) =~= hdr0);
    put_be16(buf, 10, ipcs);
    assert(buf@ =~= packet_spec(config, *f));
    len
}

/// The transport checksum of the segment that follows the IPv4 header in `buf`.
fn transport_checksum(config: &Config, f: &PacketFields, buf: &Vec<u8>, len: usize) -> (r: u16)
    requires
        len == buf@.len(),
        f.data_len <= config.max_payload(),
        buf@ == ipv4_header_spec(config, *f, 0) + transport_header_spec(config, *f, 0) + payload_spec(
            config,
            *f,
        ),
    ensures
        r == transport_checksum_spec(config, *f),
{
    let ghost unchecked = transport_header_spec(config, *f, 0) + payload_spec(config, *f);
    let seg = slice_subrange(buf.as_slice(), 20, len);
    assert(seg@ =~= unchecked);
    match config.protocol {
        Protocol::Tcp | Protocol::Udp => proto_ipv4_checksum(
            seg,
            config.protocol.number(),
            f.src_ip,
            f.dst_ip,
        ),
        Protocol::Icmp => internet_checksum(seg),
        Protocol::Raw(_) => 0,
    }
}

/// The payload region of a datagram, after the IPv4 and transport headers,
/// holds exactly `data_len` copies of the fill byte.
pub proof fn lemma_payload_is_fill(c: &Config, f: PacketFields)
    ensures
        packet_spec(c, f).len() == total_len(c, f),
        packet_spec(c, f).subrange(
            IP_HEADER_SIZE + c.protocol.spec_header_len(),
            total_len(c, f) as int,
        ) == repeat_byte(c.fill, f.data_len as nat),
{
    let h = ipv4_header_spec(c, f, internet_checksum_spec(ipv4_header_spec(c, f, 0)));
    let t = transport_header_spec(c, f, transport_checksum_spec(c, f));
    let p = payload_spec(c, f);
    assert(h.len() == 20);
    assert(t.len() == c.protocol.spec_header_len());
    assert(packet_spec(c, f) == h + (t + p));
    assert(packet_spec(c, f).subrange((h.len() + t.len()) as int, total_len(c, f) as int) =~= p);
}

} // verus!
