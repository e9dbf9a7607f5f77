use rand::rngs::StdRng;
use rand::SeedableRng;

use rping::args::{ArgData, ArgIp, ArgPort};
use rping::checksum::{internet_checksum, tcp_ipv4_checksum, udp_ipv4_checksum};
use rping::config::{select_pacing, select_protocol, Config, Pacing, Protocol, TcpFlagSet, DEFAULT_FILL};
use rping::error::ConfigError;
use rping::ip::Ipv4Network;
use rping::packet::{build_ipv4_packet, sample_fields, PacketFields};
use rping::range::Range;

fn no_flags() -> TcpFlagSet {
    TcpFlagSet { fin: false, syn: false, rst: false, psh: false, ack: false, urg: false, xmas: false, ymas: false }
}

fn config(protocol: Protocol) -> Config {
    Config {
        protocol,
        src_ip: Vec::new(),
        dst_ip: Vec::new(),
        src_port: Vec::new(),
        dst_port: Vec::new(),
        data: None,
        ttl: 64,
        id: None,
        flags: no_flags(),
        window: 64,
        seq: None,
        ack_seq: None,
        icmp_type: 8,
        icmp_code: 0,
        fill: DEFAULT_FILL,
        pacing: Pacing::Flood,
        count: None,
        duration_ns: None,
    }
}

fn fields(data_len: u16) -> PacketFields {
    PacketFields {
        src_ip: u32::from_be_bytes([192, 168, 0, 1]),
        dst_ip: u32::from_be_bytes([192, 168, 0, 199]),
        src_port: 1234,
        dst_port: 80,
        data_len,
        id: 0x1c46,
        seq: 1,
        ack: 0,
    }
}

fn rfc1071(bytes: &[u8]) -> u16 {
    let mut sum: u32 = 0;
    for chunk in bytes.chunks(2) {
        let word = if chunk.len() == 2 { u16::from_be_bytes([chunk[0], chunk[1]]) } else { u16::from_be_bytes([chunk[0], 0]) };
        sum += word as u32;
    }
    while sum > 0xffff {
        sum = (sum & 0xffff) + (sum >> 16);
    }
    !(sum as u16)
}

fn tcp_segment(payload: &[u8]) -> Vec<u8> {
    let mut seg = vec![0x04, 0xd2, 0x00, 0x50, 0, 0, 0, 1, 0, 0, 0, 0, 0x50, 0x02, 0x00, 0x40, 0, 0, 0, 0];
    seg.extend_from_slice(payload);
    seg
}

#[test]
fn tcp_checksum_matches_hand_computed_value() {
    let seg = tcp_segment(b"hi");
    let src = u32::from_be_bytes([192, 168, 0, 1]);
    let dst = u32::from_be_bytes([192, 168, 0, 199]);
    assert_eq!(tcp_ipv4_checksum(&seg, src, dst), 0xbffb);
    let mut corrupted = seg.clone();
    corrupted[21] = b'j';
    assert_eq!(tcp_ipv4_checksum(&corrupted, src, dst), 0xbffa);
    assert_ne!(tcp_ipv4_checksum(&corrupted, src, dst), tcp_ipv4_checksum(&seg, src, dst));
}

#[test]
fn udp_checksum_matches_hand_computed_value() {
    let seg = vec![0x30, 0x39, 0x00, 0x35, 0x00, 0x0a, 0, 0, b'a', b'b'];
    let src = u32::from_be_bytes([192, 168, 0, 1]);
    let dst = u32::from_be_bytes([192, 168, 0, 199]);
    assert_eq!(udp_ipv4_checksum(&seg, src, dst), 0xebf0);
}

#[test]
fn ipv4_header_checksum_known_vector() {
    let mut c = config(Protocol::Raw(17));
    c.ttl = 64;
    let f = PacketFields { data_len: 0x73 - 20, id: 0, ..fields(0) };
    let f = PacketFields { dst_ip: u32::from_be_bytes([192, 168, 0, 199]), ..f };
    let mut buf = Vec::new();
    let len = build_ipv4_packet(&c, &f, &mut buf);
    assert_eq!(len, 0x73);
    assert_eq!(&buf[..10], &[0x45, 0x00, 0x00, 0x73, 0x00, 0x00, 0x00, 0x00, 0x40, 0x11]);
    // The standard example header also sets the don't-fragment bit (0x4000),
    // which this header leaves clear: its checksum is larger by 0x4000.
    assert_eq!(u16::from_be_bytes([buf[10], buf[11]]), 0xb861 + 0x4000);
    assert_eq!(rfc1071(&buf[..20]), 0);
}

#[test]
fn tcp_packet_layout() {
    let mut c = config(Protocol::Tcp);
    c.flags.syn = true;
    let f = fields(2);
    c.fill = b'h';
    let mut buf = Vec::new();
    let len = build_ipv4_packet(&c, &f, &mut buf);
    assert_eq!(len, 42);
    assert_eq!(buf.len(), 42);
    assert_eq!(&buf[0..4], &[0x45, 0, 0, 42]);
    assert_eq!(&buf[4..6], &[0x1c, 0x46]);
    assert_eq!(&buf[8..10], &[64, 6]);
    assert_eq!(&buf[12..16], &[192, 168, 0, 1]);
    assert_eq!(&buf[16..20], &[192, 168, 0, 199]);
    assert_eq!(rfc1071(&buf[..20]), 0);
    let mut expected = tcp_segment(b"hh");
    let cs = tcp_ipv4_checksum(&expected, f.src_ip, f.dst_ip);
    expected[16..18].copy_from_slice(&cs.to_be_bytes());
    assert_eq!(&buf[20..], &expected[..]);
}

#[test]
fn udp_packet_layout() {
    let c = config(Protocol::Udp);
    let f = fields(3);
    let mut buf = Vec::new();
    let len = build_ipv4_packet(&c, &f, &mut buf);
    assert_eq!(len, 31);
    assert_eq!(buf[9], 17);
    assert_eq!(&buf[20..26], &[0x04, 0xd2, 0x00, 0x50, 0x00, 11]);
    assert_eq!(&buf[28..], b"XXX");
    let mut seg = buf[20..].to_vec();
    seg[6] = 0;
    seg[7] = 0;
    assert_eq!(u16::from_be_bytes([buf[26], buf[27]]), udp_ipv4_checksum(&seg, f.src_ip, f.dst_ip));
}

#[test]
fn icmp_packet_layout() {
    let c = config(Protocol::Icmp);
    let f = fields(4);
    let mut buf = Vec::new();
    let len = build_ipv4_packet(&c, &f, &mut buf);
    assert_eq!(len, 32);
    assert_eq!(buf[9], 1);
    assert_eq!(&buf[20..22], &[8, 0]);
    assert_eq!(u16::from_be_bytes([buf[22], buf[23]]), 0x474f);
    assert_eq!(&buf[24..28], &[0, 0, 0, 0]);
    assert_eq!(rfc1071(&buf[20..]), 0);
}

#[test]
fn raw_packet_has_only_ip_header() {
    let c = config(Protocol::Raw(47));
    let f = fields(5);
    let mut buf = vec![1, 2, 3];
    let len = build_ipv4_packet(&c, &f, &mut buf);
    assert_eq!(len, 25);
    assert_eq!(buf[9], 47);
    assert_eq!(&buf[20..], b"XXXXX");
}

#[test]
fn payload_is_filled_with_fill_byte() {
    let mut c = config(Protocol::Tcp);
    c.data = Some(ArgData::Single(100));
    c.fill = b'A';
    let mut rng = StdRng::seed_from_u64(9);
    let f = sample_fields(&c, &mut rng);
    assert_eq!(f.data_len, 100);
    let mut buf = Vec::new();
    let len = build_ipv4_packet(&c, &f, &mut buf);
    assert_eq!(len, 140);
    assert_eq!(buf[40..].len(), 100);
    assert!(buf[40..].iter().all(|b| *b == b'A'));
}

#[test]
fn composite_flags() {
    let mut f = no_flags();
    f.xmas = true;
    assert_eq!(f.bits(), 0x01 | 0x08 | 0x20);
    let mut f = no_flags();
    f.ymas = true;
    assert_eq!(f.bits(), 0x01 | 0x08 | 0x20 | 0x10);
    let mut f = no_flags();
    f.xmas = true;
    f.syn = true;
    assert_eq!(f.bits(), 0x2b);
    assert_eq!(no_flags().bits(), 0);
}

#[test]
fn fixed_fields_are_kept() {
    let mut c = config(Protocol::Tcp);
    c.id = Some(7);
    c.seq = Some(0x9037d2b8);
    c.ack_seq = Some(0x944bb276);
    c.src_port = vec![ArgPort::Single(53)];
    c.dst_ip = vec![ArgIp::Network(Ipv4Network { addr: u32::from_be_bytes([10, 0, 0, 0]), prefix_len: 8 })];
    let mut rng = StdRng::seed_from_u64(10);
    for _ in 0..100 {
        let f = sample_fields(&c, &mut rng);
        assert_eq!((f.id, f.seq, f.ack, f.src_port), (7, 0x9037d2b8, 0x944bb276, 53));
        assert_eq!(f.dst_ip >> 24, 10);
        assert_eq!(f.data_len, 0);
    }
}

#[test]
fn protocol_selection() {
    assert_eq!(select_protocol(true, false, false, false, None), Ok(Protocol::Tcp));
    assert_eq!(select_protocol(false, true, false, false, None), Ok(Protocol::Udp));
    assert_eq!(select_protocol(false, false, true, false, None), Ok(Protocol::Icmp));
    assert_eq!(select_protocol(false, false, false, true, Some(47)), Ok(Protocol::Raw(47)));
    assert_eq!(select_protocol(false, false, false, false, Some(47)), Ok(Protocol::Raw(47)));
    assert_eq!(select_protocol(false, false, false, true, None), Err(ConfigError::MissingProtocolNumber));
    assert_eq!(select_protocol(false, false, false, false, None), Err(ConfigError::NoProtocol));
    assert_eq!(select_protocol(true, true, false, false, None), Err(ConfigError::ConflictingProtocols));
}

#[test]
fn pacing_selection() {
    assert_eq!(select_pacing(true, None), Ok(Pacing::Flood));
    assert_eq!(select_pacing(false, Some(50)), Ok(Pacing::Interval(50)));
    assert_eq!(select_pacing(false, None), Ok(Pacing::Interval(100_000_000)));
    assert_eq!(select_pacing(true, Some(50)), Err(ConfigError::FloodWithInterval));
}

#[test]
fn config_validation() {
    let mut c = config(Protocol::Tcp);
    assert_eq!(c.validate(), Ok(()));
    c.data = Some(ArgData::Single(65495));
    assert_eq!(c.validate(), Ok(()));
    c.data = Some(ArgData::Single(65496));
    assert_eq!(c.validate(), Err(ConfigError::PayloadTooLarge));
    c.protocol = Protocol::Raw(6);
    assert_eq!(c.validate(), Ok(()));
    c.src_port = vec![ArgPort::Range(Range::new(9, 3))];
    assert_eq!(c.validate(), Err(ConfigError::MalformedConstraint));
    let mut c = config(Protocol::Udp);
    c.dst_ip = vec![ArgIp::Network(Ipv4Network { addr: 0, prefix_len: 40 })];
    assert_eq!(c.validate(), Err(ConfigError::MalformedConstraint));
}

#[test]
fn checksum_carries_across_long_input() {
    let mut v = vec![0xffu8; 16];
    v.push(0x01);
    v.extend_from_slice(&[0u8; 15]);
    v.extend_from_slice(&[0xffu8; 16]);
    v.extend_from_slice(&[0u8; 16]);
    assert_eq!(internet_checksum(&v), 0xfeff);
    assert_eq!(internet_checksum(&v), rfc1071(&v));
    let mut long: Vec<u8> = (0..=255u8).cycle().take(768).collect();
    long.push(7);
    assert_eq!(internet_checksum(&long), 0xb840);
    assert_eq!(internet_checksum(&[]), 0xffff);
}

#[test]
fn tcp_checksum_of_long_segment() {
    let seg = vec![0xffu8; 52];
    assert_eq!(tcp_ipv4_checksum(&seg, u32::MAX, u32::MAX), 0xffc5);
}
