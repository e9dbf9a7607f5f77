use rand::rngs::StdRng;
use rand::SeedableRng;

use rping::args::{random_data_size, random_ip, random_ip_at, random_port, random_port_at, ArgData, ArgIp, ArgPort};
use rping::error::ConstraintError;
use rping::ip::{Ip, Ipv4Network};
use rping::random::{public_ipv4_at, random_public_ipv4, PUBLIC_IPV4_COUNT};
use rping::range::Range;

fn ip(a: u8, b: u8, c: u8, d: u8) -> u32 {
    u32::from_be_bytes([a, b, c, d])
}

fn reserved(a: u32) -> bool {
    let private = (ip(10, 0, 0, 0)..=ip(10, 255, 255, 255)).contains(&a)
        || (ip(172, 16, 0, 0)..=ip(172, 31, 255, 255)).contains(&a)
        || (ip(192, 168, 0, 0)..=ip(192, 168, 255, 255)).contains(&a);
    let loopback = (ip(127, 0, 0, 0)..=ip(127, 255, 255, 255)).contains(&a);
    let link_local = (ip(169, 254, 0, 0)..=ip(169, 254, 255, 255)).contains(&a);
    private || loopback || link_local
}

#[test]
fn range_reads_single_value() {
    let r = Range::<u16>::from_str("80").unwrap();
    assert_eq!((r.start, r.end), (80, 80));
    let r = Range::<u16>::from_str("+7").unwrap();
    assert_eq!((r.start, r.end), (7, 7));
}

#[test]
fn range_reads_start_end() {
    let r = Range::<u16>::from_str("1000-2000").unwrap();
    assert_eq!((r.start, r.end), (1000, 2000));
    let r: Range<u32> = "70000-80000".parse().unwrap();
    assert_eq!((r.start, r.end), (70000, 80000));
}

#[test]
fn range_rejects_start_after_end() {
    assert_eq!(Range::<u16>::from_str("5-3").unwrap_err(), ConstraintError::StartAfterEnd);
    assert_eq!(ArgPort::from_str("2000-1000").unwrap_err(), ConstraintError::StartAfterEnd);
}

#[test]
fn range_rejects_bad_text() {
    assert_eq!(Range::<u16>::from_str("1-2-3").unwrap_err(), ConstraintError::InvalidRangeFormat);
    assert_eq!(Range::<u16>::from_str("a-3").unwrap_err(), ConstraintError::InvalidStart);
    assert_eq!(Range::<u16>::from_str("-3").unwrap_err(), ConstraintError::InvalidStart);
    assert_eq!(Range::<u16>::from_str("3-").unwrap_err(), ConstraintError::InvalidEnd);
    assert_eq!(Range::<u16>::from_str("1-70000").unwrap_err(), ConstraintError::InvalidEnd);
    assert_eq!(Range::<u16>::from_str("70000").unwrap_err(), ConstraintError::InvalidValue);
    assert_eq!(Range::<u16>::from_str("").unwrap_err(), ConstraintError::InvalidValue);
    assert_eq!(Range::<u32>::from_str("4294967296").unwrap_err(), ConstraintError::InvalidValue);
    let r = Range::<u32>::from_str("4294967295").unwrap();
    assert_eq!(r.end, u32::MAX);
}

#[test]
fn port_and_data_parse() {
    assert_eq!(ArgPort::from_str("443").unwrap(), ArgPort::Single(443));
    assert_eq!(ArgPort::from_str("1000-2000").unwrap(), ArgPort::Range(Range::new(1000, 2000)));
    assert_eq!(ArgPort::from_str("http").unwrap_err(), ConstraintError::InvalidPort);
    assert!(matches!(ArgData::from_str("100").unwrap(), ArgData::Single(100)));
    assert!(matches!(ArgData::from_str("200-300").unwrap(), ArgData::Range(r) if r.start == 200 && r.end == 300));
    assert_eq!(ArgData::from_str("big").unwrap_err(), ConstraintError::InvalidDataSize);
}

#[test]
fn address_and_network_parse() {
    assert_eq!(ArgIp::from_str("10.0.1.15").unwrap(), ArgIp::Address(ip(10, 0, 1, 15)));
    assert_eq!(
        ArgIp::from_str("10.0.0.0/8").unwrap(),
        ArgIp::Network(Ipv4Network { addr: ip(10, 0, 0, 0), prefix_len: 8 })
    );
    assert_eq!(ArgIp::from_str("10.0.0.0/33").unwrap_err(), ConstraintError::InvalidNetwork);
    assert_eq!(ArgIp::from_str("10.0.0").unwrap_err(), ConstraintError::InvalidAddress);
    let r: ArgIp = "192.168.1.7".parse().unwrap();
    assert_eq!(r, ArgIp::Address(ip(192, 168, 1, 7)));
}

#[test]
fn ip_constraint_spans_network() {
    let r = Ip::from_str("192.168.1.77/24").unwrap();
    assert_eq!((r.0.start, r.0.end), (ip(192, 168, 1, 0), ip(192, 168, 1, 255)));
    let r = Ip::from_str("10.0.1.15").unwrap();
    assert_eq!((r.0.start, r.0.end), (ip(10, 0, 1, 15), ip(10, 0, 1, 15)));
    assert_eq!(Ip::from_str("300.1.1.1").unwrap_err(), ConstraintError::InvalidNetwork);
}

#[test]
fn network_bounds() {
    let n = Ipv4Network { addr: ip(10, 1, 2, 3), prefix_len: 8 };
    assert_eq!(n.network(), ip(10, 0, 0, 0));
    assert_eq!(n.broadcast(), ip(10, 255, 255, 255));
    let n = Ipv4Network { addr: ip(10, 1, 2, 3), prefix_len: 0 };
    assert_eq!((n.network(), n.broadcast()), (0, u32::MAX));
    let n = Ipv4Network { addr: ip(10, 1, 2, 3), prefix_len: 32 };
    assert_eq!((n.network(), n.broadcast()), (ip(10, 1, 2, 3), ip(10, 1, 2, 3)));
}

#[test]
fn range_samples_stay_inside() {
    let mut rng = StdRng::seed_from_u64(1);
    let r = Range::<u16>::new(100, 200);
    let mut seen_low = false;
    let mut seen_high = false;
    for _ in 0..10_000 {
        let v = r.get_random_value(&mut rng);
        assert!((100..=200).contains(&v));
        seen_low |= v < 150;
        seen_high |= v > 150;
    }
    assert!(seen_low && seen_high);
    let r = Range::<u32>::new(70_000, 70_010);
    for _ in 0..10_000 {
        assert!((70_000..=70_010).contains(&r.get_random_value(&mut rng)));
    }
}

#[test]
fn single_always_returns_value() {
    let mut rng = StdRng::seed_from_u64(2);
    for _ in 0..1000 {
        assert_eq!(ArgPort::Single(443).get_random_value(&mut rng), 443);
        assert_eq!(ArgData::Single(5).get_random_value(&mut rng), 5);
        assert_eq!(Range::<u16>::new(7, 7).get_random_value(&mut rng), 7);
        assert_eq!(ArgIp::Address(ip(1, 2, 3, 4)).get_random_value(&mut rng), ip(1, 2, 3, 4));
    }
}

#[test]
fn port_set_mixes_singles_and_ranges() {
    let mut rng = StdRng::seed_from_u64(3);
    let set = vec![ArgPort::Single(80), ArgPort::Single(443), ArgPort::Range(Range::new(1000, 2000))];
    let mut seen = [false; 3];
    for _ in 0..3000 {
        let p = random_port(&mut rng, &set);
        match p {
            80 => seen[0] = true,
            443 => seen[1] = true,
            1000..=2000 => seen[2] = true,
            _ => panic!("port {} outside the set", p),
        }
    }
    assert!(seen.iter().all(|s| *s));
}

#[test]
fn data_size_defaults_to_zero() {
    let mut rng = StdRng::seed_from_u64(4);
    assert_eq!(random_data_size(&mut rng, &None), 0);
    let d = Some(ArgData::Range(Range::new(10, 20)));
    for _ in 0..100 {
        assert!((10..=20).contains(&random_data_size(&mut rng, &d)));
    }
}

#[test]
fn unconstrained_ip_is_public() {
    let mut rng = StdRng::seed_from_u64(5);
    let mut distinct = std::collections::HashSet::new();
    for _ in 0..10_000 {
        let a = random_public_ipv4(&mut rng);
        assert!(!reserved(a), "{:08x}", a);
        distinct.insert(a);
        let b = random_ip(&mut rng, &Vec::new());
        assert!(!reserved(b), "{:08x}", b);
    }
    assert!(distinct.len() > 9_000);
}

#[test]
fn explicit_private_network_is_honored() {
    let mut rng = StdRng::seed_from_u64(6);
    let set = vec![ArgIp::Network(Ipv4Network { addr: ip(192, 168, 0, 0), prefix_len: 16 })];
    for _ in 0..10_000 {
        let a = random_ip(&mut rng, &set);
        assert_eq!(a & 0xffff_0000, ip(192, 168, 0, 0));
    }
    let set = vec![ArgIp::Address(ip(10, 0, 0, 1))];
    assert_eq!(random_ip(&mut rng, &set), ip(10, 0, 0, 1));
}

#[test]
fn public_addresses_are_numbered_in_order() {
    assert_eq!(public_ipv4_at(0), 0);
    assert_eq!(public_ipv4_at(ip(10, 0, 0, 0) - 1), ip(9, 255, 255, 255));
    assert_eq!(public_ipv4_at(ip(10, 0, 0, 0)), ip(11, 0, 0, 0));
    assert_eq!(public_ipv4_at(PUBLIC_IPV4_COUNT - 1), u32::MAX);
    let mut last = public_ipv4_at(ip(100, 0, 0, 0));
    for k in ip(100, 0, 0, 0) + 1..ip(100, 0, 0, 0) + 1000 {
        let a = public_ipv4_at(k);
        assert!(a > last && !reserved(a));
        last = a;
    }
}

#[test]
fn indexed_entry_is_sampled() {
    let mut rng = StdRng::seed_from_u64(7);
    let ips = vec![ArgIp::Address(ip(1, 1, 1, 1)), ArgIp::Address(ip(2, 2, 2, 2))];
    assert_eq!(random_ip_at(&mut rng, &ips, 1), ip(2, 2, 2, 2));
    let ports = vec![ArgPort::Single(80), ArgPort::Range(Range::new(1000, 1010))];
    for _ in 0..100 {
        assert!((1000..=1010).contains(&random_port_at(&mut rng, &ports, 1)));
    }
    assert_eq!(random_port_at(&mut rng, &ports, 0), 80);
}
