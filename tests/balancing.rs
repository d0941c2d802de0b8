use faucet::error::FaucetError;
use faucet::ip_extractor::IpExtractor;
use faucet::ip_hash::{hash_ip, IpHash};
use faucet::load_balancing::{LoadBalancer, Strategy};
use faucet::net::{loopback, IpAddress, SocketAddress};
use faucet::round_robin::RoundRobin;

fn targets(n: u16) -> Vec<SocketAddress> {
    (0..n).map(|i| loopback(9000 + i)).collect()
}

fn v4(a: u8, b: u8, c: u8, d: u8) -> IpAddress {
    IpAddress::V4(u32::from_be_bytes([a, b, c, d]))
}

#[test]
fn strategy_tokens() {
    assert_eq!(Strategy::from_str("round_robin"), Ok(Strategy::RoundRobin));
    assert_eq!(Strategy::from_str("ip_hash"), Ok(Strategy::IpHash));
    assert_eq!(Strategy::from_str("Round_Robin"), Err(FaucetError::UnknownStrategy));
    assert_eq!(Strategy::from_str(""), Err(FaucetError::UnknownStrategy));
}

#[test]
fn bogus_strategy_is_a_configuration_error() {
    assert_eq!(Strategy::from_str("bogus"), Err(FaucetError::UnknownStrategy));
}

#[test]
fn round_robin_cycles_through_targets() {
    let t = targets(3);
    let mut lb = LoadBalancer::new(Strategy::RoundRobin, IpExtractor::ClientAddr, &t).unwrap();
    let ips = [v4(1, 2, 3, 4), v4(9, 9, 9, 9), v4(1, 2, 3, 4), v4(8, 8, 8, 8), v4(7, 7, 7, 7), v4(1, 1, 1, 1)];
    let picked: Vec<SocketAddress> = ips.iter().map(|ip| lb.get_client(*ip)).collect();
    let expected: Vec<SocketAddress> = [0usize, 1, 2, 0, 1, 2].iter().map(|i| t[*i]).collect();
    assert_eq!(picked, expected);
}

#[test]
fn round_robin_index_is_call_number_mod_k() {
    let t = targets(4);
    let mut rr = RoundRobin::new(&t).unwrap();
    for i in 0..11usize {
        assert_eq!(rr.entry(v4(10, 0, 0, (i % 3) as u8)), t[i % 4]);
    }
}

#[test]
fn round_robin_single_target() {
    let t = targets(1);
    let mut rr = RoundRobin::new(&t).unwrap();
    for _ in 0..5 {
        assert_eq!(rr.entry(v4(1, 2, 3, 4)), t[0]);
    }
}

#[test]
fn empty_target_list_is_refused() {
    assert_eq!(RoundRobin::new(&[]).err(), Some(FaucetError::NoTargets));
    assert_eq!(IpHash::new(&[]).err(), Some(FaucetError::NoTargets));
    for s in [Strategy::RoundRobin, Strategy::IpHash] {
        assert_eq!(LoadBalancer::new(s, IpExtractor::ClientAddr, &[]).err(), Some(FaucetError::NoTargets));
    }
}

#[test]
fn hash_values_are_fnv1a_over_octets() {
    assert_eq!(hash_ip(v4(127, 0, 0, 1)), 0x6c0b_1539_76ee_1fad);
    assert_eq!(hash_ip(IpAddress::V6(1)), 0x8820_1eb9_60ff_62b2);
}

#[test]
fn ip_hash_is_sticky() {
    let t = targets(3);
    let h = IpHash::new(&t).unwrap();
    let ip = v4(127, 0, 0, 1);
    let first = h.entry(ip);
    assert_eq!(first, t[1]);
    for _ in 0..10 {
        assert_eq!(h.entry(ip), first);
    }
}

#[test]
fn ip_hash_ignores_call_order() {
    let t = targets(5);
    let a = IpHash::new(&t).unwrap();
    let b = IpHash::new(&t).unwrap();
    let ips = [v4(10, 0, 0, 1), v4(10, 0, 0, 2), v4(192, 168, 1, 20), IpAddress::V6(42)];
    let forward: Vec<SocketAddress> = ips.iter().map(|ip| a.entry(*ip)).collect();
    let backward: Vec<SocketAddress> = ips.iter().rev().map(|ip| b.entry(*ip)).collect();
    for i in 0..ips.len() {
        assert_eq!(forward[i], backward[ips.len() - 1 - i]);
    }
}

#[test]
fn ip_hash_through_balancer() {
    let t = targets(3);
    let mut lb = LoadBalancer::new(Strategy::IpHash, IpExtractor::ClientAddr, &t).unwrap();
    let ip = v4(127, 0, 0, 1);
    assert_eq!(lb.get_client(ip), t[1]);
    assert_eq!(lb.get_client(v4(1, 1, 1, 1)), lb.get_client(v4(1, 1, 1, 1)));
    assert_eq!(lb.get_client(ip), t[1]);
}

#[test]
fn non_empty_target_list_is_accepted() {
    let t = targets(2);
    assert!(RoundRobin::new(&t).is_ok());
    assert!(IpHash::new(&t).is_ok());
    for s in [Strategy::RoundRobin, Strategy::IpHash] {
        assert!(LoadBalancer::new(s, IpExtractor::XForwardedFor, &t).is_ok());
    }
}
