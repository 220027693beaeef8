use pairing_core::host::{pick_host, NetInterface};

fn ifaces(list: &[(&str, &str)]) -> Vec<NetInterface> {
    list.iter()
        .map(|(name, addr)| NetInterface { name: name.to_string(), addr: addr.to_string() })
        .collect()
}

#[test]
fn prefers_en_interfaces() {
    let cands = ifaces(&[
        ("lo0", "127.0.0.1"),
        ("awdl0", "10.0.0.9"),
        ("utun1", "10.0.0.3"),
        ("eth0", "192.168.1.7"),
        ("en0", "192.168.1.5"),
    ]);
    assert_eq!(pick_host(&cands), Some("192.168.1.5".to_string()));
}

#[test]
fn wired_beats_wireless_and_unknown() {
    let cands = ifaces(&[("wlp2s0", "10.0.0.2"), ("tailscale0", "100.64.0.1"), ("eth1", "10.0.0.8")]);
    assert_eq!(pick_host(&cands), Some("10.0.0.8".to_string()));
}

#[test]
fn first_listed_breaks_score_ties() {
    let cands = ifaces(&[("en1", "10.0.0.1"), ("en0", "10.0.0.2")]);
    assert_eq!(pick_host(&cands), Some("10.0.0.1".to_string()));
}

#[test]
fn loopback_and_link_local_are_excluded() {
    assert_eq!(pick_host(&ifaces(&[("eth0", "127.0.0.2")])), None);
    assert_eq!(pick_host(&ifaces(&[("eth0", "169.254.10.20")])), None);
}

#[test]
fn ipv6_addresses_are_excluded() {
    assert_eq!(pick_host(&ifaces(&[("eth0", "fe80::1")])), None);
    assert_eq!(pick_host(&ifaces(&[("en0", "::1")])), None);
}

#[test]
fn virtual_interfaces_are_excluded() {
    let cands = ifaces(&[
        ("awdl0", "10.0.0.1"),
        ("llw0", "10.0.0.2"),
        ("utun3", "10.0.0.3"),
        ("vmbridge1", "10.0.0.4"),
        ("BRIDGE9", "10.0.0.5"),
    ]);
    assert_eq!(pick_host(&cands), None);
}

#[test]
fn interface_names_fold_case() {
    let cands = ifaces(&[("ETH0", "10.0.0.7"), ("other0", "10.0.0.9")]);
    assert_eq!(pick_host(&cands), Some("10.0.0.7".to_string()));
}

#[test]
fn empty_candidate_list_yields_none() {
    assert_eq!(pick_host(&Vec::new()), None);
}
