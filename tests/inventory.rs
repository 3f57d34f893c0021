use nicman::inventory::{
    add_ip_addresses, detect_interface_kind, extract_ipv4_address, extract_ipv6_address,
    get_default_gateway, get_default_route_interface, get_dns_servers, interface_from_link,
    ipv4_config_from, netmask_to_prefix, parse_address_listing, parse_dns_list, parse_interface_from_link, parse_link_listing,
    prefix_to_netmask, KindMarkers,
};
use nicman::model::{InterfaceKind, InterfaceState, NetInterface};

fn markers() -> KindMarkers {
    KindMarkers::absent()
}

#[test]
fn test_detect_interface_kind() {
    assert_eq!(detect_interface_kind("lo", &markers()), InterfaceKind::Loopback);
    assert_eq!(detect_interface_kind("docker0", &markers()), InterfaceKind::Docker);
    assert_eq!(detect_interface_kind("veth1234", &markers()), InterfaceKind::Veth);
    assert_eq!(detect_interface_kind("eth0.10", &markers()), InterfaceKind::Vlan);
}

#[test]
fn test_extract_ipv4_address() {
    let line = "2: eth0    inet 192.168.1.100/24 brd 192.168.1.255 scope global eth0";
    assert_eq!(extract_ipv4_address(line), Some("192.168.1.100/24".to_string()));
}

#[test]
fn docker_bridge_rule_wins_over_vlan_rule() {
    assert_eq!(detect_interface_kind("br-0.1", &markers()), InterfaceKind::Docker);
    let mut m = markers();
    m.has_bridge = true;
    assert_eq!(detect_interface_kind("br-0.1", &m), InterfaceKind::Docker);
    assert_eq!(detect_interface_kind("br-abc", &markers()), InterfaceKind::Docker);
}

#[test]
fn wireguard_needs_its_uevent() {
    assert_eq!(detect_interface_kind("wg0", &markers()), InterfaceKind::Unknown);
    let mut m = markers();
    m.uevent = Some("DEVTYPE=wireguard\nINTERFACE=wg0\n".to_string());
    assert_eq!(detect_interface_kind("wg0", &m), InterfaceKind::WireGuard);
    // a dotted WireGuard name still goes by the earlier WireGuard rule
    assert_eq!(detect_interface_kind("wg0.5", &m), InterfaceKind::WireGuard);
}

#[test]
fn bridge_marker_and_tun_flags() {
    let mut m = markers();
    m.has_bridge = true;
    assert_eq!(detect_interface_kind("virbr0", &m), InterfaceKind::Bridge);

    let mut m = markers();
    m.tun_flags = Some("0x1\n".to_string());
    assert_eq!(detect_interface_kind("myvpn", &m), InterfaceKind::Tun);
    m.tun_flags = Some("2".to_string());
    assert_eq!(detect_interface_kind("myvpn", &m), InterfaceKind::Tap);
    // an unknown flag value falls through to the name rules
    m.tun_flags = Some("0x1002".to_string());
    assert_eq!(detect_interface_kind("tap3", &m), InterfaceKind::Tap);
    assert_eq!(detect_interface_kind("tun0", &markers()), InterfaceKind::Tun);
    assert_eq!(detect_interface_kind("tap0", &markers()), InterfaceKind::Tap);
}

#[test]
fn physical_needs_type_one_and_device() {
    let mut m = markers();
    m.device_type = Some("1\n".to_string());
    assert_eq!(detect_interface_kind("enp4s0", &m), InterfaceKind::Unknown);
    m.has_device = true;
    assert_eq!(detect_interface_kind("enp4s0", &m), InterfaceKind::Physical);
    m.device_type = Some("772\n".to_string());
    assert_eq!(detect_interface_kind("enp4s0", &m), InterfaceKind::Unknown);
}

#[test]
fn netmask_of_prefixes() {
    assert_eq!(prefix_to_netmask(24), "255.255.255.0");
    assert_eq!(prefix_to_netmask(0), "0.0.0.0");
    assert_eq!(prefix_to_netmask(32), "255.255.255.255");
    assert_eq!(prefix_to_netmask(33), "255.255.255.255");
    assert_eq!(prefix_to_netmask(20), "255.255.240.0");
    assert_eq!(prefix_to_netmask(1), "128.0.0.0");
    assert_eq!(prefix_to_netmask(255), "255.255.255.255");
}

#[test]
fn link_line_fields() {
    let line = "2: eth0: <BROADCAST,MULTICAST,UP,LOWER_UP> mtu 1500 qdisc fq_codel state UP mode DEFAULT group default qlen 1000\\    link/ether 52:54:00:12:34:56 brd ff:ff:ff:ff:ff:ff";
    let rec = parse_interface_from_link(line).expect("a link line");
    assert_eq!(rec.name, "eth0");
    assert_eq!(rec.flags, "BROADCAST,MULTICAST,UP,LOWER_UP");
    assert_eq!(rec.mtu, 1500);
    assert_eq!(rec.mac_address, Some("52:54:00:12:34:56".to_string()));
}

#[test]
fn link_line_with_peer_and_down() {
    let line = "7: veth1a2b@if6: <BROADCAST,MULTICAST> mtu 1450 qdisc noqueue state DOWN";
    let rec = parse_interface_from_link(line).expect("a link line");
    assert_eq!(rec.name, "veth1a2b");
    assert_eq!(rec.mtu, 1450);
    assert_eq!(rec.mac_address, None);
    let iface = interface_from_link(rec, &markers());
    assert_eq!(iface.kind, InterfaceKind::Veth);
    assert_eq!(iface.state, InterfaceState::Down);
}

#[test]
fn malformed_link_lines_are_skipped() {
    assert!(parse_interface_from_link("").is_none());
    assert!(parse_interface_from_link("eth0: <UP> mtu 1500").is_none());
    assert!(parse_interface_from_link("2: eth0: <UP> qdisc noqueue").is_none());
    assert!(parse_interface_from_link("2: eth0: <UP> mtu 99999999999").is_none());
    let text = "1: lo: <LOOPBACK,UP,LOWER_UP> mtu 65536 qdisc noqueue\nnot a link\n3: wg0: <POINTOPOINT,NOARP,UP,LOWER_UP> mtu 1420 qdisc noqueue\n";
    let links = parse_link_listing(text);
    assert_eq!(links.len(), 2);
    assert_eq!(links[0].name, "lo");
    assert_eq!(links[0].mtu, 65536);
    assert_eq!(links[1].name, "wg0");
    assert_eq!(links[1].mtu, 1420);
}

#[test]
fn link_state_up_from_flags() {
    let rec = parse_interface_from_link("1: lo: <LOOPBACK,UP,LOWER_UP> mtu 65536 qdisc noqueue").unwrap();
    let iface = interface_from_link(rec, &markers());
    assert_eq!(iface.kind, InterfaceKind::Loopback);
    assert_eq!(iface.state, InterfaceState::Up);
    assert_eq!(iface.mtu, 65536);
}

#[test]
fn address_listing_splits_families() {
    let text = "2: eth0    inet 192.168.1.100/24 brd 192.168.1.255 scope global eth0\\       valid_lft forever\n2: eth0    inet 10.0.0.5/8 scope global secondary eth0\n2: eth0    inet6 fe80::5054:ff:fe12:3456/64 scope link \\       valid_lft forever\n";
    let found = parse_address_listing(text);
    assert_eq!(found.ipv4, vec!["192.168.1.100/24".to_string(), "10.0.0.5/8".to_string()]);
    assert_eq!(found.ipv6, vec!["fe80::5054:ff:fe12:3456/64".to_string()]);
    assert_eq!(
        extract_ipv6_address("2: eth0    inet6 fe80::1/64 scope link"),
        Some("fe80::1/64".to_string())
    );
    assert_eq!(extract_ipv4_address("no address here"), None);
}

#[test]
fn ipv4_config_from_first_address() {
    let mut iface = NetInterface::new("eth0".to_string(), InterfaceKind::Physical);
    let listing = "2: eth0    inet 192.168.1.100/24 brd 192.168.1.255 scope global eth0\n2: eth0    inet 10.0.0.5/8 scope global eth0\n";
    let route = "default via 192.168.1.1 dev eth0 proto static\n";
    let dns = vec!["223.5.5.5".to_string(), "8.8.8.8".to_string()];
    add_ip_addresses(&mut iface, Some(listing), Some(route), &dns);
    assert_eq!(iface.ipv4_addresses.len(), 2);
    let cfg = iface.ipv4_config.clone().expect("a configuration");
    assert_eq!(cfg.address, "192.168.1.100");
    assert_eq!(cfg.prefix, 24);
    assert_eq!(cfg.netmask, "255.255.255.0");
    assert_eq!(cfg.gateway, Some("192.168.1.1".to_string()));
    assert_eq!(iface.dns_config.clone().unwrap().nameservers, dns);
}

#[test]
fn missing_probes_leave_fields_empty() {
    let mut iface = NetInterface::new("dummy0".to_string(), InterfaceKind::Unknown);
    add_ip_addresses(&mut iface, None, None, &Vec::new());
    assert!(iface.ipv4_addresses.is_empty());
    assert!(iface.ipv4_config.is_none());
    assert!(iface.dns_config.is_none());
    let cfg = ipv4_config_from(&"10.1.2.3/16".to_string(), None).unwrap();
    assert_eq!(cfg.netmask, "255.255.0.0");
    assert_eq!(cfg.gateway, None);
    assert!(ipv4_config_from(&"10.1.2.3/300".to_string(), None).is_none());
}

#[test]
fn route_and_resolver_outputs() {
    assert_eq!(
        get_default_gateway("default via 192.168.1.1 dev enp4s0 proto static"),
        Some("192.168.1.1".to_string())
    );
    assert_eq!(get_default_gateway(""), None);
    assert_eq!(
        get_default_route_interface("default via 192.168.1.1 dev eth0 proto dhcp metric 100\n"),
        Some("eth0".to_string())
    );
    assert_eq!(get_default_route_interface(""), None);
    let resolv = "# generated\nnameserver 127.0.0.53\noptions edns0\nnameserver 8.8.4.4\r\n";
    assert_eq!(get_dns_servers(resolv), vec!["127.0.0.53".to_string(), "8.8.4.4".to_string()]);
    assert!(get_dns_servers("").is_empty());
}

#[test]
fn netmask_to_prefix_lengths() {
    assert_eq!(netmask_to_prefix("255.255.255.0"), Some(24));
    assert_eq!(netmask_to_prefix("255.255.240.0"), Some(20));
    assert_eq!(netmask_to_prefix("0.0.0.0"), Some(0));
    assert_eq!(netmask_to_prefix("255.255.255.255"), Some(32));
    assert_eq!(netmask_to_prefix("255.255.255"), None);
    assert_eq!(netmask_to_prefix("255.255.256.0"), None);
    assert_eq!(netmask_to_prefix("255.x.255.0"), None);
    assert_eq!(netmask_to_prefix("255.255.255.0.0"), None);
}

#[test]
fn dns_list_entries() {
    assert_eq!(
        parse_dns_list("223.5.5.5, 114.114.114.114,,  "),
        vec!["223.5.5.5".to_string(), "114.114.114.114".to_string()]
    );
    assert!(parse_dns_list("").is_empty());
}

#[test]
fn mac_address_of_link_line() {
    assert_eq!(
        nicman::inventory::extract_mac_address("2: eth0: <UP> mtu 1500\\    link/ether aa:bb:cc:dd:ee:ff brd ff:ff:ff:ff:ff:ff"),
        Some("aa:bb:cc:dd:ee:ff".to_string())
    );
    assert_eq!(nicman::inventory::extract_mac_address("1: lo: <LOOPBACK> mtu 65536 link/loopback 00:00:00:00:00:00"), None);
    assert_eq!(nicman::inventory::extract_mac_address("link/ether aa:bb"), None);
}
