use vm_autoscaler::netif::{find_ipv4, IpAddress, NetInterface, IPV4_KIND};

fn iface(name: &str, addrs: Vec<IpAddress>) -> NetInterface {
    NetInterface { name: name.to_string(), addrs }
}

fn addr(kind: i64, text: &str) -> IpAddress {
    IpAddress { kind, addr: text.to_string() }
}

#[test]
fn picks_first_ipv4_of_the_named_interface() {
    let interfaces = vec![
        iface("lo", vec![addr(IPV4_KIND, "127.0.0.1")]),
        iface("enp8s0", vec![addr(1, "fe80::1"), addr(IPV4_KIND, "192.168.1.10"),
            addr(IPV4_KIND, "192.168.1.11")]),
    ];
    let target = String::from("enp8s0");
    assert_eq!(find_ipv4(&interfaces, &target), Some(String::from("192.168.1.10")));
}

#[test]
fn skips_a_matching_interface_without_ipv4() {
    let interfaces = vec![
        iface("enp8s0", vec![addr(1, "fe80::1")]),
        iface("enp8s0", vec![addr(IPV4_KIND, "10.0.0.2")]),
    ];
    let target = String::from("enp8s0");
    assert_eq!(find_ipv4(&interfaces, &target), Some(String::from("10.0.0.2")));
}

#[test]
fn absent_interface_resolves_to_nothing() {
    let interfaces = vec![iface("lo", vec![addr(IPV4_KIND, "127.0.0.1")])];
    let target = String::from("enp8s0");
    assert_eq!(find_ipv4(&interfaces, &target), None);
    assert_eq!(find_ipv4(&Vec::new(), &target), None);
}
