use fileshare::network::{
    host_name, interface_display_names, interface_priority, is_shareable_ipv4, ipv4_string, lan_ipv4_addresses,
    macos_interface_display_names, system_host_name, NetInterface,
};

#[test]
fn filters_windows_virtual_adapters() {
    for name in [
        "vEthernet (Default Switch)",
        "vEthernet (WSL)",
        "DockerNAT",
        "VirtualBox Host-Only Network",
        "Hyper-V Virtual Ethernet Adapter",
    ] {
        assert_eq!(interface_priority(name, None), Some(10), "{name}");
    }
    assert_eq!(interface_priority("Wi-Fi", None), Some(100));
    assert_eq!(interface_priority("Ethernet", None), Some(100));
    assert_eq!(interface_priority("en0", Some("以太网")), Some(100));
}

#[test]
fn excluded_and_plain_interfaces() {
    assert_eq!(interface_priority("lo", None), None);
    assert_eq!(interface_priority("utun3", None), None);
    assert_eq!(interface_priority("LOOPBACK", None), None);
    assert_eq!(interface_priority("en0", None), Some(50));
    assert_eq!(interface_priority("en0", Some("Wi-Fi")), Some(100));
    assert_eq!(interface_priority("en5", Some("Thunderbolt Bridge")), Some(10));
}

#[test]
fn shareable_addresses() {
    assert!(!is_shareable_ipv4([127, 0, 0, 1]));
    assert!(!is_shareable_ipv4([169, 254, 3, 4]));
    assert!(!is_shareable_ipv4([0, 0, 0, 0]));
    assert!(is_shareable_ipv4([192, 168, 1, 20]));
    assert!(is_shareable_ipv4([169, 1, 1, 1]));
    assert_eq!(ipv4_string([192, 168, 10, 7]), "192.168.10.7");
    assert_eq!(ipv4_string([0, 0, 0, 255]), "0.0.0.255");
}

fn iface(name: &str, ip: Option<[u8; 4]>) -> NetInterface {
    NetInterface { name: name.to_string(), ipv4: ip }
}

#[test]
fn physical_addresses_win_and_are_sorted() {
    let interfaces = vec![
        iface("vEthernet (WSL)", Some([172, 20, 0, 1])),
        iface("Wi-Fi", Some([192, 168, 1, 9])),
        iface("Ethernet", Some([10, 0, 0, 5])),
        iface("Ethernet 2", Some([10, 0, 0, 5])),
        iface("lo", Some([127, 0, 0, 1])),
        iface("Ethernet", None),
    ];
    let addresses = lan_ipv4_addresses(&interfaces, &Vec::new(), Some([1, 2, 3, 4]));
    let ips: Vec<&str> = addresses.iter().map(|a| a.ip.as_str()).collect();
    assert_eq!(ips, vec!["10.0.0.5", "192.168.1.9"]);
    assert_eq!(addresses[0].name.as_deref(), Some("Ethernet"));
}

#[test]
fn virtual_addresses_are_a_fallback() {
    let interfaces = vec![
        iface("docker0", Some([172, 17, 0, 1])),
        iface("en7", Some([192, 168, 5, 5])),
    ];
    let addresses = lan_ipv4_addresses(&interfaces, &Vec::new(), None);
    let ips: Vec<&str> = addresses.iter().map(|a| a.ip.as_str()).collect();
    assert_eq!(ips, vec!["192.168.5.5", "172.17.0.1"]);
}

#[test]
fn local_ip_used_when_nothing_found() {
    let addresses = lan_ipv4_addresses(&vec![iface("lo", Some([127, 0, 0, 1]))], &Vec::new(), Some([10, 1, 2, 3]));
    assert_eq!(addresses.len(), 1);
    assert_eq!(addresses[0].name, None);
    assert_eq!(addresses[0].ip, "10.1.2.3");
    let none = lan_ipv4_addresses(&Vec::new(), &Vec::new(), Some([127, 0, 0, 1]));
    assert!(none.is_empty());
}

#[test]
fn display_names_name_the_addresses() {
    let names = vec![
        ("en0".to_string(), "Old".to_string()),
        ("en0".to_string(), "Wi-Fi".to_string()),
    ];
    let addresses = lan_ipv4_addresses(&vec![iface("en0", Some([192, 168, 0, 2]))], &names, None);
    assert_eq!(addresses[0].name.as_deref(), Some("Wi-Fi"));
}

#[test]
fn hardware_port_listing_is_parsed() {
    let text = "\r\nHardware Port: Wi-Fi\r\nDevice: en0\r\nEthernet Address: aa\r\n\nHardware Port:  Thunderbolt Bridge \nDevice: bridge0\nDevice: en9\nHardware Port: USB";
    let names = macos_interface_display_names(text);
    assert_eq!(
        names,
        vec![
            ("en0".to_string(), "Wi-Fi".to_string()),
            ("bridge0".to_string(), "Thunderbolt Bridge".to_string()),
        ]
    );
}

#[test]
fn host_names_are_read_and_trimmed() {
    let mut buffer = [0u8; 16];
    buffer[..6].copy_from_slice(b" host ");
    let raw = system_host_name(&buffer);
    assert_eq!(raw.as_deref(), Some(" host "));
    assert_eq!(host_name(raw), Some("host".to_string()));
    assert_eq!(system_host_name(&[b'a'; 4]), None);
    assert_eq!(system_host_name(&[0xff, b'x', 0]).as_deref(), Some("\u{fffd}x"));
    assert_eq!(host_name(Some(" \t ".to_string())), None);
    assert_eq!(host_name(None), None);
}

#[test]
fn display_names_come_from_the_listing() {
    assert!(interface_display_names(None).is_empty());
    let names = interface_display_names(Some("Hardware Port: Ethernet\nDevice: en1\n"));
    assert_eq!(names, vec![("en1".to_string(), "Ethernet".to_string())]);
}

#[test]
fn a_physical_address_wins_even_when_a_virtual_adapter_lists_it_first() {
    let interfaces = vec![
        iface("vEthernet (WSL)", Some([192, 168, 1, 5])),
        iface("Ethernet", Some([192, 168, 1, 5])),
        iface("Wi-Fi", Some([10, 0, 0, 2])),
    ];
    let addresses = lan_ipv4_addresses(&interfaces, &Vec::new(), None);
    let listed: Vec<(Option<&str>, &str)> =
        addresses.iter().map(|a| (a.name.as_deref(), a.ip.as_str())).collect();
    assert_eq!(listed, vec![(Some("Wi-Fi"), "10.0.0.2"), (Some("Ethernet"), "192.168.1.5")]);
    let two = vec![
        iface("vEthernet (WSL)", Some([192, 168, 1, 5])),
        iface("Ethernet", Some([192, 168, 1, 5])),
    ];
    let only = lan_ipv4_addresses(&two, &Vec::new(), None);
    assert_eq!(only.len(), 1);
    assert_eq!(only[0].name.as_deref(), Some("Ethernet"));
}
