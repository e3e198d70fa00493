use xzual_tauri_lib::netif::{
    get_safe_lan_ip, ipv4_to_string, is_virtual_adapter_name, is_virtual_ip_range, select_lan_ip,
    Ipv4, NetInterface,
};

fn ip(a: u8, b: u8, c: u8, d: u8) -> Ipv4 {
    Ipv4 { a, b, c, d }
}

fn v4(name: &str, a: u8, b: u8, c: u8, d: u8) -> NetInterface {
    NetInterface { name: name.to_string(), ipv4: Some(ip(a, b, c, d)) }
}

fn v6(name: &str) -> NetInterface {
    NetInterface { name: name.to_string(), ipv4: None }
}

#[test]
fn virtual_ranges() {
    assert!(is_virtual_ip_range(&ip(192, 168, 56, 1)));
    assert!(is_virtual_ip_range(&ip(192, 168, 190, 1)));
    assert!(is_virtual_ip_range(&ip(192, 168, 255, 1)));
    assert!(!is_virtual_ip_range(&ip(192, 168, 189, 1)));
    assert!(!is_virtual_ip_range(&ip(192, 168, 1, 5)));
    assert!(is_virtual_ip_range(&ip(172, 17, 0, 1)));
    assert!(!is_virtual_ip_range(&ip(172, 18, 0, 1)));
    assert!(is_virtual_ip_range(&ip(25, 1, 2, 3)));
    assert!(is_virtual_ip_range(&ip(169, 254, 3, 4)));
    assert!(!is_virtual_ip_range(&ip(10, 0, 0, 2)));
}

#[test]
fn virtual_names() {
    assert!(is_virtual_adapter_name("vethernet (wsl)"));
    assert!(is_virtual_adapter_name("tailscale0"));
    assert!(is_virtual_adapter_name("tun0"));
    assert!(!is_virtual_adapter_name("wi-fi"));
    assert!(!is_virtual_adapter_name("ethernet"));
    assert!(!is_virtual_adapter_name("Ethernet 2"));
    // Names are lower-cased before the test; the mixed-case keyword never matches.
    assert!(!is_virtual_adapter_name("VMware"));
}

#[test]
fn ipv4_strings() {
    assert_eq!(ipv4_to_string(&ip(192, 168, 1, 5)), "192.168.1.5");
    assert_eq!(ipv4_to_string(&ip(0, 0, 0, 0)), "0.0.0.0");
    assert_eq!(ipv4_to_string(&ip(255, 10, 100, 9)), "255.10.100.9");
}

#[test]
fn no_interfaces_gives_loopback() {
    assert_eq!(get_safe_lan_ip(&vec![]), "127.0.0.1");
    assert_eq!(get_safe_lan_ip(&vec![v4("lo", 127, 0, 0, 1), v6("eth0")]), "127.0.0.1");
}

#[test]
fn real_adapter_is_preferred() {
    let netifs = vec![
        v4("lo", 127, 0, 0, 1),
        v4("VirtualBox Host-Only Network", 192, 168, 56, 1),
        v4("vEthernet (WSL)", 172, 20, 0, 1),
        v4("Wi-Fi", 192, 168, 1, 34),
        v4("Ethernet", 10, 0, 0, 7),
    ];
    assert_eq!(get_safe_lan_ip(&netifs), "192.168.1.34");
}

#[test]
fn second_pass_ignores_names() {
    let netifs = vec![
        v4("Hamachi", 25, 1, 2, 3),
        v4("VPN adapter", 10, 8, 0, 2),
        v4("docker0", 172, 17, 0, 1),
    ];
    assert_eq!(get_safe_lan_ip(&netifs), "10.8.0.2");
}

#[test]
fn last_pass_takes_any_non_loopback() {
    let netifs = vec![v4("lo", 127, 0, 0, 1), v4("apipa", 169, 254, 1, 1), v4("docker0", 172, 17, 0, 1)];
    assert_eq!(get_safe_lan_ip(&netifs), "169.254.1.1");
}

#[test]
fn link_local_is_skipped_in_first_passes() {
    let netifs = vec![v4("Ethernet", 169, 254, 9, 9), v4("Ethernet 2", 192, 168, 0, 10)];
    assert_eq!(get_safe_lan_ip(&netifs), "192.168.0.10");
}

#[test]
fn names_are_lower_cased_with_unicode_rules() {
    // The Kelvin sign lower-cases to an ASCII `k`, so this adapter is virtual.
    let netifs = vec![v4("DOC\u{212A}ER", 192, 168, 1, 2), v4("Wi-Fi", 192, 168, 1, 3)];
    assert_eq!(get_safe_lan_ip(&netifs), "192.168.1.3");
    // Upper-case keywords are found after lower-casing.
    let netifs = vec![v4("VMWARE NETWORK", 192, 168, 1, 2), v4("Wi-Fi", 192, 168, 1, 3)];
    assert_eq!(get_safe_lan_ip(&netifs), "192.168.1.3");
}

#[test]
fn selection_uses_the_given_lower_case_names() {
    let netifs = vec![v4("NordLynx", 10, 5, 0, 2), v4("Wi-Fi", 192, 168, 1, 7)];
    let lowered = vec!["nordlynx".to_string(), "wi-fi".to_string()];
    assert_eq!(select_lan_ip(&netifs, &lowered), "192.168.1.7");
    // The first pass reads the names as given: unlowered, the keyword does not match.
    let as_is = vec!["NordLynx".to_string(), "Wi-Fi".to_string()];
    assert_eq!(select_lan_ip(&netifs, &as_is), "10.5.0.2");
    assert_eq!(get_safe_lan_ip(&netifs), "192.168.1.7");
}

#[test]
fn selection_falls_back_to_loopback() {
    let netifs = vec![v4("lo", 127, 0, 0, 1), v6("eth0")];
    let lowered = vec!["lo".to_string(), "eth0".to_string()];
    assert_eq!(select_lan_ip(&netifs, &lowered), "127.0.0.1");
}
