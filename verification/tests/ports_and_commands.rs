use xzual_tauri_lib::commands::{
    check_dns_target, driver_install_result, firewall_commands_for, parse_recorded_pid,
    pac_registry_error, pid_file_contents, probe_latency, proxy_registry_error, sentinel_contents,
    taskkill_args, winhttp_set_proxy_args, zombie_report, IpKind, INVALID_DNS_ADDRESS,
    LOCAL_DNS_REFUSED,
};
use xzual_tauri_lib::netif::Ipv4;
use xzual_tauri_lib::ports::{
    admit_pac_connection, pac_port_error, port_probe_allowed, port_scan_step,
    settle_sidecar_port, sidecar_bind_address, start_port_scan, validate_proxy_port, PortScan,
    ScanAction, PAC_PORT_END, PAC_PORT_START, SIDECAR_PORT_END, SIDECAR_PORT_START,
};

fn run_scan(first: u16, last: u16, free: &[u16]) -> (ScanAction, Vec<u16>) {
    let mut tried = Vec::new();
    let (mut scan, mut action) = start_port_scan(first, last);
    loop {
        match action {
            ScanAction::Try(p) => {
                tried.push(p);
                let r = port_scan_step(scan, free.contains(&p));
                scan = r.0;
                action = r.1;
            }
            other => return (other, tried),
        }
    }
}

#[test]
fn scan_takes_the_first_free_port() {
    let (a, tried) = run_scan(PAC_PORT_START, PAC_PORT_END, &[8790, 8800]);
    assert_eq!(a, ScanAction::Chosen(8790));
    assert_eq!(tried, vec![8787, 8788, 8789, 8790]);
    let (a, _) = run_scan(SIDECAR_PORT_START, SIDECAR_PORT_END, &[8080]);
    assert_eq!(a, ScanAction::Chosen(8080));
}

#[test]
fn scan_asks_the_system_when_all_fail() {
    let (a, tried) = run_scan(SIDECAR_PORT_START, SIDECAR_PORT_END, &[]);
    assert_eq!(a, ScanAction::AskSystem);
    assert_eq!(tried.len(), 11);
    let (a, _) = run_scan(65535, 65535, &[]);
    assert_eq!(a, ScanAction::AskSystem);
}

#[test]
fn scan_steps() {
    assert_eq!(start_port_scan(5, 9), (PortScan { current: 5, last: 9 }, ScanAction::Try(5)));
    let s = PortScan { current: 5, last: 9 };
    assert_eq!(port_scan_step(s, true), (s, ScanAction::Chosen(5)));
    assert_eq!(port_scan_step(s, false), (PortScan { current: 6, last: 9 }, ScanAction::Try(6)));
    let e = PortScan { current: 9, last: 9 };
    assert_eq!(port_scan_step(e, false), (e, ScanAction::AskSystem));
}

#[test]
fn sidecar_choices() {
    assert_eq!(sidecar_bind_address(false, false), "127.0.0.1");
    assert_eq!(sidecar_bind_address(true, false), "0.0.0.0");
    assert_eq!(sidecar_bind_address(false, true), "0.0.0.0");
    assert_eq!(settle_sidecar_port(8081), Ok(8081));
    assert_eq!(settle_sidecar_port(0), Err("Uygun port bulunamad\u{c4}\u{b1}.".to_string()));
    assert_eq!(pac_port_error("in use"), "PAC i\u{c3}\u{a7}in uygun port bulunamad\u{c4}\u{b1}: in use");
}

#[test]
fn port_limits() {
    assert!(!port_probe_allowed(0));
    assert!(!port_probe_allowed(1023));
    assert!(port_probe_allowed(1024));
    assert!(port_probe_allowed(65535));
    assert!(validate_proxy_port(1023).is_err());
    assert!(validate_proxy_port(80).unwrap_err().starts_with("Ge\u{c3}\u{a7}ersiz port"));
    assert_eq!(validate_proxy_port(1024), Ok(()));
    for p in [0u16, 1, 1023, 1024, 8080, 65535] {
        assert_eq!(port_probe_allowed(p), validate_proxy_port(p).is_ok());
    }
}

#[test]
fn connection_limit() {
    assert!(admit_pac_connection(0));
    assert!(admit_pac_connection(49));
    assert!(!admit_pac_connection(50));
    assert!(!admit_pac_connection(u32::MAX));
}

#[test]
fn firewall_argument_lists() {
    let off = firewall_commands_for(false, 0, 0);
    assert_eq!(
        off,
        vec![
            vec!["advfirewall", "firewall", "delete", "rule", "name=XzualDPI_Proxy"],
            vec!["advfirewall", "firewall", "delete", "rule", "name=XzualDPI_PAC"],
        ]
    );
    let on = firewall_commands_for(true, 8080, 8787);
    assert_eq!(on.len(), 4);
    assert_eq!(
        on[2],
        vec!["advfirewall", "firewall", "add", "rule", "name=XzualDPI_Proxy", "dir=in", "action=allow", "protocol=TCP", "localport=8080"]
    );
    assert_eq!(on[3][4], "name=XzualDPI_PAC");
    assert_eq!(on[3][8], "localport=8787");
}

#[test]
fn winhttp_arguments() {
    let v = winhttp_set_proxy_args("127.0.0.1", 8080);
    assert_eq!(v[..4], ["winhttp", "set", "proxy", "127.0.0.1:8080"]);
    assert_eq!(
        v[4],
        "bypass-list=\"<local>;127.0.0.1;*.steamcontent.com;*.steamstatic.com;*.cm.steampowered.com;*.epicgames.com;*.unrealengine.com;*.riotgames.com;*.leagueoflegends.com;*.ea.com;*.origin.com;*.blizzard.com;*.battle.net;*.ubisoft.com;*.ubi.com;*.xboxlive.com;*.xbox.com;*.microsoft.com;*.cachefly.net;*.msftconnecttest.com;*.windowsupdate.com\""
    );
}

#[test]
fn registry_error_texts() {
    assert!(pac_registry_error("e").starts_with("PAC Registry "));
    assert!(pac_registry_error("e").ends_with(": e"));
    assert!(proxy_registry_error("denied").ends_with("geri al\u{c4}\u{b1}nd\u{c4}\u{b1}: denied"));
}

#[test]
fn sentinel_text() {
    assert_eq!(sentinel_contents(8080), "port=8080");
    assert_eq!(sentinel_contents(0), "port=0");
}

#[test]
fn pid_file_parsing() {
    assert_eq!(parse_recorded_pid("1234"), Some(1234));
    assert_eq!(parse_recorded_pid("  1234\r\n"), Some(1234));
    assert_eq!(parse_recorded_pid("+77"), Some(77));
    assert_eq!(parse_recorded_pid("007"), Some(7));
    assert_eq!(parse_recorded_pid("4294967295"), Some(u32::MAX));
    assert_eq!(parse_recorded_pid("4294967296"), None);
    assert_eq!(parse_recorded_pid("99999999999999999999999"), None);
    assert_eq!(parse_recorded_pid("0"), None);
    assert_eq!(parse_recorded_pid("-5"), None);
    assert_eq!(parse_recorded_pid("+"), None);
    assert_eq!(parse_recorded_pid(""), None);
    assert_eq!(parse_recorded_pid("12 34"), None);
    assert_eq!(parse_recorded_pid("12a"), None);
    for s in ["1234", " 5 ", "+9", "0", "-1", "x", "4294967296", "00042"] {
        let expected = s.trim().parse::<u32>().ok().filter(|p| *p > 0);
        assert_eq!(parse_recorded_pid(s), expected, "{:?}", s);
    }
}

#[test]
fn pid_file_roundtrip() {
    for pid in [1u32, 9, 10, 4321, u32::MAX] {
        assert_eq!(pid_file_contents(pid), pid.to_string());
        assert_eq!(parse_recorded_pid(&pid_file_contents(pid)), Some(pid));
    }
}

#[test]
fn zombie_texts_and_arguments() {
    assert_eq!(taskkill_args(4321), vec!["/F", "/PID", "4321"]);
    assert_eq!(zombie_report(Some(4321)), "Zombi s\u{c3}\u{bc}re\u{c3}\u{a7} (PID 4321) durduruldu.");
    assert_eq!(zombie_report(None), "Zombi PID dosyas\u{c4}\u{b1} bulunamad\u{c4}\u{b1}.");
}

fn v4(a: u8, b: u8, c: u8, d: u8) -> Option<IpKind> {
    Some(IpKind::V4(Ipv4 { a, b, c, d }))
}

#[test]
fn dns_targets() {
    assert_eq!(check_dns_target("not-an-ip", None), Err(INVALID_DNS_ADDRESS.to_string()));
    assert_eq!(check_dns_target("Geçersiz", None).unwrap_err(), "Geçersiz IP adresi");
    assert_eq!(check_dns_target("1.1.1.1", v4(1, 1, 1, 1)), Ok(()));
    assert_eq!(check_dns_target("8.8.4.4", v4(8, 8, 4, 4)), Ok(()));
    assert_eq!(check_dns_target("192.168.1.1", v4(192, 168, 1, 1)), Err(LOCAL_DNS_REFUSED.to_string()));
    assert_eq!(check_dns_target("127.0.0.1", v4(127, 0, 0, 1)), Err(LOCAL_DNS_REFUSED.to_string()));
    assert_eq!(check_dns_target("10.0.0.1", v4(10, 0, 0, 1)), Err(LOCAL_DNS_REFUSED.to_string()));
    assert_eq!(check_dns_target("172.31.0.1", v4(172, 31, 0, 1)), Err(LOCAL_DNS_REFUSED.to_string()));
    assert_eq!(check_dns_target("172.32.0.1", v4(172, 32, 0, 1)), Ok(()));
    assert_eq!(check_dns_target("169.254.0.1", v4(169, 254, 0, 1)), Err(LOCAL_DNS_REFUSED.to_string()));
    assert_eq!(check_dns_target("[::1]", Some(IpKind::V6)), Ok(()));
    // The allow list is matched by text, so an allowed name still passes when it parses locally.
    assert_eq!(check_dns_target("1.1.1.1", v4(127, 0, 0, 1)), Ok(()));
}

#[test]
fn latency_values() {
    assert_eq!(probe_latency(true, 42), 42);
    assert_eq!(probe_latency(true, (1u128 << 32) + 5), 5);
    assert_eq!(probe_latency(false, 42), 999);
}

#[test]
fn driver_results() {
    assert_eq!(driver_install_result(true), Ok(()));
    assert!(driver_install_result(false).unwrap_err().starts_with("Kurulum kullan"));
}
