use xzual_tauri_lib::hash::simple_hash;
use xzual_tauri_lib::pac::{
    host_list_entries, js_pattern_list, make_pac_body, make_pac_direct_body, make_pac_url,
    PAC_DIRECT_BODY,
};
use xzual_tauri_lib::text::decimal_string;

fn expected_pac_body(lan_ip: &str, proxy_port: u16, whitelist: &str, blacklist: &str) -> String {
    let proxy = format!("{}:{}", lan_ip, proxy_port);
    let wl_js = whitelist
        .lines()
        .map(|l| l.trim())
        .filter(|l| !l.is_empty())
        .map(|l| format!("\"*{}*\"", l))
        .collect::<Vec<_>>()
        .join(",");
    let bl_js = blacklist
        .lines()
        .map(|l| l.trim())
        .filter(|l| !l.is_empty())
        .map(|l| format!("\"*{}*\"", l))
        .collect::<Vec<_>>()
        .join(",");
    format!(
        "function FindProxyForURL(url, host) {{\n    var whitelist = [{}];\n    var blacklist = [{}];\n\n    // 1) Blacklist Check -> DIRECT (Always skip bypass)\n    for (var i = 0; i < blacklist.length; i++) {{\n        if (shExpMatch(host, blacklist[i])) return \"DIRECT\";\n    }}\n\n    // 2) Whitelist Check -> PROXY (Always bypass)\n    for (var i = 0; i < whitelist.length; i++) {{\n        if (shExpMatch(host, whitelist[i])) return \"PROXY {}; DIRECT\";\n    }}\n\n    // 3) Localhost & Internal -> DIRECT\n    if (isPlainHostName(host) ||\n        host === \"localhost\" ||\n        shExpMatch(host, \"127.*\") ||\n        shExpMatch(host, \"10.*\") ||\n        shExpMatch(host, \"192.168.*\") ||\n        shExpMatch(host, \"172.16.*\") || shExpMatch(host, \"172.17.*\") ||\n        shExpMatch(host, \"172.18.*\") || shExpMatch(host, \"172.19.*\") ||\n        shExpMatch(host, \"172.2?.*\") || shExpMatch(host, \"172.30.*\") ||\n        shExpMatch(host, \"172.31.*\") ||\n        shExpMatch(host, \"*.local\") ||\n        shExpMatch(host, \"*.localhost\") ||\n        shExpMatch(host, \"*.internal\"))\n        return \"DIRECT\";\n\n    // 4) Default Bypass\n    return \"PROXY {}; DIRECT\";\n}}",
        wl_js, bl_js, proxy, proxy
    )
}

#[test]
fn direct_body_sends_everything_direct() {
    let body = make_pac_direct_body();
    assert_eq!(body, PAC_DIRECT_BODY);
    assert!(body.starts_with("function FindProxyForURL(url, host) {\n"));
    assert!(body.ends_with("    return \"DIRECT\";\n}\n"));
    assert!(!body.contains("PROXY"));
}

#[test]
fn pac_body_with_empty_lists() {
    let body = make_pac_body("192.168.1.5", 8080, "", "");
    assert_eq!(body, expected_pac_body("192.168.1.5", 8080, "", ""));
    assert!(body.contains("var whitelist = [];"));
    assert!(body.contains("var blacklist = [];"));
    assert!(body.contains("return \"PROXY 192.168.1.5:8080; DIRECT\";\n}"));
}

#[test]
fn pac_body_with_lists() {
    let white = "discord.com\n  youtube.com  \r\n\n\t\nroblox.com";
    let black = "bank.example\r\n\r\n";
    let body = make_pac_body("10.0.0.2", 65535, white, black);
    assert_eq!(body, expected_pac_body("10.0.0.2", 65535, white, black));
    assert!(body.contains("var whitelist = [\"*discord.com*\",\"*youtube.com*\",\"*roblox.com*\"];"));
    assert!(body.contains("var blacklist = [\"*bank.example*\"];"));
}

#[test]
fn pac_body_always_proxies() {
    for (ip, port, w, b) in [("127.0.0.1", 0u16, "", ""), ("", 1, "x", "y"), ("a b", 99, " \n ", "z\n")] {
        assert!(make_pac_body(ip, port, w, b).contains("PROXY"));
    }
}

#[test]
fn pac_body_unicode_white_space_is_trimmed() {
    let white = "\u{3000}site.tr\u{a0}\n\u{2003}";
    let body = make_pac_body("1.2.3.4", 80, white, "");
    assert_eq!(body, expected_pac_body("1.2.3.4", 80, white, ""));
    assert!(body.contains("[\"*site.tr*\"]"));
}

#[test]
fn host_list_entries_trim_and_skip_empty_lines() {
    let v = host_list_entries(" a \n\nb\r\n   \n c c ");
    assert_eq!(v, vec!["a".to_string(), "b".to_string(), "c c".to_string()]);
    assert!(host_list_entries("").is_empty());
    assert!(host_list_entries("\n\n \r\n").is_empty());
}

#[test]
fn js_pattern_list_joins_with_commas() {
    assert_eq!(js_pattern_list(&vec![]), "");
    assert_eq!(js_pattern_list(&vec!["a".to_string()]), "\"*a*\"");
    assert_eq!(
        js_pattern_list(&vec!["a".to_string(), "b.c".to_string()]),
        "\"*a*\",\"*b.c*\""
    );
}

#[test]
fn pac_url_format() {
    assert_eq!(make_pac_url("192.168.1.5", 8787), "http://192.168.1.5:8787/proxy.pac");
    assert_eq!(make_pac_url("127.0.0.1", 0), "http://127.0.0.1:0/proxy.pac");
}

fn expected_hash(s: &str) -> u64 {
    let mut h: u64 = 5381;
    for b in s.bytes() {
        h = h.wrapping_mul(33).wrapping_add(b as u64);
    }
    h
}

#[test]
fn simple_hash_values() {
    assert_eq!(simple_hash(""), 5381);
    assert_eq!(simple_hash("a"), 5381 * 33 + 97);
    assert_eq!(simple_hash("ab"), (5381 * 33 + 97) * 33 + 98);
    let long = make_pac_body("192.168.1.5", 8080, "discord.com", "ğüşİ");
    assert_eq!(simple_hash(&long), expected_hash(&long));
    assert_eq!(simple_hash("çğ€"), expected_hash("çğ€"));
    assert_ne!(simple_hash("ab"), simple_hash("ba"));
}

#[test]
fn decimal_strings() {
    assert_eq!(decimal_string(0), "0");
    assert_eq!(decimal_string(7), "7");
    assert_eq!(decimal_string(10), "10");
    assert_eq!(decimal_string(8787), "8787");
    assert_eq!(decimal_string(u64::MAX), u64::MAX.to_string());
}
