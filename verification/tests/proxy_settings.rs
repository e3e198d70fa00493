use xzual_tauri_lib::proxy_settings::{
    clear_proxy_plan, open_key_error, proxy_override_value, record_backup, restore_plan,
    restore_proxy_plan, set_pac_proxy_plan, set_proxy_plan, system_proxy_plan, value_error,
    OriginalProxySettings, RegistryWrite,
};

fn describe(v: &[RegistryWrite]) -> Vec<String> {
    v.iter()
        .map(|w| match w {
            RegistryWrite::SetString { name, text } => format!("set {}={}", name, text),
            RegistryWrite::SetDword { name, value } => format!("dword {}={}", name, value),
            RegistryWrite::Delete { name } => format!("delete {}", name),
        })
        .collect()
}

const OVERRIDE: &str = "<local>;10.*;172.16.*;172.17.*;172.18.*;172.19.*;172.20.*;172.21.*;172.22.*;172.23.*;172.24.*;172.25.*;172.26.*;172.27.*;172.28.*;172.29.*;172.30.*;172.31.*;192.168.*;*.msftconnecttest.com;*.msftncsi.com;dns.msn.com;ipv6.msftconnecttest.com;connectivitycheck.gstatic.com;connectivitycheck.android.com;clients3.google.com;play.googleapis.com;captive.apple.com;gsp1.apple.com;connectivitycheck.samsung.com;*.windowsupdate.com;*.delivery.mp.microsoft.com;*.steamcontent.com;*.steamstatic.com;clientconfig.akamai.steamstatic.com;*.cm.steampowered.com;*.epicgames.com;*.unrealengine.com;download.epicgames.com;launcher-public-service-prod06.ol.epicgames.com;*.riotgames.com;*.leagueoflegends.com;riotgames-update.akamaized.net;*.ea.com;*.origin.com;*.blizzard.com;*.battle.net;blzddist1-a.akamaihd.net;*.ubisoft.com;*.ubi.com;*.xboxlive.com;*.xbox.com;*.microsoft.com;*.cachefly.net";

#[test]
fn override_list() {
    assert_eq!(proxy_override_value(), OVERRIDE);
}

#[test]
fn set_proxy_writes() {
    assert_eq!(
        describe(&set_proxy_plan("127.0.0.1", 8080)),
        vec![
            "set ProxyServer=127.0.0.1:8080".to_string(),
            "dword ProxyEnable=1".to_string(),
            format!("set ProxyOverride={}", OVERRIDE),
        ]
    );
}

#[test]
fn clear_proxy_writes() {
    assert_eq!(
        describe(&clear_proxy_plan()),
        vec!["dword ProxyEnable=0", "delete ProxyServer", "delete ProxyOverride", "delete AutoConfigURL"]
    );
}

#[test]
fn pac_proxy_writes() {
    assert_eq!(
        describe(&set_pac_proxy_plan("http://192.168.1.5:8787/proxy.pac")),
        vec![
            "set AutoConfigURL=http://192.168.1.5:8787/proxy.pac",
            "dword ProxyEnable=0",
            "delete ProxyServer",
            "delete ProxyOverride"
        ]
    );
}

#[test]
fn restore_writes() {
    assert_eq!(
        describe(&restore_proxy_plan("corp:3128", 1, Some("<local>;*.corp"))),
        vec!["set ProxyServer=corp:3128", "dword ProxyEnable=1", "set ProxyOverride=<local>;*.corp"]
    );
    assert_eq!(
        describe(&restore_proxy_plan("corp:3128", 0, None)),
        vec!["set ProxyServer=corp:3128", "dword ProxyEnable=0"]
    );
}

#[test]
fn system_proxy_modes() {
    let fixed = system_proxy_plan(8080, None);
    assert!(!fixed.pac_mode);
    assert_eq!(describe(&fixed.writes)[0], "set ProxyServer=127.0.0.1:8080");
    let pac = system_proxy_plan(8080, Some("http://x/proxy.pac"));
    assert!(pac.pac_mode);
    assert_eq!(describe(&pac.writes)[0], "set AutoConfigURL=http://x/proxy.pac");
}

#[test]
fn error_texts() {
    assert_eq!(value_error("ProxyServer", "denied"), "ProxyServer: denied");
    assert_eq!(open_key_error("x"), "Registry a\u{c3}\u{a7}\u{c4}\u{b1}lamad\u{c4}\u{b1}: x");
}

fn settings(server: Option<&str>, enable: Option<u32>, ov: Option<&str>) -> OriginalProxySettings {
    OriginalProxySettings {
        proxy_enable: enable,
        proxy_server: server.map(|s| s.to_string()),
        proxy_override: ov.map(|s| s.to_string()),
    }
}

#[test]
fn backup_keeps_the_first() {
    let mut store = None;
    record_backup(&mut store, settings(Some("corp:3128"), Some(1), None));
    record_backup(&mut store, settings(Some("127.0.0.1:8080"), Some(1), None));
    assert_eq!(store.as_ref().unwrap().proxy_server.as_deref(), Some("corp:3128"));
    store = None;
    record_backup(&mut store, settings(None, None, None));
    assert!(store.as_ref().unwrap().proxy_server.is_none());
}

#[test]
fn restore_decisions() {
    assert!(restore_plan(&None).is_none());
    assert!(restore_plan(&Some(settings(None, Some(1), None))).is_none());
    assert!(restore_plan(&Some(settings(Some(""), Some(1), None))).is_none());
    assert!(restore_plan(&Some(settings(Some("127.0.0.1:8080"), Some(1), None))).is_none());
    let r = restore_plan(&Some(settings(Some("127.0.0.1"), None, None))).unwrap();
    assert_eq!((r.server.as_str(), r.enable, r.override_val), ("127.0.0.1", 0, None));
    let r = restore_plan(&Some(settings(Some("corp:3128"), Some(1), Some("<local>")))).unwrap();
    assert_eq!(r.server, "corp:3128");
    assert_eq!(r.enable, 1);
    assert_eq!(r.override_val.as_deref(), Some("<local>"));
}

#[derive(Clone, Debug, PartialEq)]
enum Value {
    Text(String),
    Dword(u32),
}

fn apply(key: &mut std::collections::BTreeMap<String, Value>, writes: &[RegistryWrite]) {
    for w in writes {
        match w {
            RegistryWrite::SetString { name, text } => {
                key.insert(name.to_string(), Value::Text(text.clone()));
            }
            RegistryWrite::SetDword { name, value } => {
                key.insert(name.to_string(), Value::Dword(*value));
            }
            RegistryWrite::Delete { name } => {
                key.remove(*name);
            }
        }
    }
}

#[test]
fn clearing_twice_is_clearing_once() {
    let mut key = std::collections::BTreeMap::new();
    key.insert("ProxyServer".to_string(), Value::Text("10.0.0.1:3128".to_string()));
    key.insert("AutoConfigURL".to_string(), Value::Text("http://x/proxy.pac".to_string()));
    key.insert("MigrateProxy".to_string(), Value::Dword(1));
    apply(&mut key, &clear_proxy_plan());
    let once = key.clone();
    assert_eq!(once.get("ProxyEnable"), Some(&Value::Dword(0)));
    assert_eq!(once.get("ProxyServer"), None);
    assert_eq!(once.get("AutoConfigURL"), None);
    assert_eq!(once.get("MigrateProxy"), Some(&Value::Dword(1)));
    apply(&mut key, &clear_proxy_plan());
    assert_eq!(key, once);
}

#[test]
fn restore_reads_back() {
    let mut key = std::collections::BTreeMap::new();
    key.insert("ProxyOverride".to_string(), Value::Text("old".to_string()));
    apply(&mut key, &restore_proxy_plan("proxy.corp:8080", 1, None));
    assert_eq!(key.get("ProxyServer"), Some(&Value::Text("proxy.corp:8080".to_string())));
    assert_eq!(key.get("ProxyEnable"), Some(&Value::Dword(1)));
    assert_eq!(key.get("ProxyOverride"), Some(&Value::Text("old".to_string())));
    apply(&mut key, &restore_proxy_plan("proxy.corp:8080", 0, Some("<local>")));
    assert_eq!(key.get("ProxyEnable"), Some(&Value::Dword(0)));
    assert_eq!(key.get("ProxyOverride"), Some(&Value::Text("<local>".to_string())));
}
