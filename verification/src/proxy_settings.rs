//! What the proxy settings of the current user become: the registry writes
//! that set, clear, point at a PAC script or restore them, the backup of the
//! settings found before the first change, and the error texts.

use vstd::prelude::*;

use crate::text::{append_str, chars_of, decimal, joined, matches_at, push_char, push_decimal, starts_with};

verus! {

/// The registry key, under the current user, that holds the settings.
pub const INTERNET_SETTINGS: &'static str = "Software\\Microsoft\\Windows\\CurrentVersion\\Internet Settings";

/// Start of the error text when the key cannot be opened or created.
pub const OPEN_KEY_ERROR: &'static str = "Registry aÃ§Ä±lamadÄ±: ";

/// Hosts that bypass the proxy: local names, the private LAN ranges,
/// connectivity checks, Windows Update and game launchers and their CDNs.
pub open spec fn override_entries() -> Seq<Seq<char>> {
    seq![
        "<local>"@,
        "10.*"@,
        "172.16.*"@,
        "172.17.*"@,
        "172.18.*"@,
        "172.19.*"@,
        "172.20.*"@,
        "172.21.*"@,
        "172.22.*"@,
        "172.23.*"@,
        "172.24.*"@,
        "172.25.*"@,
        "172.26.*"@,
        "172.27.*"@,
        "172.28.*"@,
        "172.29.*"@,
        "172.30.*"@,
        "172.31.*"@,
        "192.168.*"@,
        "*.msftconnecttest.com"@,
        "*.msftncsi.com"@,
        "dns.msn.com"@,
        "ipv6.msftconnecttest.com"@,
        "connectivitycheck.gstatic.com"@,
        "connectivitycheck.android.com"@,
        "clients3.google.com"@,
        "play.googleapis.com"@,
        "captive.apple.com"@,
        "gsp1.apple.com"@,
        "connectivitycheck.samsung.com"@,
        "*.windowsupdate.com"@,
        "*.delivery.mp.microsoft.com"@,
        "*.steamcontent.com"@,
        "*.steamstatic.com"@,
        "clientconfig.akamai.steamstatic.com"@,
        "*.cm.steampowered.com"@,
        "*.epicgames.com"@,
        "*.unrealengine.com"@,
        "download.epicgames.com"@,
        "launcher-public-service-prod06.ol.epicgames.com"@,
        "*.riotgames.com"@,
        "*.leagueoflegends.com"@,
        "riotgames-update.akamaized.net"@,
        "*.ea.com"@,
        "*.origin.com"@,
        "*.blizzard.com"@,
        "*.battle.net"@,
        "blzddist1-a.akamaihd.net"@,
        "*.ubisoft.com"@,
        "*.ubi.com"@,
        "*.xboxlive.com"@,
        "*.xbox.com"@,
        "*.microsoft.com"@,
        "*.cachefly.net"@,
    ]
}

fn override_entry_list() -> (v: Vec<&'static str>)
    ensures
        v@.map_values(|s: &str| s@) == override_entries(),
{
    let v = vec![
        "<local>",
        "10.*",
        "172.16.*",
        "172.17.*",
        "172.18.*",
        "172.19.*",
        "172.20.*",
        "172.21.*",
        "172.22.*",
        "172.23.*",
        "172.24.*",
        "172.25.*",
        "172.26.*",
        "172.27.*",
        "172.28.*",
        "172.29.*",
        "172.30.*",
        "172.31.*",
        "192.168.*",
        "*.msftconnecttest.com",
        "*.msftncsi.com",
        "dns.msn.com",
        "ipv6.msftconnecttest.com",
        "connectivitycheck.gstatic.com",
        "connectivitycheck.android.com",
        "clients3.google.com",
        "play.googleapis.com",
        "captive.apple.com",
        "gsp1.apple.com",
        "connectivitycheck.samsung.com",
        "*.windowsupdate.com",
        "*.delivery.mp.microsoft.com",
        "*.steamcontent.com",
        "*.steamstatic.com",
        "clientconfig.akamai.steamstatic.com",
        "*.cm.steampowered.com",
        "*.epicgames.com",
        "*.unrealengine.com",
        "download.epicgames.com",
        "launcher-public-service-prod06.ol.epicgames.com",
        "*.riotgames.com",
        "*.leagueoflegends.com",
        "riotgames-update.akamaized.net",
        "*.ea.com",
        "*.origin.com",
        "*.blizzard.com",
        "*.battle.net",
        "blzddist1-a.akamaihd.net",
        "*.ubisoft.com",
        "*.ubi.com",
        "*.xboxlive.com",
        "*.xbox.com",
        "*.microsoft.com",
        "*.cachefly.net",
    ];
    assert(v@.map_values(|s: &str| s@) =~= override_entries());
    v
}

/// The string slices of `items`, separated by `sep`.
pub fn join_strs(items: &Vec<&str>, sep: char) -> (s: String)
    ensures
        s@ == joined(items@.map_values(|x: &str| x@), sep),
{
    let ghost all = items@.map_values(|x: &str| x@);
    let mut s = String::new();
    let mut i: usize = 0;
    assert(all.take(0) =~= Seq::<Seq<char>>::empty());
    while i < items.len()
        invariant
            i <= items@.len(),
            all == items@.map_values(|x: &str| x@),
            s@ == joined(all.take(i as int), sep),
        decreases items@.len() - i,
    {
        let ghost before = s@;
        if i > 0 {
            push_char(&mut s, sep);
        }
        append_str(&mut s, items[i]);
        proof {
            let t = all.take(i + 1);
            assert(t.drop_last() =~= all.take(i as int));
            assert(t.last() == items@[i as int]@);
            if i == 0 {
                assert(t.len() == 1 && t[0] == t.last());
            }
            assert(s@ =~= joined(t, sep));
        }
        i += 1;
    }
    assert(all.take(items@.len() as int) =~= all);
    s
}

/// The `ProxyOverride` value: the bypass hosts separated by `;`.
pub fn proxy_override_value() -> (s: String)
    ensures
        s@ == joined(override_entries(), ';'),
{
    join_strs(&override_entry_list(), ';')
}

// ---------------------------------------------------------------------------
// Registry writes
// ---------------------------------------------------------------------------

/// One change to a value of the settings key.
#[derive(Debug)]
pub enum RegistryWrite {
    /// Sets a string value; a failure stops the change with an error.
    SetString { name: &'static str, text: String },
    /// Sets a `DWORD` value; a failure stops the change with an error.
    SetDword { name: &'static str, value: u32 },
    /// Deletes a value; a failure (such as a missing value) is ignored.
    Delete { name: &'static str },
}

/// A registry write as plain values.
pub enum RegistryWriteView {
    SetString(Seq<char>, Seq<char>),
    SetDword(Seq<char>, u32),
    Delete(Seq<char>),
}

impl View for RegistryWrite {
    type V = RegistryWriteView;

    open spec fn view(&self) -> RegistryWriteView {
        match self {
            RegistryWrite::SetString { name, text } => RegistryWriteView::SetString(name@, text@),
            RegistryWrite::SetDword { name, value } => RegistryWriteView::SetDword(name@, *value),
            RegistryWrite::Delete { name } => RegistryWriteView::Delete(name@),
        }
    }
}

/// The plain values of a list of writes.
pub open spec fn writes_view(v: Seq<RegistryWrite>) -> Seq<RegistryWriteView> {
    v.map_values(|w: RegistryWrite| w@)
}

/// `ProxyServer` for a proxy at `addr:port`.
pub open spec fn proxy_server_value(addr: Seq<char>, port: u16) -> Seq<char> {
    addr + seq![':'] + decimal(port as nat)
}

/// Sending all traffic through `addr:port`: the server, the enable flag and
/// the bypass list.
pub open spec fn set_proxy_writes(addr: Seq<char>, port: u16) -> Seq<RegistryWriteView> {
    seq![
        RegistryWriteView::SetString("ProxyServer"@, proxy_server_value(addr, port)),
        RegistryWriteView::SetDword("ProxyEnable"@, 1),
        RegistryWriteView::SetString("ProxyOverride"@, joined(override_entries(), ';')),
    ]
}

/// Turning the proxy off and removing what the other plans set.
pub open spec fn clear_proxy_writes() -> Seq<RegistryWriteView> {
    seq![
        RegistryWriteView::SetDword("ProxyEnable"@, 0),
        RegistryWriteView::Delete("ProxyServer"@),
        RegistryWriteView::Delete("ProxyOverride"@),
        RegistryWriteView::Delete("AutoConfigURL"@),
    ]
}

/// Pointing the system at a PAC script instead of a fixed proxy.
pub open spec fn set_pac_proxy_writes(pac_url: Seq<char>) -> Seq<RegistryWriteView> {
    seq![
        RegistryWriteView::SetString("AutoConfigURL"@, pac_url),
        RegistryWriteView::SetDword("ProxyEnable"@, 0),
        RegistryWriteView::Delete("ProxyServer"@),
        RegistryWriteView::Delete("ProxyOverride"@),
    ]
}

/// Putting back a proxy configuration found before the first change.
pub open spec fn restore_proxy_writes(server: Seq<char>, enable: u32, override_val: Option<
    Seq<char>,
>) -> Seq<RegistryWriteView> {
    let base = seq![
        RegistryWriteView::SetString("ProxyServer"@, server),
        RegistryWriteView::SetDword("ProxyEnable"@, enable),
    ];
    match override_val {
        Some(ov) => base.push(RegistryWriteView::SetString("ProxyOverride"@, ov)),
        None => base,
    }
}

fn set_string(name: &'static str, text: String) -> (w: RegistryWrite)
    ensures
        w@ == RegistryWriteView::SetString(name@, text@),
{
    RegistryWrite::SetString { name, text }
}

/// The writes that send all traffic through `proxy_addr:port`.
pub fn set_proxy_plan(proxy_addr: &str, port: u16) -> (v: Vec<RegistryWrite>)
    ensures
        writes_view(v@) == set_proxy_writes(proxy_addr@, port),
{
    let mut server = String::new();
    append_str(&mut server, proxy_addr);
    push_char(&mut server, ':');
    push_decimal(&mut server, port as u64);
    assert(server@ =~= proxy_server_value(proxy_addr@, port));
    let v = vec![
        set_string("ProxyServer", server),
        RegistryWrite::SetDword { name: "ProxyEnable", value: 1 },
        set_string("ProxyOverride", proxy_override_value()),
    ];
    assert(writes_view(v@) =~= set_proxy_writes(proxy_addr@, port));
    v
}

/// The writes that turn the proxy off.
pub fn clear_proxy_plan() -> (v: Vec<RegistryWrite>)
    ensures
        writes_view(v@) == clear_proxy_writes(),
{
    let v = vec![
        RegistryWrite::SetDword { name: "ProxyEnable", value: 0 },
        RegistryWrite::Delete { name: "ProxyServer" },
        RegistryWrite::Delete { name: "ProxyOverride" },
        RegistryWrite::Delete { name: "AutoConfigURL" },
    ];
    assert(writes_view(v@) =~= clear_proxy_writes());
    v
}

/// The writes that point the system at the PAC script at `pac_url`.
pub fn set_pac_proxy_plan(pac_url: &str) -> (v: Vec<RegistryWrite>)
    ensures
        writes_view(v@) == set_pac_proxy_writes(pac_url@),
{
    let mut url = String::new();
    append_str(&mut url, pac_url);
    let v = vec![
        set_string("AutoConfigURL", url),
        RegistryWrite::SetDword { name: "ProxyEnable", value: 0 },
        RegistryWrite::Delete { name: "ProxyServer" },
        RegistryWrite::Delete { name: "ProxyOverride" },
    ];
    assert(writes_view(v@) =~= set_pac_proxy_writes(pac_url@));
    v
}

/// The writes that restore a proxy configuration.
pub fn restore_proxy_plan(server: &str, enable: u32, override_val: Option<&str>) -> (v: Vec<
    RegistryWrite,
>)
    ensures
        writes_view(v@) == restore_proxy_writes(
            server@,
            enable,
            match override_val {
                Some(ov) => Some(ov@),
                None => None,
            },
        ),
{
    let mut s = String::new();
    append_str(&mut s, server);
    let mut v = vec![
        set_string("ProxyServer", s),
        RegistryWrite::SetDword { name: "ProxyEnable", value: enable },
    ];
    match override_val {
        Some(ov) => {
            let mut o = String::new();
            append_str(&mut o, ov);
            v.push(set_string("ProxyOverride", o));
        },
        None => {},
    }
    assert(writes_view(v@) =~= restore_proxy_writes(
        server@,
        enable,
        match override_val {
            Some(ov) => Some(ov@),
            None => None,
        },
    ));
    v
}

/// The address the system proxy points at: always loopback, since sandboxed
/// store apps may be exempted for loopback only.
pub const LOOPBACK_PROXY_ADDR: &'static str = "127.0.0.1";

/// The registry writes that turn the system proxy on, and whether they
/// point at a PAC script.
pub struct SystemProxyPlan {
    pub writes: Vec<RegistryWrite>,
    pub pac_mode: bool,
}

/// Turning the system proxy on: with a PAC URL the system is pointed at the
/// PAC script, otherwise all traffic goes to `127.0.0.1:port`.
pub fn system_proxy_plan(port: u16, pac_url: Option<&str>) -> (p: SystemProxyPlan)
    ensures
        match pac_url {
            Some(url) => p.pac_mode && writes_view(p.writes@) == set_pac_proxy_writes(url@),
            None => !p.pac_mode && writes_view(p.writes@) == set_proxy_writes(
                LOOPBACK_PROXY_ADDR@,
                port,
            ),
        },
{
    match pac_url {
        Some(url) => SystemProxyPlan { writes: set_pac_proxy_plan(url), pac_mode: true },
        None => SystemProxyPlan { writes: set_proxy_plan(LOOPBACK_PROXY_ADDR, port), pac_mode: false },
    }
}

/// The error text when the settings key cannot be opened: the fixed start,
/// then what the system reported.
pub fn open_key_error(detail: &str) -> (s: String)
    ensures
        s@ == OPEN_KEY_ERROR@ + detail@,
{
    let mut s = String::new();
    append_str(&mut s, OPEN_KEY_ERROR);
    append_str(&mut s, detail);
    s
}

/// The error text when a value cannot be set: `name: detail`.
pub fn value_error(name: &str, detail: &str) -> (s: String)
    ensures
        s@ == name@ + ": "@ + detail@,
{
    let mut s = String::new();
    append_str(&mut s, name);
    append_str(&mut s, ": ");
    append_str(&mut s, detail);
    s
}

// ---------------------------------------------------------------------------
// The settings key as values
// ---------------------------------------------------------------------------

/// A value of the settings key: a string or a `DWORD`.
pub enum RegistryValue {
    Text(Seq<char>),
    Dword(u32),
}

/// The key after one write succeeded. Deleting a value that is not there
/// leaves the key as it was.
pub open spec fn apply_write(
    key: Map<Seq<char>, RegistryValue>,
    w: RegistryWriteView,
) -> Map<Seq<char>, RegistryValue> {
    match w {
        RegistryWriteView::SetString(name, text) => key.insert(name, RegistryValue::Text(text)),
        RegistryWriteView::SetDword(name, value) => key.insert(name, RegistryValue::Dword(value)),
        RegistryWriteView::Delete(name) => key.remove(name),
    }
}

/// The key after the writes `ws` were made in order: what it holds when a
/// plan's function returned `Ok`.
pub open spec fn apply_writes(
    key: Map<Seq<char>, RegistryValue>,
    ws: Seq<RegistryWriteView>,
) -> Map<Seq<char>, RegistryValue>
    decreases ws.len(),
{
    if ws.len() == 0 {
        key
    } else {
        apply_writes(apply_write(key, ws[0]), ws.drop_first())
    }
}

/// Reading a string value: `None` when it is missing or not a string.
pub open spec fn read_string(key: Map<Seq<char>, RegistryValue>, name: Seq<char>) -> Option<
    Seq<char>,
> {
    if key.dom().contains(name) {
        match key[name] {
            RegistryValue::Text(t) => Some(t),
            RegistryValue::Dword(_) => None,
        }
    } else {
        None
    }
}

/// Reading a `DWORD` value: `None` when it is missing or not a `DWORD`.
pub open spec fn read_dword(key: Map<Seq<char>, RegistryValue>, name: Seq<char>) -> Option<u32> {
    if key.dom().contains(name) {
        match key[name] {
            RegistryValue::Dword(d) => Some(d),
            RegistryValue::Text(_) => None,
        }
    } else {
        None
    }
}

proof fn lemma_value_names_differ()
    ensures
        "ProxyServer"@ != "ProxyEnable"@,
        "ProxyServer"@ != "ProxyOverride"@,
        "ProxyServer"@ != "AutoConfigURL"@,
        "ProxyEnable"@ != "ProxyOverride"@,
        "ProxyEnable"@ != "AutoConfigURL"@,
        "ProxyOverride"@ != "AutoConfigURL"@,
{
    reveal_strlit("ProxyServer");
    reveal_strlit("ProxyEnable");
    reveal_strlit("ProxyOverride");
    reveal_strlit("AutoConfigURL");
    assert("ProxyServer"@[5] != "ProxyEnable"@[5]);
    assert("ProxyServer"@.len() != "ProxyOverride"@.len());
    assert("ProxyServer"@.len() != "AutoConfigURL"@.len());
    assert("ProxyEnable"@.len() != "ProxyOverride"@.len());
    assert("ProxyEnable"@.len() != "AutoConfigURL"@.len());
    assert("ProxyOverride"@[0] != "AutoConfigURL"@[0]);
}

/// Clearing the proxy sets `ProxyEnable` to 0, removes `ProxyServer`,
/// `ProxyOverride` and `AutoConfigURL` and leaves every other value as it
/// was; clearing a second time changes nothing more.
pub proof fn lemma_clear_proxy_state(key: Map<Seq<char>, RegistryValue>)
    ensures
        apply_writes(key, clear_proxy_writes()) == key.insert(
            "ProxyEnable"@,
            RegistryValue::Dword(0),
        ).remove("ProxyServer"@).remove("ProxyOverride"@).remove("AutoConfigURL"@),
        read_dword(apply_writes(key, clear_proxy_writes()), "ProxyEnable"@) == Some(0u32),
        read_string(apply_writes(key, clear_proxy_writes()), "ProxyServer"@) is None,
        read_string(apply_writes(key, clear_proxy_writes()), "ProxyOverride"@) is None,
        read_string(apply_writes(key, clear_proxy_writes()), "AutoConfigURL"@) is None,
        apply_writes(apply_writes(key, clear_proxy_writes()), clear_proxy_writes()) == apply_writes(
            key,
            clear_proxy_writes(),
        ),
{
    lemma_value_names_differ();
    let ws = clear_proxy_writes();
    reveal_with_fuel(apply_writes, 5);
    let once = key.insert("ProxyEnable"@, RegistryValue::Dword(0)).remove("ProxyServer"@).remove(
        "ProxyOverride"@,
    ).remove("AutoConfigURL"@);
    assert(ws.drop_first()[0] == RegistryWriteView::Delete("ProxyServer"@));
    assert(ws.drop_first().drop_first()[0] == RegistryWriteView::Delete("ProxyOverride"@));
    assert(ws.drop_first().drop_first().drop_first()[0] == RegistryWriteView::Delete(
        "AutoConfigURL"@,
    ));
    assert(ws.drop_first().drop_first().drop_first().drop_first().len() == 0);
    assert(apply_writes(key, ws) == once);
    let twice = once.insert("ProxyEnable"@, RegistryValue::Dword(0)).remove("ProxyServer"@).remove(
        "ProxyOverride"@,
    ).remove("AutoConfigURL"@);
    assert(apply_writes(once, ws) == twice);
    assert(twice =~= once);
}

/// After a restore, reading the key gives back what was restored: the
/// server, the enable flag and, when one was given, the bypass list (which
/// is otherwise left as it was); every other value is left as it was.
pub proof fn lemma_restore_reads_back(
    key: Map<Seq<char>, RegistryValue>,
    server: Seq<char>,
    enable: u32,
    override_val: Option<Seq<char>>,
)
    ensures
        read_string(apply_writes(key, restore_proxy_writes(server, enable, override_val)), "ProxyServer"@)
            == Some(server),
        read_dword(apply_writes(key, restore_proxy_writes(server, enable, override_val)), "ProxyEnable"@)
            == Some(enable),
        read_string(apply_writes(key, restore_proxy_writes(server, enable, override_val)), "ProxyOverride"@)
            == match override_val {
            Some(ov) => Some(ov),
            None => read_string(key, "ProxyOverride"@),
        },
        forall|name: Seq<char>|
            name != "ProxyServer"@ && name != "ProxyEnable"@ && name != "ProxyOverride"@ ==> (
            #[trigger] apply_writes(key, restore_proxy_writes(server, enable, override_val)).dom().contains(name)
                == key.dom().contains(name) && apply_writes(
                key,
                restore_proxy_writes(server, enable, override_val),
            )[name] == key[name]),
{
    lemma_value_names_differ();
    let ws = restore_proxy_writes(server, enable, override_val);
    reveal_with_fuel(apply_writes, 4);
    let base = key.insert("ProxyServer"@, RegistryValue::Text(server)).insert(
        "ProxyEnable"@,
        RegistryValue::Dword(enable),
    );
    assert(ws.drop_first()[0] == RegistryWriteView::SetDword("ProxyEnable"@, enable));
    match override_val {
        Some(ov) => {
            assert(ws.drop_first().drop_first()[0] == RegistryWriteView::SetString(
                "ProxyOverride"@,
                ov,
            ));
            assert(ws.drop_first().drop_first().drop_first().len() == 0);
            assert(apply_writes(key, ws) == base.insert("ProxyOverride"@, RegistryValue::Text(ov)));
        },
        None => {
            assert(ws.drop_first().drop_first().len() == 0);
            assert(apply_writes(key, ws) == base);
        },
    }
}

/// Sending all traffic through `addr:port` leaves the key reading the
/// server `addr:port`, `ProxyEnable` 1 and the bypass list.
pub proof fn lemma_set_proxy_reads_back(key: Map<Seq<char>, RegistryValue>, addr: Seq<char>, port: u16)
    ensures
        read_string(apply_writes(key, set_proxy_writes(addr, port)), "ProxyServer"@) == Some(
            proxy_server_value(addr, port),
        ),
        read_dword(apply_writes(key, set_proxy_writes(addr, port)), "ProxyEnable"@) == Some(1u32),
        read_string(apply_writes(key, set_proxy_writes(addr, port)), "ProxyOverride"@) == Some(
            joined(override_entries(), ';'),
        ),
{
    lemma_value_names_differ();
    let ws = set_proxy_writes(addr, port);
    reveal_with_fuel(apply_writes, 4);
    assert(ws.drop_first()[0] == RegistryWriteView::SetDword("ProxyEnable"@, 1));
    assert(ws.drop_first().drop_first()[0] == RegistryWriteView::SetString(
        "ProxyOverride"@,
        joined(override_entries(), ';'),
    ));
    assert(ws.drop_first().drop_first().drop_first().len() == 0);
}

/// Pointing the system at a PAC script leaves the key reading that URL,
/// `ProxyEnable` 0, and no fixed server or bypass list.
pub proof fn lemma_set_pac_proxy_reads_back(key: Map<Seq<char>, RegistryValue>, url: Seq<char>)
    ensures
        read_string(apply_writes(key, set_pac_proxy_writes(url)), "AutoConfigURL"@) == Some(url),
        read_dword(apply_writes(key, set_pac_proxy_writes(url)), "ProxyEnable"@) == Some(0u32),
        read_string(apply_writes(key, set_pac_proxy_writes(url)), "ProxyServer"@) is None,
        read_string(apply_writes(key, set_pac_proxy_writes(url)), "ProxyOverride"@) is None,
{
    lemma_value_names_differ();
    let ws = set_pac_proxy_writes(url);
    reveal_with_fuel(apply_writes, 5);
    assert(ws.drop_first()[0] == RegistryWriteView::SetDword("ProxyEnable"@, 0));
    assert(ws.drop_first().drop_first()[0] == RegistryWriteView::Delete("ProxyServer"@));
    assert(ws.drop_first().drop_first().drop_first()[0] == RegistryWriteView::Delete(
        "ProxyOverride"@,
    ));
    assert(ws.drop_first().drop_first().drop_first().drop_first().len() == 0);
}

// ---------------------------------------------------------------------------
// Backup and restore of the settings found before the first change
// ---------------------------------------------------------------------------

/// The proxy settings found before the application changed them.
#[derive(Debug)]
pub struct OriginalProxySettings {
    pub proxy_enable: Option<u32>,
    pub proxy_server: Option<String>,
    pub proxy_override: Option<String>,
}

/// Keeps the first backup: a backup already held is never overwritten.
pub fn record_backup(store: &mut Option<OriginalProxySettings>, settings: OriginalProxySettings)
    ensures
        *old(store) is None ==> *final(store) == Some(settings),
        *old(store) is Some ==> *final(store) == *old(store),
{
    if store.is_none() {
        *store = Some(settings);
    }
}

/// A proxy configuration to put back.
#[derive(Debug)]
pub struct ProxyRestore {
    pub server: String,
    pub enable: u32,
    pub override_val: Option<String>,
}

/// The character view of an optional string.
pub open spec fn opt_view(o: Option<String>) -> Option<Seq<char>> {
    match o {
        Some(s) => Some(s@),
        None => None,
    }
}

/// A backup is put back when it holds a non-empty proxy server that is not
/// the application's own loopback proxy (`127.0.0.1:...`).
pub open spec fn backup_restores(original: Option<OriginalProxySettings>) -> bool {
    &&& original matches Some(o)
    &&& o.proxy_server matches Some(server)
    &&& server@.len() > 0
    &&& !starts_with(server@, "127.0.0.1:"@)
}

/// A backup is put back exactly when it holds a proxy server that is not
/// empty and does not start with `127.0.0.1:`; its `ProxyEnable` and its
/// bypass list play no part, so a configured but disabled proxy is put back
/// too.
pub proof fn lemma_restore_depends_on_server_only(
    o: OriginalProxySettings,
    enable: Option<u32>,
    override_val: Option<String>,
)
    ensures
        backup_restores(Some(o)) <==> (o.proxy_server matches Some(s) && s@.len() > 0
            && !(s@.len() >= 10 && s@.subrange(0, 10) == "127.0.0.1:"@)),
        backup_restores(Some(o)) == backup_restores(
            Some(
                OriginalProxySettings {
                    proxy_enable: enable,
                    proxy_server: o.proxy_server,
                    proxy_override: override_val,
                },
            ),
        ),
        !backup_restores(None),
{
    reveal_strlit("127.0.0.1:");
}

fn copy_string(s: &String) -> (r: String)
    ensures
        r@ == s@,
{
    let mut r = String::new();
    append_str(&mut r, s.as_str());
    r
}

/// What to put back from the backup `original`, if anything: the saved
/// server, the saved enable flag (0 when none was saved) and the saved
/// bypass list.
pub fn restore_plan(original: &Option<OriginalProxySettings>) -> (r: Option<ProxyRestore>)
    ensures
        r is Some <==> backup_restores(*original),
        r matches Some(p) ==> {
            let o = original->0;
            &&& p.server@ == (o.proxy_server->0)@
            &&& p.enable == match o.proxy_enable {
                Some(e) => e,
                None => 0,
            }
            &&& opt_view(p.override_val) == opt_view(o.proxy_override)
        },
{
    match original {
        Some(o) => match &o.proxy_server {
            Some(server) => {
                let cs = chars_of(server.as_str());
                let own = chars_of("127.0.0.1:");
                if cs.len() > 0 && !matches_at(&cs, &own, 0) {
                    let enable = match o.proxy_enable {
                        Some(e) => e,
                        None => 0,
                    };
                    let override_val = match &o.proxy_override {
                        Some(ov) => Some(copy_string(ov)),
                        None => None,
                    };
                    Some(ProxyRestore { server: copy_string(server), enable, override_val })
                } else {
                    None
                }
            },
            None => None,
        },
        None => None,
    }
}

} // verus!
