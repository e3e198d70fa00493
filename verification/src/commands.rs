//! The argument lists of the system commands the application runs, and the
//! decisions around them: firewall rules, the WinHTTP proxy, the sentinel
//! file, the sidecar's PID file, the DNS latency probe and the driver
//! installer.

use vstd::prelude::*;

use crate::netif::Ipv4;
use crate::text::{
    append_str, chars_equal, chars_of, decimal, digit_char, is_white_space, push_char,
    push_decimal, trim, trimmed,
};

verus! {

/// Owned copy of a string slice.
pub fn owned(s: &str) -> (r: String)
    ensures
        r@ == s@,
{
    let mut r = String::new();
    append_str(&mut r, s);
    r
}

/// The character sequences of a list of arguments.
pub open spec fn args_view(v: Seq<String>) -> Seq<Seq<char>> {
    v.map_values(|a: String| a@)
}

/// The character sequences of a list of commands.
pub open spec fn commands_view(v: Seq<Vec<String>>) -> Seq<Seq<Seq<char>>> {
    v.map_values(|c: Vec<String>| args_view(c@))
}

// ---------------------------------------------------------------------------
// Firewall rules
// ---------------------------------------------------------------------------

/// `netsh` arguments that delete the firewall rule `name` (`name=...`).
pub open spec fn delete_rule_args(name: Seq<char>) -> Seq<Seq<char>> {
    seq!["advfirewall"@, "firewall"@, "delete"@, "rule"@, name]
}

/// `netsh` arguments that allow inbound TCP on `port` under rule `name`.
pub open spec fn add_rule_args(name: Seq<char>, port: u16) -> Seq<Seq<char>> {
    seq![
        "advfirewall"@,
        "firewall"@,
        "add"@,
        "rule"@,
        name,
        "dir=in"@,
        "action=allow"@,
        "protocol=TCP"@,
        "localport="@ + decimal(port as nat),
    ]
}

/// The `netsh` commands that manage the firewall: both rules are always
/// deleted first; when `enable`, they are added again for the proxy port
/// and the PAC port.
pub open spec fn firewall_commands(enable: bool, proxy_port: u16, pac_port: u16) -> Seq<
    Seq<Seq<char>>,
> {
    let deletes = seq![
        delete_rule_args("name=XzualDPI_Proxy"@),
        delete_rule_args("name=XzualDPI_PAC"@),
    ];
    if enable {
        deletes.push(add_rule_args("name=XzualDPI_Proxy"@, proxy_port)).push(
            add_rule_args("name=XzualDPI_PAC"@, pac_port),
        )
    } else {
        deletes
    }
}

/// An added firewall rule: `netsh advfirewall firewall add rule name=...
/// dir=in action=allow protocol=TCP localport=<port>`.
pub open spec fn opens_tcp_port(cmd: Seq<Seq<char>>, name: Seq<char>, port: u16) -> bool {
    &&& cmd.len() == 9
    &&& cmd[0] == "advfirewall"@
    &&& cmd[1] == "firewall"@
    &&& cmd[2] == "add"@
    &&& cmd[3] == "rule"@
    &&& cmd[4] == name
    &&& cmd[5] == "dir=in"@
    &&& cmd[6] == "action=allow"@
    &&& cmd[7] == "protocol=TCP"@
    &&& cmd[8] == "localport="@ + decimal(port as nat)
}

/// A deleted firewall rule: `netsh advfirewall firewall delete rule name=...`.
pub open spec fn removes_rule(cmd: Seq<Seq<char>>, name: Seq<char>) -> bool {
    cmd == seq!["advfirewall"@, "firewall"@, "delete"@, "rule"@, name]
}

/// Both rules are always removed first, the proxy's then the PAC server's.
/// Enabling then adds exactly two rules, each allowing inbound TCP on its
/// port: the proxy rule on the proxy port and the PAC rule on the PAC port;
/// the two differ only in their name and port. Disabling adds nothing.
pub proof fn lemma_firewall_opens_both_tcp_ports(enable: bool, proxy_port: u16, pac_port: u16)
    ensures
        ({
            let c = firewall_commands(enable, proxy_port, pac_port);
            &&& c.len() == if enable {
                4int
            } else {
                2int
            }
            &&& removes_rule(c[0], "name=XzualDPI_Proxy"@)
            &&& removes_rule(c[1], "name=XzualDPI_PAC"@)
            &&& enable ==> opens_tcp_port(c[2], "name=XzualDPI_Proxy"@, proxy_port)
            &&& enable ==> opens_tcp_port(c[3], "name=XzualDPI_PAC"@, pac_port)
            &&& enable ==> c[2].update(4, c[3][4]).update(8, c[3][8]) == c[3]
        }),
{
    let c = firewall_commands(enable, proxy_port, pac_port);
    if enable {
        assert(c[2].update(4, c[3][4]).update(8, c[3][8]) =~= c[3]);
    }
}

fn delete_rule(name: &str) -> (v: Vec<String>)
    ensures
        args_view(v@) == delete_rule_args(name@),
{
    let v = vec![owned("advfirewall"), owned("firewall"), owned("delete"), owned("rule"), owned(name)];
    assert(args_view(v@) =~= delete_rule_args(name@));
    v
}

fn add_rule(name: &str, port: u16) -> (v: Vec<String>)
    ensures
        args_view(v@) == add_rule_args(name@, port),
{
    let mut local = owned("localport=");
    push_decimal(&mut local, port as u64);
    let v = vec![
        owned("advfirewall"),
        owned("firewall"),
        owned("add"),
        owned("rule"),
        owned(name),
        owned("dir=in"),
        owned("action=allow"),
        owned("protocol=TCP"),
        local,
    ];
    assert(args_view(v@) =~= add_rule_args(name@, port));
    v
}

/// The `netsh` argument lists that reset, and when `enable` open, the
/// firewall rules of the proxy and the PAC server.
pub fn firewall_commands_for(enable: bool, proxy_port: u16, pac_port: u16) -> (v: Vec<
    Vec<String>,
>)
    ensures
        commands_view(v@) == firewall_commands(enable, proxy_port, pac_port),
{
    let mut v: Vec<Vec<String>> = Vec::new();
    v.push(delete_rule("name=XzualDPI_Proxy"));
    v.push(delete_rule("name=XzualDPI_PAC"));
    if enable {
        v.push(add_rule("name=XzualDPI_Proxy", proxy_port));
        v.push(add_rule("name=XzualDPI_PAC", pac_port));
    }
    assert(commands_view(v@) =~= firewall_commands(enable, proxy_port, pac_port));
    v
}

// ---------------------------------------------------------------------------
// The system proxy
// ---------------------------------------------------------------------------

/// The error when the settings key cannot be written.
pub const NO_REGISTRY_ACCESS: &'static str = "Registry yazma izni yok. UygulamayÄ± yÃ¶netici olarak Ã§alÄ±ÅŸtÄ±rÄ±n.";

/// Start of the error when pointing the system at the PAC script failed.
pub const PAC_REGISTRY_FAILED: &'static str = "PAC Registry gÃ¼ncelleme baÅŸarÄ±sÄ±z: ";

/// Start of the error when setting the proxy failed (and was undone).
pub const PROXY_REGISTRY_FAILED: &'static str = "Registry gÃ¼ncelleme baÅŸarÄ±sÄ±z, geri alÄ±ndÄ±: ";

/// Start of the WinHTTP bypass argument, before the proxy address.
pub const WINHTTP_BYPASS_START: &'static str = "bypass-list=\"<local>;";

/// End of the WinHTTP bypass argument, after the proxy address.
pub const WINHTTP_BYPASS_END: &'static str = ";*.steamcontent.com;*.steamstatic.com;*.cm.steampowered.com;*.epicgames.com;*.unrealengine.com;*.riotgames.com;*.leagueoflegends.com;*.ea.com;*.origin.com;*.blizzard.com;*.battle.net;*.ubisoft.com;*.ubi.com;*.xboxlive.com;*.xbox.com;*.microsoft.com;*.cachefly.net;*.msftconnecttest.com;*.windowsupdate.com\"";

/// `PAC_REGISTRY_FAILED` followed by what went wrong.
pub fn pac_registry_error(detail: &str) -> (s: String)
    ensures
        s@ == PAC_REGISTRY_FAILED@ + detail@,
{
    let mut s = owned(PAC_REGISTRY_FAILED);
    append_str(&mut s, detail);
    s
}

/// `PROXY_REGISTRY_FAILED` followed by what went wrong.
pub fn proxy_registry_error(detail: &str) -> (s: String)
    ensures
        s@ == PROXY_REGISTRY_FAILED@ + detail@,
{
    let mut s = owned(PROXY_REGISTRY_FAILED);
    append_str(&mut s, detail);
    s
}

/// `netsh` arguments that set the WinHTTP proxy to `addr:port`, bypassing
/// local names, the proxy itself and the launcher hosts.
pub open spec fn winhttp_proxy_args(addr: Seq<char>, port: u16) -> Seq<Seq<char>> {
    seq![
        "winhttp"@,
        "set"@,
        "proxy"@,
        addr + seq![':'] + decimal(port as nat),
        WINHTTP_BYPASS_START@ + addr + WINHTTP_BYPASS_END@,
    ]
}

/// The `netsh` argument list that sets the WinHTTP proxy.
pub fn winhttp_set_proxy_args(addr: &str, port: u16) -> (v: Vec<String>)
    ensures
        args_view(v@) == winhttp_proxy_args(addr@, port),
{
    let mut server = owned(addr);
    push_char(&mut server, ':');
    push_decimal(&mut server, port as u64);
    let mut bypass = owned(WINHTTP_BYPASS_START);
    append_str(&mut bypass, addr);
    append_str(&mut bypass, WINHTTP_BYPASS_END);
    assert(server@ =~= addr@ + seq![':'] + decimal(port as nat));
    assert(bypass@ =~= WINHTTP_BYPASS_START@ + addr@ + WINHTTP_BYPASS_END@);
    let v = vec![owned("winhttp"), owned("set"), owned("proxy"), server, bypass];
    assert(args_view(v@) =~= winhttp_proxy_args(addr@, port));
    v
}

/// The sentinel file's text while the proxy is active: `port=<port>`.
pub fn sentinel_contents(port: u16) -> (s: String)
    ensures
        s@ == "port="@ + decimal(port as nat),
{
    let mut s = owned("port=");
    push_decimal(&mut s, port as u64);
    s
}

// ---------------------------------------------------------------------------
// The sidecar's PID file
// ---------------------------------------------------------------------------

/// The message when a leftover sidecar was stopped: start of the text.
pub const ZOMBIE_STOPPED_START: &'static str = "Zombi sÃ¼reÃ§ (PID ";

/// The message when a leftover sidecar was stopped: end of the text.
pub const ZOMBIE_STOPPED_END: &'static str = ") durduruldu.";

/// The message when no leftover sidecar was found or stopped.
pub const ZOMBIE_NOT_FOUND: &'static str = "Zombi PID dosyasÄ± bulunamadÄ±.";

/// The message on systems where leftover sidecars are not looked for.
pub const ZOMBIE_UNSUPPORTED: &'static str = "Zombi temizleme sadece Windows'ta desteklenir.";

/// An ASCII decimal digit.
pub open spec fn is_digit(c: char) -> bool {
    48 <= (c as u32) <= 57
}

/// The number that the digits `d` denote.
pub open spec fn digits_value(d: Seq<char>) -> nat
    decreases d.len(),
{
    if d.len() == 0 {
        0
    } else {
        digits_value(d.drop_last()) * 10 + ((d.last() as u32) - 48) as nat
    }
}

/// `s` without one leading `+`.
pub open spec fn unsigned_digits(s: Seq<char>) -> Seq<char> {
    if s.len() > 0 && s[0] == '+' {
        s.drop_first()
    } else {
        s
    }
}

/// The value of `d` when it is one or more ASCII digits whose value fits in
/// 32 bits.
pub open spec fn digits_u32(d: Seq<char>) -> Option<u32> {
    if d.len() > 0 && (forall|i: int| 0 <= i < d.len() ==> is_digit(#[trigger] d[i]))
        && digits_value(d) <= u32::MAX {
        Some(digits_value(d) as u32)
    } else {
        None
    }
}

/// `u32::from_str`: an optional `+`, then one or more ASCII digits whose
/// value fits in 32 bits.
pub open spec fn parse_u32(s: Seq<char>) -> Option<u32> {
    digits_u32(unsigned_digits(s))
}

/// The PID recorded in the PID file: its trimmed text read as a `u32`, when
/// that is not zero.
pub open spec fn recorded_pid(contents: Seq<char>) -> Option<u32> {
    match parse_u32(trim(contents)) {
        Some(p) => if p > 0 {
            Some(p)
        } else {
            None
        },
        None => None,
    }
}

proof fn lemma_digits_value_grows(d: Seq<char>, k: int)
    requires
        0 <= k <= d.len(),
        forall|i: int| 0 <= i < d.len() ==> is_digit(#[trigger] d[i]),
    ensures
        digits_value(d.take(k)) <= digits_value(d),
    decreases d.len() - k,
{
    if k < d.len() {
        assert(d.take(k + 1).drop_last() =~= d.take(k));
        assert(is_digit(d.take(k + 1).last()));
        lemma_digits_value_grows(d, k + 1);
    } else {
        assert(d.take(k) =~= d);
    }
}

fn digits_to_u32(d: &Vec<char>) -> (r: Option<u32>)
    ensures
        r == digits_u32(d@),
{
    if d.len() == 0 {
        return None;
    }
    let mut i: usize = 0;
    let mut acc: u64 = 0;
    assert(d@.take(0) =~= Seq::<char>::empty());
    while i < d.len()
        invariant
            i <= d@.len(),
            acc == digits_value(d@.take(i as int)),
            acc <= u32::MAX,
            forall|j: int| 0 <= j < i ==> is_digit(#[trigger] d@[j]),
        decreases d@.len() - i,
    {
        let c = d[i];
        let u = c as u32;
        if u < 48 || u > 57 {
            assert(!is_digit(d@[i as int]));
            return None;
        }
        assert(d@.take(i + 1).drop_last() =~= d@.take(i as int));
        let next = acc * 10 + (u - 48) as u64;
        if next > 0xFFFF_FFFF {
            proof {
                if forall|j: int| 0 <= j < d@.len() ==> is_digit(#[trigger] d@[j]) {
                    lemma_digits_value_grows(d@, i + 1);
                }
            }
            return None;
        }
        acc = next;
        i += 1;
    }
    assert(d@.take(d@.len() as int) =~= d@);
    Some(acc as u32)
}

/// The PID of a leftover sidecar recorded in the PID file's text, if any.
pub fn parse_recorded_pid(contents: &str) -> (r: Option<u32>)
    ensures
        r == recorded_pid(contents@),
{
    let t = trimmed(&chars_of(contents));
    let digits = if t.len() > 0 && t[0] == '+' {
        crate::text::sub_chars(&t, 1, t.len())
    } else {
        crate::text::sub_chars(&t, 0, t.len())
    };
    proof {
        if t@.len() > 0 && t@[0] == '+' {
            assert(digits@ =~= t@.drop_first());
        } else {
            assert(digits@ =~= t@);
        }
        assert(digits@ == unsigned_digits(t@));
    }
    assert(t@ == trim(contents@));
    let r = digits_to_u32(&digits);
    assert(r == parse_u32(trim(contents@)));
    match r {
        Some(p) => if p > 0 {
            Some(p)
        } else {
            None
        },
        None => None,
    }
}

/// The PID file's text for `pid` (`u32::to_string`).
pub fn pid_file_contents(pid: u32) -> (s: String)
    ensures
        s@ == decimal(pid as nat),
{
    crate::text::decimal_string(pid as u64)
}

proof fn lemma_digit_char(k: int)
    requires
        0 <= k < 10,
    ensures
        is_digit(digit_char(k)),
        digit_char(k) as u32 == 48 + k,
{
    assert('0' as u32 == 48);
    assert('1' as u32 == 49);
    assert('2' as u32 == 50);
    assert('3' as u32 == 51);
    assert('4' as u32 == 52);
    assert('5' as u32 == 53);
    assert('6' as u32 == 54);
    assert('7' as u32 == 55);
    assert('8' as u32 == 56);
    assert('9' as u32 == 57);
}

proof fn lemma_decimal_digits(n: nat)
    ensures
        decimal(n).len() > 0,
        forall|i: int| 0 <= i < decimal(n).len() ==> is_digit(#[trigger] decimal(n)[i]),
        digits_value(decimal(n)) == n,
    decreases n,
{
    if n < 10 {
        lemma_digit_char(n as int);
        assert(decimal(n).drop_last() =~= Seq::<char>::empty());
        assert(digits_value(decimal(n).drop_last()) == 0);
        assert(decimal(n).last() == digit_char(n as int));
    } else {
        lemma_decimal_digits(n / 10);
        lemma_digit_char((n % 10) as int);
        let d = decimal(n);
        assert(d.drop_last() =~= decimal(n / 10));
        assert(d.last() == digit_char((n % 10) as int));
        assert(digits_value(d) == digits_value(decimal(n / 10)) * 10 + (n % 10));
        assert((n / 10) * 10 + n % 10 == n);
        assert forall|i: int| 0 <= i < d.len() implies is_digit(#[trigger] d[i]) by {
            if i < d.len() - 1 {
                assert(d[i] == decimal(n / 10)[i]);
            }
        }
    }
}

proof fn lemma_digits_trimmed(d: Seq<char>)
    requires
        forall|i: int| 0 <= i < d.len() ==> is_digit(#[trigger] d[i]),
    ensures
        trim(d) == d,
{
    if d.len() > 0 {
        assert(is_digit(d[0]) && is_digit(d.last()));
    }
}

/// What is written to the PID file is read back as the same PID: for every
/// non-zero PID, reading `pid_file_contents(pid)` gives `pid`.
pub proof fn lemma_pid_file_roundtrip(pid: u32)
    requires
        pid > 0,
    ensures
        recorded_pid(decimal(pid as nat)) == Some(pid),
{
    let d = decimal(pid as nat);
    lemma_decimal_digits(pid as nat);
    lemma_digits_trimmed(d);
    assert(is_digit(d[0]));
}

/// `taskkill` arguments that stop the process `pid`.
pub fn taskkill_args(pid: u32) -> (v: Vec<String>)
    ensures
        args_view(v@) == seq!["/F"@, "/PID"@, decimal(pid as nat)],
{
    let v = vec![owned("/F"), owned("/PID"), pid_file_contents(pid)];
    assert(args_view(v@) =~= seq!["/F"@, "/PID"@, decimal(pid as nat)]);
    v
}

/// The outcome of looking for a leftover sidecar: `stopped` is the PID when
/// one was found and stopped.
pub fn zombie_report(stopped: Option<u32>) -> (s: String)
    ensures
        stopped matches Some(p) ==> s@ == ZOMBIE_STOPPED_START@ + decimal(p as nat)
            + ZOMBIE_STOPPED_END@,
        stopped is None ==> s@ == ZOMBIE_NOT_FOUND@,
{
    match stopped {
        Some(p) => {
            let mut s = owned(ZOMBIE_STOPPED_START);
            push_decimal(&mut s, p as u64);
            append_str(&mut s, ZOMBIE_STOPPED_END);
            s
        },
        None => owned(ZOMBIE_NOT_FOUND),
    }
}

// ---------------------------------------------------------------------------
// DNS latency probe
// ---------------------------------------------------------------------------

/// The error for a DNS address that is not an IP address.
pub const INVALID_DNS_ADDRESS: &'static str = "Geçersiz IP adresi";

/// The error for a DNS address on a local network.
pub const LOCAL_DNS_REFUSED: &'static str = "Güvenlik nedeniyle yerel ağ taraması yapılamaz.";

/// The address a DNS server string denotes, as far as the probe needs it.
#[derive(PartialEq, Eq, Structural, Debug, Clone, Copy)]
pub enum IpKind {
    V4(Ipv4),
    V6,
}

/// `10.0.0.0/8`, `172.16.0.0/12` and `192.168.0.0/16`
/// (`Ipv4Addr::is_private`).
pub open spec fn is_private(ip: Ipv4) -> bool {
    ||| ip.a == 10
    ||| ip.a == 172 && 16 <= ip.b <= 31
    ||| ip.a == 192 && ip.b == 168
}

/// Loopback, private or link-local: addresses that must not be probed.
pub open spec fn is_local_network(ip: Ipv4) -> bool {
    crate::netif::is_loopback(ip) || is_private(ip) || crate::netif::is_link_local(ip)
}

/// Public resolvers that may be probed whatever their address says.
pub open spec fn known_resolvers() -> Seq<Seq<char>> {
    seq!["1.1.1.1"@, "8.8.8.8"@, "9.9.9.9"@, "94.140.14.14"@, "208.67.222.222"@]
}

/// Whether the DNS server `dns_ip`, parsed as `parsed`, may be probed: the
/// error text when it may not.
pub open spec fn dns_probe_check(dns_ip: Seq<char>, parsed: Option<IpKind>) -> Result<
    (),
    Seq<char>,
> {
    match parsed {
        None => Err(INVALID_DNS_ADDRESS@),
        Some(IpKind::V4(ip)) => if is_local_network(ip) && !known_resolvers().contains(dns_ip) {
            Err(LOCAL_DNS_REFUSED@)
        } else {
            Ok(())
        },
        Some(IpKind::V6) => Ok(()),
    }
}

/// Decides whether the DNS server `dns_ip` may be probed, given what parsing
/// `"<dns_ip>:53"` as a socket address gave (`None`: not an address).
pub fn check_dns_target(dns_ip: &str, parsed: Option<IpKind>) -> (r: Result<(), String>)
    ensures
        match dns_probe_check(dns_ip@, parsed) {
            Ok(()) => r is Ok,
            Err(e) => r matches Err(s) && s@ == e,
        },
{
    match parsed {
        None => Err(owned(INVALID_DNS_ADDRESS)),
        Some(IpKind::V4(ip)) => {
            let local = ip.a == 127 || (ip.a == 10 || (ip.a == 172 && 16 <= ip.b && ip.b <= 31) || (
            ip.a == 192 && ip.b == 168)) || (ip.a == 169 && ip.b == 254);
            if local {
                let name = chars_of(dns_ip);
                let known = vec!["1.1.1.1", "8.8.8.8", "9.9.9.9", "94.140.14.14", "208.67.222.222"];
                assert(known@.map_values(|s: &str| s@) =~= known_resolvers());
                let mut i: usize = 0;
                while i < known.len()
                    invariant
                        parsed == Some(IpKind::V4(ip)),
                        local == is_local_network(ip),
                        local,
                        i <= known@.len(),
                        known@.map_values(|s: &str| s@) == known_resolvers(),
                        name@ == dns_ip@,
                        forall|j: int| 0 <= j < i ==> known_resolvers()[j] != dns_ip@,
                    decreases known@.len() - i,
                {
                    assert(known_resolvers()[i as int] == known@[i as int]@);
                    if chars_equal(&name, &chars_of(known[i])) {
                        assert(known_resolvers()[i as int] == dns_ip@);
                        assert(known_resolvers().contains(dns_ip@));
                        return Ok(());
                    }
                    i += 1;
                }
                assert(!known_resolvers().contains(dns_ip@));
                Err(owned(LOCAL_DNS_REFUSED))
            } else {
                Ok(())
            }
        },
        Some(IpKind::V6) => Ok(()),
    }
}

/// The latency reported for a probe: the elapsed milliseconds (truncated to
/// 32 bits) when the connection succeeded, 999 when it failed or timed out.
pub fn probe_latency(connected: bool, elapsed_ms: u128) -> (ms: u32)
    ensures
        connected ==> ms == elapsed_ms % 0x1_0000_0000,
        !connected ==> ms == 999,
{
    if connected {
        let r = elapsed_ms as u32;
        assert(r == elapsed_ms % 0x1_0000_0000) by (bit_vector)
            requires
                r == elapsed_ms as u32,
        ;
        r
    } else {
        999
    }
}

// ---------------------------------------------------------------------------
// The capture driver
// ---------------------------------------------------------------------------

/// The error when the bundled driver installer is missing.
pub const DRIVER_INSTALLER_MISSING: &'static str = "SÃ¼rÃ¼cÃ¼ dosyasÄ± bulunamadÄ±. LÃ¼tfen uygulamayÄ± yeniden yÃ¼kleyin.";

/// The error when the driver installer was cancelled or failed.
pub const DRIVER_INSTALL_FAILED: &'static str = "Kurulum kullanÄ±cÄ± tarafÄ±ndan iptal edildi veya baÅŸarÄ±sÄ±z oldu.";

/// The outcome of running the driver installer.
pub fn driver_install_result(success: bool) -> (r: Result<(), String>)
    ensures
        success ==> r is Ok,
        !success ==> (r matches Err(e) && e@ == DRIVER_INSTALL_FAILED@),
{
    if success {
        Ok(())
    } else {
        Err(owned(DRIVER_INSTALL_FAILED))
    }
}

} // verus!
