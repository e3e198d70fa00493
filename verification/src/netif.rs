//! Choosing the LAN address that devices should use to reach the proxy,
//! skipping loopback, link-local and virtual adapters.

use vstd::prelude::*;

use crate::text::{append_str, chars_of, contains, contains_chars, decimal, push_char, push_decimal};

verus! {

/// An IPv4 address by its four octets, most significant first.
#[derive(PartialEq, Eq, Structural, Debug, Clone, Copy)]
pub struct Ipv4 {
    pub a: u8,
    pub b: u8,
    pub c: u8,
    pub d: u8,
}

/// A network interface as the operating system lists it: its name and, for
/// an IPv4 interface, its address (`None` for any other family).
pub struct NetInterface {
    pub name: String,
    pub ipv4: Option<Ipv4>,
}

/// `127.0.0.0/8` (`Ipv4Addr::is_loopback`).
pub open spec fn is_loopback(ip: Ipv4) -> bool {
    ip.a == 127
}

/// `169.254.0.0/16` (`Ipv4Addr::is_link_local`).
pub open spec fn is_link_local(ip: Ipv4) -> bool {
    ip.a == 169 && ip.b == 254
}

/// Address ranges that virtual adapters use by default: VirtualBox
/// host-only `192.168.56.x`, VMware NAT `192.168.190.x` and above, the Docker
/// bridge `172.17.x.x`, Hamachi `25.x.x.x` and APIPA `169.254.x.x`.
pub open spec fn in_virtual_range(ip: Ipv4) -> bool {
    ||| ip.a == 192 && ip.b == 168 && ip.c == 56
    ||| ip.a == 192 && ip.b == 168 && ip.c >= 190
    ||| ip.a == 172 && ip.b == 17
    ||| ip.a == 25
    ||| ip.a == 169 && ip.b == 254
}

/// Whether `ip` lies in an address range of virtual adapters.
pub fn is_virtual_ip_range(ip: &Ipv4) -> (b: bool)
    ensures
        b == in_virtual_range(*ip),
{
    (ip.a == 192 && ip.b == 168 && ip.c == 56) || (ip.a == 192 && ip.b == 168 && ip.c >= 190) || (
    ip.a == 172 && ip.b == 17) || ip.a == 25 || (ip.a == 169 && ip.b == 254)
}

/// Words whose presence in a lower-cased adapter name marks a virtual
/// adapter.
pub open spec fn virtual_keywords() -> Seq<Seq<char>> {
    seq![
        "virtual"@, "vmware"@, "vmnet"@, "vbox"@, "virtualbox"@, "pseudo"@, "hamachi"@, "vpn"@,
        "vethernet"@, "loopback"@, "docker"@, "wsl"@, "hyper-v"@, "bluetooth"@, "teredo"@,
        "isatap"@, "6to4"@, "tap-"@, "tun"@, "warp"@, "tailscale"@, "zerotier"@, "nordlynx"@,
        "wireguard"@, "proton"@, "mullvad"@, "windscribe"@, "surfshark"@, "host-only"@,
        "hostonly"@, "vEthernet"@, "npcap"@, "miniport"@,
    ]
}

fn keyword_list() -> (v: Vec<&'static str>)
    ensures
        v@.map_values(|s: &str| s@) == virtual_keywords(),
{
    let v = vec![
        "virtual",
        "vmware",
        "vmnet",
        "vbox",
        "virtualbox",
        "pseudo",
        "hamachi",
        "vpn",
        "vethernet",
        "loopback",
        "docker",
        "wsl",
        "hyper-v",
        "bluetooth",
        "teredo",
        "isatap",
        "6to4",
        "tap-",
        "tun",
        "warp",
        "tailscale",
        "zerotier",
        "nordlynx",
        "wireguard",
        "proton",
        "mullvad",
        "windscribe",
        "surfshark",
        "host-only",
        "hostonly",
        "vEthernet",
        "npcap",
        "miniport",
    ];
    assert(v@.map_values(|s: &str| s@) =~= virtual_keywords());
    v
}

/// A lower-cased adapter name marks a virtual adapter when one of the
/// keywords stands in it.
pub open spec fn is_virtual_name(lowered: Seq<char>) -> bool {
    exists|i: int| 0 <= i < virtual_keywords().len() && contains(lowered, virtual_keywords()[i])
}

/// The name marks a virtual adapter exactly when one of these words stands
/// in it.
pub open spec fn names_virtual_word(lowered: Seq<char>) -> bool {
        ||| contains(lowered, "virtual"@)
        ||| contains(lowered, "vmware"@)
        ||| contains(lowered, "vmnet"@)
        ||| contains(lowered, "vbox"@)
        ||| contains(lowered, "virtualbox"@)
        ||| contains(lowered, "pseudo"@)
        ||| contains(lowered, "hamachi"@)
        ||| contains(lowered, "vpn"@)
        ||| contains(lowered, "vethernet"@)
        ||| contains(lowered, "loopback"@)
        ||| contains(lowered, "docker"@)
        ||| contains(lowered, "wsl"@)
        ||| contains(lowered, "hyper-v"@)
        ||| contains(lowered, "bluetooth"@)
        ||| contains(lowered, "teredo"@)
        ||| contains(lowered, "isatap"@)
        ||| contains(lowered, "6to4"@)
        ||| contains(lowered, "tap-"@)
        ||| contains(lowered, "tun"@)
        ||| contains(lowered, "warp"@)
        ||| contains(lowered, "tailscale"@)
        ||| contains(lowered, "zerotier"@)
        ||| contains(lowered, "nordlynx"@)
        ||| contains(lowered, "wireguard"@)
        ||| contains(lowered, "proton"@)
        ||| contains(lowered, "mullvad"@)
        ||| contains(lowered, "windscribe"@)
        ||| contains(lowered, "surfshark"@)
        ||| contains(lowered, "host-only"@)
        ||| contains(lowered, "hostonly"@)
        ||| contains(lowered, "vEthernet"@)
        ||| contains(lowered, "npcap"@)
        ||| contains(lowered, "miniport"@)
}

/// A lower-cased adapter name is taken for a virtual adapter exactly when
/// it contains one of the words `virtual`, `vmware`, `vmnet`, `vbox`,
/// `virtualbox`, `pseudo`, `hamachi`, `vpn`, `vethernet`, `loopback`,
/// `docker`, `wsl`, `hyper-v`, `bluetooth`, `teredo`, `isatap`, `6to4`,
/// `tap-`, `tun`, `warp`, `tailscale`, `zerotier`, `nordlynx`, `wireguard`,
/// `proton`, `mullvad`, `windscribe`, `surfshark`, `host-only`, `hostonly`,
/// `vEthernet`, `npcap` or `miniport`; the first pass then never accepts
/// the adapter, whatever its address.
pub proof fn lemma_virtual_names_are_skipped(n: NetInterface, lowered: Seq<char>)
    ensures
        is_virtual_name(lowered) <==> names_virtual_word(lowered),
        names_virtual_word(lowered) ==> !accepted(1, n, lowered),
{
    let kw = virtual_keywords();
    assert(kw.len() == 33);
    assert(kw[0] == "virtual"@);
    assert(kw[1] == "vmware"@);
    assert(kw[2] == "vmnet"@);
    assert(kw[3] == "vbox"@);
    assert(kw[4] == "virtualbox"@);
    assert(kw[5] == "pseudo"@);
    assert(kw[6] == "hamachi"@);
    assert(kw[7] == "vpn"@);
    assert(kw[8] == "vethernet"@);
    assert(kw[9] == "loopback"@);
    assert(kw[10] == "docker"@);
    assert(kw[11] == "wsl"@);
    assert(kw[12] == "hyper-v"@);
    assert(kw[13] == "bluetooth"@);
    assert(kw[14] == "teredo"@);
    assert(kw[15] == "isatap"@);
    assert(kw[16] == "6to4"@);
    assert(kw[17] == "tap-"@);
    assert(kw[18] == "tun"@);
    assert(kw[19] == "warp"@);
    assert(kw[20] == "tailscale"@);
    assert(kw[21] == "zerotier"@);
    assert(kw[22] == "nordlynx"@);
    assert(kw[23] == "wireguard"@);
    assert(kw[24] == "proton"@);
    assert(kw[25] == "mullvad"@);
    assert(kw[26] == "windscribe"@);
    assert(kw[27] == "surfshark"@);
    assert(kw[28] == "host-only"@);
    assert(kw[29] == "hostonly"@);
    assert(kw[30] == "vEthernet"@);
    assert(kw[31] == "npcap"@);
    assert(kw[32] == "miniport"@);
    if names_virtual_word(lowered) {
        assert(exists|i: int| 0 <= i < kw.len() && contains(lowered, kw[i]));
    }
    if is_virtual_name(lowered) {
        let i = choose|i: int| 0 <= i < kw.len() && contains(lowered, kw[i]);
        assert(contains(lowered, kw[i]));
    }
}

/// Whether the lower-cased adapter name `lowered` marks a virtual adapter.
pub fn is_virtual_adapter_name(lowered: &str) -> (b: bool)
    ensures
        b == is_virtual_name(lowered@),
{
    let kws = keyword_list();
    let name = chars_of(lowered);
    let mut i: usize = 0;
    while i < kws.len()
        invariant
            i <= kws@.len(),
            kws@.map_values(|s: &str| s@) == virtual_keywords(),
            name@ == lowered@,
            forall|j: int| 0 <= j < i ==> !contains(lowered@, #[trigger] virtual_keywords()[j]),
        decreases kws@.len() - i,
    {
        let kw = chars_of(kws[i]);
        assert(kw@ == virtual_keywords()[i as int]);
        if contains_chars(&name, &kw) {
            return true;
        }
        i += 1;
    }
    false
}

/// What `str::to_lowercase` returns for `s`: Unicode lower case, which may
/// change the length and maps a few non-ASCII letters to ASCII ones.
pub uninterp spec fn lowercase(s: Seq<char>) -> Seq<char>;

/// `str::to_lowercase`. The contract names its result; the Unicode case
/// tables it follows are not stated.
#[verifier::external_body]
fn to_lowercase(s: &str) -> (r: String)
    ensures
        r@ == lowercase(s@),
{
    s.to_lowercase()
}

/// An interface the first pass accepts, `lowered` being its name in lower
/// case: an IPv4 address that is not loopback, link-local or in a virtual
/// range, on an adapter whose name does not mark it as virtual.
pub open spec fn real_adapter(n: NetInterface, lowered: Seq<char>) -> bool {
    match n.ipv4 {
        Some(ip) => !is_loopback(ip) && !is_link_local(ip) && !is_virtual_name(lowered)
            && !in_virtual_range(ip),
        None => false,
    }
}

/// An interface the second pass accepts: as the first, whatever its name.
pub open spec fn real_range(n: NetInterface) -> bool {
    match n.ipv4 {
        Some(ip) => !is_loopback(ip) && !is_link_local(ip) && !in_virtual_range(ip),
        None => false,
    }
}

/// An interface the last pass accepts: any IPv4 address but loopback.
pub open spec fn not_loopback(n: NetInterface) -> bool {
    match n.ipv4 {
        Some(ip) => !is_loopback(ip),
        None => false,
    }
}

/// Whether pass `pass` (1, 2 or 3) accepts `n`, whose lower-case name is
/// `lowered`.
pub open spec fn accepted(pass: int, n: NetInterface, lowered: Seq<char>) -> bool {
    if pass == 1 {
        real_adapter(n, lowered)
    } else if pass == 2 {
        real_range(n)
    } else {
        not_loopback(n)
    }
}

/// The address of the first interface of `s` that pass `pass` accepts,
/// `names[k]` being the lower-case name of `s[k]`.
pub open spec fn first_accepted(s: Seq<NetInterface>, names: Seq<Seq<char>>, pass: int) -> Option<
    Ipv4,
>
    decreases s.len(),
{
    if s.len() == 0 {
        None
    } else if accepted(pass, s[0], names[0]) {
        s[0].ipv4
    } else {
        first_accepted(s.drop_first(), names.drop_first(), pass)
    }
}

/// Dotted decimal notation, e.g. `192.168.1.5`.
pub open spec fn dotted(ip: Ipv4) -> Seq<char> {
    decimal(ip.a as nat) + seq!['.'] + decimal(ip.b as nat) + seq!['.'] + decimal(ip.c as nat)
        + seq!['.'] + decimal(ip.d as nat)
}

/// The address chosen among `s`, whose lower-case names are `names`: the
/// first real adapter; failing that, the first address outside the loopback,
/// link-local and virtual ranges; failing that, the first non-loopback IPv4
/// address; failing that, `127.0.0.1`.
pub open spec fn selected_ip(s: Seq<NetInterface>, names: Seq<Seq<char>>) -> Seq<char> {
    match first_accepted(s, names, 1) {
        Some(ip) => dotted(ip),
        None => match first_accepted(s, names, 2) {
            Some(ip) => dotted(ip),
            None => match first_accepted(s, names, 3) {
                Some(ip) => dotted(ip),
                None => "127.0.0.1"@,
            },
        },
    }
}

/// The names of `s` in lower case, as `str::to_lowercase` gives them.
pub open spec fn lowered_names(s: Seq<NetInterface>) -> Seq<Seq<char>> {
    s.map_values(|n: NetInterface| lowercase(n.name@))
}

/// The chosen LAN address, the names lowered by `str::to_lowercase`.
pub open spec fn lan_ip(s: Seq<NetInterface>) -> Seq<char> {
    selected_ip(s, lowered_names(s))
}

/// The dotted decimal notation of `ip` (`Ipv4Addr::to_string`).
pub fn ipv4_to_string(ip: &Ipv4) -> (s: String)
    ensures
        s@ == dotted(*ip),
{
    let mut s = String::new();
    push_decimal(&mut s, ip.a as u64);
    push_char(&mut s, '.');
    push_decimal(&mut s, ip.b as u64);
    push_char(&mut s, '.');
    push_decimal(&mut s, ip.c as u64);
    push_char(&mut s, '.');
    push_decimal(&mut s, ip.d as u64);
    assert(s@ =~= dotted(*ip));
    s
}

fn accepts(pass: u8, n: &NetInterface, lowered: &String) -> (b: bool)
    requires
        1 <= pass <= 3,
    ensures
        b == accepted(pass as int, *n, lowered@),
{
    match n.ipv4 {
        Some(ip) => {
            let lo = ip.a == 127;
            let ll = ip.a == 169 && ip.b == 254;
            if pass == 1 {
                !lo && !ll && !is_virtual_adapter_name(lowered.as_str()) && !is_virtual_ip_range(&ip)
            } else if pass == 2 {
                !lo && !ll && !is_virtual_ip_range(&ip)
            } else {
                !lo
            }
        },
        None => false,
    }
}

/// The plain values of a list of names.
pub open spec fn names_view(v: Seq<String>) -> Seq<Seq<char>> {
    v.map_values(|t: String| t@)
}

fn find_accepted(netifs: &Vec<NetInterface>, lowered: &Vec<String>, pass: u8) -> (r: Option<Ipv4>)
    requires
        1 <= pass <= 3,
        lowered@.len() == netifs@.len(),
    ensures
        r == first_accepted(netifs@, names_view(lowered@), pass as int),
{
    let n = netifs.len();
    let ghost names = names_view(lowered@);
    let mut i: usize = 0;
    assert(netifs@.subrange(0, n as int) =~= netifs@);
    assert(names.subrange(0, n as int) =~= names);
    while i < n
        invariant
            i <= n == netifs@.len(),
            1 <= pass <= 3,
            lowered@.len() == netifs@.len(),
            names == names_view(lowered@),
            first_accepted(netifs@, names, pass as int) == first_accepted(
                netifs@.subrange(i as int, n as int),
                names.subrange(i as int, n as int),
                pass as int,
            ),
        decreases n - i,
    {
        assert(netifs@.subrange(i as int, n as int)[0] == netifs@[i as int]);
        assert(names.subrange(i as int, n as int)[0] == lowered@[i as int]@);
        assert(netifs@.subrange(i as int, n as int).drop_first() =~= netifs@.subrange(
            i + 1,
            n as int,
        ));
        assert(names.subrange(i as int, n as int).drop_first() =~= names.subrange(
            i + 1,
            n as int,
        ));
        if accepts(pass, &netifs[i], &lowered[i]) {
            return netifs[i].ipv4;
        }
        i += 1;
    }
    None
}

/// The LAN address chosen among `netifs` (the interfaces in the order the
/// system lists them), `lowered[k]` being the lower-case name of
/// `netifs[k]`, as `selected_ip` states.
pub fn select_lan_ip(netifs: &Vec<NetInterface>, lowered: &Vec<String>) -> (s: String)
    requires
        lowered@.len() == netifs@.len(),
    ensures
        s@ == selected_ip(netifs@, names_view(lowered@)),
{
    match find_accepted(netifs, lowered, 1) {
        Some(ip) => ipv4_to_string(&ip),
        None => match find_accepted(netifs, lowered, 2) {
            Some(ip) => ipv4_to_string(&ip),
            None => match find_accepted(netifs, lowered, 3) {
                Some(ip) => ipv4_to_string(&ip),
                None => {
                    let mut s = String::new();
                    append_str(&mut s, "127.0.0.1");
                    assert(s@ =~= "127.0.0.1"@);
                    s
                },
            },
        },
    }
}

/// The LAN address to advertise, chosen among `netifs` (the interfaces in
/// the order the system lists them) as `lan_ip` states.
pub fn get_safe_lan_ip(netifs: &Vec<NetInterface>) -> (s: String)
    ensures
        s@ == lan_ip(netifs@),
{
    let mut lowered: Vec<String> = Vec::new();
    let mut i: usize = 0;
    while i < netifs.len()
        invariant
            i <= netifs@.len(),
            lowered@.len() == i,
            forall|k: int| 0 <= k < i ==> lowered@[k]@ == lowercase(netifs@[k].name@),
        decreases netifs@.len() - i,
    {
        lowered.push(to_lowercase(netifs[i].name.as_str()));
        i += 1;
    }
    assert(names_view(lowered@) =~= lowered_names(netifs@));
    select_lan_ip(netifs, &lowered)
}

} // verus!
