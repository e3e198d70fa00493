//! Port choices: scanning a range for a free port, the sidecar's bind
//! address, the limits on which ports may be probed or used as the proxy,
//! and the PAC server's connection limit.

use vstd::prelude::*;

use crate::text::append_str;

verus! {

/// First port tried for the PAC server.
pub const PAC_PORT_START: u16 = 8787;

/// Last port tried for the PAC server.
pub const PAC_PORT_END: u16 = 8887;

/// First port tried for the proxy sidecar.
pub const SIDECAR_PORT_START: u16 = 8080;

/// Last port tried for the proxy sidecar.
pub const SIDECAR_PORT_END: u16 = 8090;

/// The PAC server serves at most this many connections at once.
pub const MAX_PAC_CONNECTIONS: u32 = 50;

/// The error when no port can be had for the sidecar.
pub const NO_SIDECAR_PORT: &'static str = "Uygun port bulunamadÄ±.";

/// Start of the error when no port can be had for the PAC server.
pub const NO_PAC_PORT: &'static str = "PAC iÃ§in uygun port bulunamadÄ±: ";

/// The error for a proxy port below 1024.
pub const INVALID_PROXY_PORT: &'static str = "GeÃ§ersiz port numarasÄ± (1024-65535 arasÄ± olmalÄ±)";

// ---------------------------------------------------------------------------
// Scanning a range of ports
// ---------------------------------------------------------------------------

/// What to do next while looking for a free port.
#[derive(PartialEq, Eq, Structural, Debug, Clone, Copy)]
pub enum ScanAction {
    /// Try to bind this port.
    Try(u16),
    /// This port was bound: use it.
    Chosen(u16),
    /// Every port of the range failed: ask the system for any free port.
    AskSystem,
}

/// A scan of the ports `current..=last`, positioned at the port being tried.
#[derive(PartialEq, Eq, Structural, Debug, Clone, Copy)]
pub struct PortScan {
    pub current: u16,
    pub last: u16,
}

/// One step of a scan, given whether the current port could be bound.
pub open spec fn scan_next(s: PortScan, bound: bool) -> (PortScan, ScanAction) {
    if bound {
        (s, ScanAction::Chosen(s.current))
    } else if s.current < s.last {
        (PortScan { current: (s.current + 1) as u16, last: s.last }, ScanAction::Try(
            (s.current + 1) as u16,
        ))
    } else {
        (s, ScanAction::AskSystem)
    }
}

/// Starts scanning `first..=last`: the first port is tried first.
pub fn start_port_scan(first: u16, last: u16) -> (r: (PortScan, ScanAction))
    requires
        first <= last,
    ensures
        r == (PortScan { current: first, last }, ScanAction::Try(first)),
{
    (PortScan { current: first, last }, ScanAction::Try(first))
}

/// The next step of a scan after trying its current port.
pub fn port_scan_step(scan: PortScan, bound: bool) -> (r: (PortScan, ScanAction))
    requires
        scan.current <= scan.last,
    ensures
        r == scan_next(scan, bound),
{
    if bound {
        (scan, ScanAction::Chosen(scan.current))
    } else if scan.current < scan.last {
        let next = scan.current + 1;
        (PortScan { current: next, last: scan.last }, ScanAction::Try(next))
    } else {
        (scan, ScanAction::AskSystem)
    }
}

/// Where a scan ends when binding port `p` succeeds exactly when
/// `bindable(p)`.
pub open spec fn scan_run(s: PortScan, bindable: spec_fn(u16) -> bool) -> ScanAction
    decreases s.last - s.current,
{
    let (n, a) = scan_next(s, bindable(s.current));
    match a {
        ScanAction::Try(_) => {
            if s.current < s.last {
                scan_run(n, bindable)
            } else {
                a
            }
        },
        _ => a,
    }
}

proof fn lemma_scan_run_from(s: PortScan, bindable: spec_fn(u16) -> bool)
    requires
        s.current <= s.last,
    ensures
        match scan_run(s, bindable) {
            ScanAction::Chosen(p) => s.current <= p <= s.last && bindable(p) && forall|q: u16|
                s.current <= q < p ==> !#[trigger] bindable(q),
            ScanAction::AskSystem => forall|q: u16| s.current <= q <= s.last ==> !#[trigger] bindable(q),
            ScanAction::Try(_) => false,
        },
    decreases s.last - s.current,
{
    if !bindable(s.current) && s.current < s.last {
        let n = PortScan { current: (s.current + 1) as u16, last: s.last };
        lemma_scan_run_from(n, bindable);
        assert(scan_run(s, bindable) == scan_run(n, bindable));
    }
}

/// Ports are tried in increasing order from the first: the scan settles on
/// the least port of the range whose bind succeeds, and asks the system for
/// a port only when no port of the range can be bound.
pub proof fn lemma_scan_picks_least_free_port(
    first: u16,
    last: u16,
    bindable: spec_fn(u16) -> bool,
)
    requires
        first <= last,
    ensures
        match scan_run(PortScan { current: first, last }, bindable) {
            ScanAction::Chosen(p) => first <= p <= last && bindable(p) && forall|q: u16|
                first <= q < p ==> !#[trigger] bindable(q),
            ScanAction::AskSystem => forall|q: u16| first <= q <= last ==> !#[trigger] bindable(q),
            ScanAction::Try(_) => false,
        },
{
    lemma_scan_run_from(PortScan { current: first, last }, bindable);
}

// ---------------------------------------------------------------------------
// The sidecar
// ---------------------------------------------------------------------------

/// The sidecar listens on every interface when the LAN is shared or game
/// mode is on (sandboxed store apps reach it by the LAN address), otherwise
/// on loopback only.
pub open spec fn sidecar_bind(allow_lan_sharing: bool, enable_game_mode: bool) -> Seq<char> {
    if allow_lan_sharing || enable_game_mode {
        "0.0.0.0"@
    } else {
        "127.0.0.1"@
    }
}

/// The sidecar listens on every interface (`0.0.0.0`) exactly when LAN
/// sharing or game mode is on, and on loopback (`127.0.0.1`) only when both
/// are off; turning an option on never narrows it back to loopback.
pub proof fn lemma_sidecar_bind_widens(a: bool, b: bool, more_a: bool, more_b: bool)
    ensures
        (sidecar_bind(a, b) == "0.0.0.0"@) <==> (a || b),
        (sidecar_bind(a, b) == "127.0.0.1"@) <==> (!a && !b),
        sidecar_bind(a, b) == "0.0.0.0"@ ==> sidecar_bind(a || more_a, b || more_b) == "0.0.0.0"@,
{
    reveal_strlit("0.0.0.0");
    reveal_strlit("127.0.0.1");
    assert("0.0.0.0"@.len() != "127.0.0.1"@.len());
}

/// The address the sidecar binds to.
pub fn sidecar_bind_address(allow_lan_sharing: bool, enable_game_mode: bool) -> (a: &'static str)
    ensures
        a@ == sidecar_bind(allow_lan_sharing, enable_game_mode),
{
    if allow_lan_sharing || enable_game_mode {
        "0.0.0.0"
    } else {
        "127.0.0.1"
    }
}

/// The sidecar's port once the scan and the system have been asked: `0`
/// means that none could be had, which is an error.
pub fn settle_sidecar_port(selected: u16) -> (r: Result<u16, String>)
    ensures
        selected != 0 ==> r == Ok::<u16, String>(selected),
        selected == 0 ==> (r matches Err(e) && e@ == NO_SIDECAR_PORT@),
{
    if selected == 0 {
        let mut e = String::new();
        append_str(&mut e, NO_SIDECAR_PORT);
        Err(e)
    } else {
        Ok(selected)
    }
}

/// The error when not even the system can give the PAC server a port.
pub fn pac_port_error(detail: &str) -> (s: String)
    ensures
        s@ == NO_PAC_PORT@ + detail@,
{
    let mut s = String::new();
    append_str(&mut s, NO_PAC_PORT);
    append_str(&mut s, detail);
    s
}

// ---------------------------------------------------------------------------
// Port limits
// ---------------------------------------------------------------------------

/// Ports below 1024 are privileged; the application neither probes them nor
/// uses one as the proxy port.
pub open spec fn unprivileged(port: u16) -> bool {
    port >= 1024
}

/// Whether a local port may be probed for an open listener.
pub fn port_probe_allowed(port: u16) -> (b: bool)
    ensures
        b == unprivileged(port),
{
    port >= 1024
}

/// Checks the port given for the system proxy.
pub fn validate_proxy_port(port: u16) -> (r: Result<(), String>)
    ensures
        r is Ok <==> unprivileged(port),
        r matches Err(e) ==> e@ == INVALID_PROXY_PORT@,
{
    if port < 1024 {
        let mut e = String::new();
        append_str(&mut e, INVALID_PROXY_PORT);
        Err(e)
    } else {
        Ok(())
    }
}

/// Whether the PAC server takes one more connection while `active` are
/// being served.
pub fn admit_pac_connection(active: u32) -> (b: bool)
    ensures
        b == (active < MAX_PAC_CONNECTIONS),
{
    active < MAX_PAC_CONNECTIONS
}

} // verus!
