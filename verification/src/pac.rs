//! PAC script generation: the fallback script, the production script built
//! from the LAN address, the proxy port and the user's white and black lists,
//! and the URL under which the script is served.

use vstd::prelude::*;

use crate::text::{
    append_str, chars_of, contains, decimal, joined, lemma_split_by_push, line_break, occurs_at,
    push_char, push_decimal, split_by, string_from_chars, trim, trimmed,
};

verus! {

/// The fallback PAC script: every request goes `DIRECT`.
pub const PAC_DIRECT_BODY: &'static str = "function FindProxyForURL(url, host) {
    // XzualDPI proxy devre dÄ±ÅŸÄ± â€” tÃ¼m trafik doÄŸrudan Ã§Ä±kÄ±ÅŸ
    // Bu PAC dosyasÄ± otomatik olarak sunulur; ayar deÄŸiÅŸikliÄŸi gerekmez
    return \"DIRECT\";
}
";

/// Start of a production PAC script, up to the white-list items.
pub const PAC_HEAD: &'static str = "function FindProxyForURL(url, host) {
    var whitelist = [";

/// Between the white-list items and the black-list items.
pub const PAC_BETWEEN_LISTS: &'static str = "];
    var blacklist = [";

/// From the end of the black-list items to the white-list proxy directive.
pub const PAC_RULES: &'static str = "];

    // 1) Blacklist Check -> DIRECT (Always skip bypass)
    for (var i = 0; i < blacklist.length; i++) {
        if (shExpMatch(host, blacklist[i])) return \"DIRECT\";
    }

    // 2) Whitelist Check -> PROXY (Always bypass)
    for (var i = 0; i < whitelist.length; i++) {
        if (shExpMatch(host, whitelist[i])) return \"";

/// The directive that sends a request through the proxy.
pub const PROXY_DIRECTIVE: &'static str = "PROXY ";

/// From the white-list proxy address to the default proxy directive.
pub const PAC_LOCAL_RULES: &'static str = "; DIRECT\";
    }

    // 3) Localhost & Internal -> DIRECT
    if (isPlainHostName(host) ||
        host === \"localhost\" ||
        shExpMatch(host, \"127.*\") ||
        shExpMatch(host, \"10.*\") ||
        shExpMatch(host, \"192.168.*\") ||
        shExpMatch(host, \"172.16.*\") || shExpMatch(host, \"172.17.*\") ||
        shExpMatch(host, \"172.18.*\") || shExpMatch(host, \"172.19.*\") ||
        shExpMatch(host, \"172.2?.*\") || shExpMatch(host, \"172.30.*\") ||
        shExpMatch(host, \"172.31.*\") ||
        shExpMatch(host, \"*.local\") ||
        shExpMatch(host, \"*.localhost\") ||
        shExpMatch(host, \"*.internal\"))
        return \"DIRECT\";

    // 4) Default Bypass
    return \"";

/// End of a production PAC script, after the default proxy address.
pub const PAC_TAIL: &'static str = "; DIRECT\";
}";

// ---------------------------------------------------------------------------
// Host lists
// ---------------------------------------------------------------------------

/// The trimmed lines that are not empty, in order.
pub open spec fn nonempty_trimmed(lines: Seq<Seq<char>>) -> Seq<Seq<char>>
    decreases lines.len(),
{
    if lines.len() == 0 {
        Seq::empty()
    } else {
        let front = nonempty_trimmed(lines.drop_last());
        if trim(lines.last()).len() > 0 {
            front.push(trim(lines.last()))
        } else {
            front
        }
    }
}

/// The entries of a host list: its lines, trimmed, without the empty ones,
/// in order (`lines().map(str::trim).filter(|l| !l.is_empty())`).
pub open spec fn host_entries(s: Seq<char>) -> Seq<Seq<char>> {
    nonempty_trimmed(split_by(s, line_break()))
}

/// A host entry as a JavaScript string pattern: `"*entry*"`.
pub open spec fn js_pattern(e: Seq<char>) -> Seq<char> {
    seq!['"', '*'] + e + seq!['*', '"']
}

/// The patterns of `es`, separated by commas.
pub open spec fn js_items(es: Seq<Seq<char>>) -> Seq<char> {
    joined(es.map_values(|e: Seq<char>| js_pattern(e)), ',')
}

fn push_entry(done: &mut Vec<String>, raw: &Vec<char>, Ghost(lines): Ghost<Seq<Seq<char>>>)
    requires
        old(done).deep_view() == nonempty_trimmed(lines),
    ensures
        final(done).deep_view() == nonempty_trimmed(lines.push(raw@)),
{
    let t = trimmed(raw);
    assert(lines.push(raw@).drop_last() =~= lines);
    if t.len() > 0 {
        let s = string_from_chars(&t);
        done.push(s);
        assert(done.deep_view() =~= old(done).deep_view().push(trim(raw@)));
    }
}

/// The entries of a host list (one host pattern per line).
pub fn host_list_entries(text: &str) -> (v: Vec<String>)
    ensures
        v.deep_view() == host_entries(text@),
{
    let cs = chars_of(text);
    let mut done: Vec<String> = Vec::new();
    let mut cur: Vec<char> = Vec::new();
    let ghost mut lines: Seq<Seq<char>> = Seq::empty();
    let mut i: usize = 0;
    assert(done.deep_view() =~= Seq::<Seq<char>>::empty());
    assert(cs@.take(0) =~= Seq::<char>::empty());
    assert(split_by(Seq::<char>::empty(), line_break()) == seq![Seq::<char>::empty()]);
    assert(lines.push(cur@) =~= seq![Seq::<char>::empty()]);
    while i < cs.len()
        invariant
            i <= cs@.len(),
            cs@ == text@,
            split_by(cs@.take(i as int), line_break()) == lines.push(cur@),
            done.deep_view() == nonempty_trimmed(lines),
        decreases cs@.len() - i,
    {
        let c = cs[i];
        proof {
            assert(cs@.take(i + 1) =~= cs@.take(i as int).push(c));
            lemma_split_by_push(cs@.take(i as int), c, line_break());
            assert(lines.push(cur@).drop_last() =~= lines);
        }
        if c == '\n' {
            push_entry(&mut done, &cur, Ghost(lines));
            proof {
                lines = lines.push(cur@);
            }
            cur = Vec::new();
            assert(split_by(cs@.take(i + 1), line_break()) =~= lines.push(cur@));
        } else {
            cur.push(c);
            assert(split_by(cs@.take(i + 1), line_break()) =~= lines.push(cur@));
        }
        i += 1;
    }
    assert(cs@.take(cs@.len() as int) == cs@);
    push_entry(&mut done, &cur, Ghost(lines));
    done
}

/// The comma-separated JavaScript patterns of `entries`.
pub fn js_pattern_list(entries: &Vec<String>) -> (s: String)
    ensures
        s@ == js_items(entries.deep_view()),
{
    let mut s = String::new();
    let mut i: usize = 0;
    let ghost es = entries.deep_view();
    assert(es.take(0) =~= Seq::<Seq<char>>::empty());
    while i < entries.len()
        invariant
            i <= entries@.len(),
            es == entries.deep_view(),
            s@ == js_items(es.take(i as int)),
        decreases entries@.len() - i,
    {
        let ghost before = s@;
        if i > 0 {
            push_char(&mut s, ',');
        }
        push_char(&mut s, '"');
        push_char(&mut s, '*');
        append_str(&mut s, entries[i].as_str());
        push_char(&mut s, '*');
        push_char(&mut s, '"');
        proof {
            let t = es.take(i + 1);
            let pats = t.map_values(|e: Seq<char>| js_pattern(e));
            assert(pats.drop_last() =~= es.take(i as int).map_values(|e: Seq<char>| js_pattern(e)));
            assert(t.last() == entries@[i as int]@);
            assert(pats.last() == js_pattern(t.last()));
            if i > 0 {
                assert(s@ =~= before.push(',') + pats.last());
            } else {
                assert(pats.len() == 1 && pats[0] == pats.last());
                assert(s@ =~= pats[0]);
            }
        }
        i += 1;
    }
    assert(es.take(entries@.len() as int) =~= es);
    s
}

// ---------------------------------------------------------------------------
// PAC scripts
// ---------------------------------------------------------------------------

/// The proxy address a PAC script points at: `ip:port`.
pub open spec fn proxy_address(lan_ip: Seq<char>, port: u16) -> Seq<char> {
    lan_ip + seq![':'] + decimal(port as nat)
}

/// The production PAC script: black-listed hosts go `DIRECT`, white-listed
/// hosts through the proxy, local and private hosts `DIRECT`, and everything
/// else through the proxy with `DIRECT` as fallback.
pub open spec fn pac_script(lan_ip: Seq<char>, port: u16, white: Seq<char>, black: Seq<char>) -> Seq<
    char,
> {
    let proxy = proxy_address(lan_ip, port);
    PAC_HEAD@ + js_items(host_entries(white)) + PAC_BETWEEN_LISTS@ + js_items(
        host_entries(black),
    ) + PAC_RULES@ + PROXY_DIRECTIVE@ + proxy + PAC_LOCAL_RULES@ + PROXY_DIRECTIVE@ + proxy
        + PAC_TAIL@
}

/// The fallback PAC script, which sends every request `DIRECT`.
pub fn make_pac_direct_body() -> (s: String)
    ensures
        s@ == PAC_DIRECT_BODY@,
{
    let mut s = String::new();
    append_str(&mut s, PAC_DIRECT_BODY);
    assert(s@ =~= PAC_DIRECT_BODY@);
    s
}

/// The production PAC script for a proxy at `lan_ip:proxy_port` with the
/// given white and black lists (one host pattern per line).
pub fn make_pac_body(lan_ip: &str, proxy_port: u16, whitelist: &str, blacklist: &str) -> (s:
    String)
    ensures
        s@ == pac_script(lan_ip@, proxy_port, whitelist@, blacklist@),
{
    let mut proxy = String::new();
    append_str(&mut proxy, lan_ip);
    push_char(&mut proxy, ':');
    push_decimal(&mut proxy, proxy_port as u64);
    let wl_js = js_pattern_list(&host_list_entries(whitelist));
    let bl_js = js_pattern_list(&host_list_entries(blacklist));

    let mut s = String::new();
    append_str(&mut s, PAC_HEAD);
    append_str(&mut s, wl_js.as_str());
    append_str(&mut s, PAC_BETWEEN_LISTS);
    append_str(&mut s, bl_js.as_str());
    append_str(&mut s, PAC_RULES);
    append_str(&mut s, PROXY_DIRECTIVE);
    append_str(&mut s, proxy.as_str());
    append_str(&mut s, PAC_LOCAL_RULES);
    append_str(&mut s, PROXY_DIRECTIVE);
    append_str(&mut s, proxy.as_str());
    append_str(&mut s, PAC_TAIL);
    assert(proxy@ =~= proxy_address(lan_ip@, proxy_port));
    assert(s@ =~= pac_script(lan_ip@, proxy_port, whitelist@, blacklist@));
    s
}

/// A PAC script sends requests through the proxy when the word `PROXY`
/// stands in it; otherwise it is the `DIRECT` fallback.
pub open spec fn is_direct_script(body: Seq<char>) -> bool {
    !contains(body, "PROXY"@)
}

/// The fallback script is recognised as the `DIRECT` fallback: the word
/// `PROXY` does not stand in it.
pub proof fn lemma_direct_script_is_direct()
    ensures
        is_direct_script(PAC_DIRECT_BODY@),
{
    reveal_strlit("function FindProxyForURL(url, host) {
    // XzualDPI proxy devre dÄ±ÅŸÄ± â€” tÃ¼m trafik doÄŸrudan Ã§Ä±kÄ±ÅŸ
    // Bu PAC dosyasÄ± otomatik olarak sunulur; ayar deÄŸiÅŸikliÄŸi gerekmez
    return \"DIRECT\";
}
");
    reveal_strlit("PROXY");
    let s = PAC_DIRECT_BODY@;
    assert forall|i: int| !occurs_at(s, "PROXY"@, i) by {
        if occurs_at(s, "PROXY"@, i) {
            assert(s.subrange(i, i + 5)[0] == 'P');
            assert(s.subrange(i, i + 5)[1] == 'R');
            assert(s[i] == 'P' && s[i + 1] == 'R');
        }
    }
}

/// Every production PAC script is recognised as proxying, never as the
/// `DIRECT` fallback, whatever the address, port and lists.
pub proof fn lemma_production_script_proxies(
    lan_ip: Seq<char>,
    port: u16,
    white: Seq<char>,
    black: Seq<char>,
)
    ensures
        !is_direct_script(pac_script(lan_ip, port, white, black)),
{
    reveal_strlit("PROXY ");
    reveal_strlit("PROXY");
    let before = PAC_HEAD@ + js_items(host_entries(white)) + PAC_BETWEEN_LISTS@ + js_items(
        host_entries(black),
    ) + PAC_RULES@;
    let body = pac_script(lan_ip, port, white, black);
    assert(PROXY_DIRECTIVE@ == "PROXY "@);
    assert(body.subrange(before.len() as int, before.len() + 5int) =~= "PROXY"@);
    assert(occurs_at(body, "PROXY"@, before.len() as int));
}

// ---------------------------------------------------------------------------
// Laws of the host lists in a script
// ---------------------------------------------------------------------------

/// Trimming a line.
pub open spec fn trim_line() -> spec_fn(Seq<char>) -> Seq<char> {
    |l: Seq<char>| trim(l)
}

/// A line that is not empty.
pub open spec fn nonempty_line() -> spec_fn(Seq<char>) -> bool {
    |t: Seq<char>| t.len() > 0
}

/// The lines of `s` (split at `\n`), each trimmed, keeping those that are
/// not empty, in order.
pub open spec fn listed_hosts(s: Seq<char>) -> Seq<Seq<char>> {
    split_by(s, line_break()).map_values(trim_line()).filter(nonempty_line())
}

/// Keeping the trimmed lines that are not empty is filtering the trimmed
/// lines by non-emptiness.
pub proof fn lemma_nonempty_trimmed_is_filter(lines: Seq<Seq<char>>)
    ensures
        nonempty_trimmed(lines) == lines.map_values(trim_line()).filter(nonempty_line()),
    decreases lines.len(),
{
    let f = trim_line();
    let p = nonempty_line();
    let m = lines.map_values(f);
    if lines.len() > 0 {
        lemma_nonempty_trimmed_is_filter(lines.drop_last());
        assert(m.drop_last() =~= lines.drop_last().map_values(f));
        assert(m.last() == trim(lines.last()));
        assert(m =~= m.drop_last().push(m.last()));
        m.drop_last().lemma_filter_push(m.last(), p);
    } else {
        assert(m =~= Seq::<Seq<char>>::empty());
        reveal(Seq::filter);
    }
}

/// The entries of a host list are its lines, trimmed, without the empty
/// ones, in order.
pub proof fn lemma_host_entries_are_listed_hosts(s: Seq<char>)
    ensures
        host_entries(s) == listed_hosts(s),
{
    lemma_nonempty_trimmed_is_filter(split_by(s, line_break()));
}

/// The items of a JavaScript host array: none for no entry, `"*e*"` for one,
/// and one more item after a comma for each further entry.
pub proof fn lemma_js_items_steps(es: Seq<Seq<char>>, e: Seq<char>)
    ensures
        js_items(Seq::empty()) == Seq::<char>::empty(),
        js_items(seq![e]) == seq!['"', '*'] + e + seq!['*', '"'],
        es.len() > 0 ==> js_items(es.push(e)) == js_items(es) + seq![',', '"', '*'] + e + seq![
            '*',
            '"',
        ],
{
    let f = |x: Seq<char>| js_pattern(x);
    assert(Seq::<Seq<char>>::empty().map_values(f) =~= Seq::<Seq<char>>::empty());
    assert(seq![e].map_values(f) =~= seq![js_pattern(e)]);
    if es.len() > 0 {
        let m = es.push(e).map_values(f);
        assert(m.drop_last() =~= es.map_values(f));
        assert(m.len() >= 2);
        assert(m.last() == js_pattern(e));
        assert(joined(m, ',') =~= joined(es.map_values(f), ',').push(',') + js_pattern(e));
        assert(js_items(es) + seq![',', '"', '*'] + e + seq!['*', '"'] =~= joined(
            es.map_values(f),
            ',',
        ).push(',') + js_pattern(e));
    }
}

/// In a production script, the white-list array `var whitelist = ...` and
/// the black-list array `var blacklist = ...` hold exactly one pattern
/// `"*e*"` for every non-empty trimmed line `e` of the white list and of the
/// black list, in order: no entry is dropped, added or moved.
pub proof fn lemma_script_lists_every_host(
    lan_ip: Seq<char>,
    port: u16,
    white: Seq<char>,
    black: Seq<char>,
)
    ensures
        ({
            let script = pac_script(lan_ip, port, white, black);
            let wl = js_items(listed_hosts(white));
            let bl = js_items(listed_hosts(black));
            let w_at = PAC_HEAD@.len() as int;
            let b_at = w_at + wl.len() + PAC_BETWEEN_LISTS@.len();
            &&& script.subrange(w_at - 17, w_at) == "var whitelist = \u{5b}"@
            &&& script.subrange(w_at, w_at + wl.len()) == wl
            &&& script.subrange(w_at + wl.len(), w_at + wl.len() + 2) == "\u{5d};"@
            &&& script.subrange(b_at - 17, b_at) == "var blacklist = \u{5b}"@
            &&& script.subrange(b_at, b_at + bl.len()) == bl
            &&& script.subrange(b_at + bl.len(), b_at + bl.len() + 2) == "\u{5d};"@
        }),
{
    reveal_strlit("function FindProxyForURL\u{28}url, host\u{29} \u{7b}
    var whitelist = \u{5b}");
    reveal_strlit("\u{5d};
    var blacklist = \u{5b}");
    reveal_strlit("\u{5d};

    // 1\u{29} Blacklist Check -> DIRECT \u{28}Always skip bypass\u{29}
    for \u{28}var i = 0; i < blacklist.length; i++\u{29} \u{7b}
        if \u{28}shExpMatch\u{28}host, blacklist\u{5b}i\u{5d}\u{29}\u{29} return \"DIRECT\";
    \u{7d}

    // 2\u{29} Whitelist Check -> PROXY \u{28}Always bypass\u{29}
    for \u{28}var i = 0; i < whitelist.length; i++\u{29} \u{7b}
        if \u{28}shExpMatch\u{28}host, whitelist\u{5b}i\u{5d}\u{29}\u{29} return \"");
    reveal_strlit("var whitelist = \u{5b}");
    reveal_strlit("var blacklist = \u{5b}");
    reveal_strlit("\u{5d};");
    lemma_host_entries_are_listed_hosts(white);
    lemma_host_entries_are_listed_hosts(black);
    let script = pac_script(lan_ip, port, white, black);
    let wl = js_items(listed_hosts(white));
    let bl = js_items(listed_hosts(black));
    let h = PAC_HEAD@;
    let t = PAC_BETWEEN_LISTS@;
    let r = PAC_RULES@;
    let rest = PROXY_DIRECTIVE@ + proxy_address(lan_ip, port) + PAC_LOCAL_RULES@ + PROXY_DIRECTIVE@
        + proxy_address(lan_ip, port) + PAC_TAIL@;
    assert(script =~= h + wl + t + bl + r + rest);
    let w_at = h.len() as int;
    let b_at = w_at + wl.len() + t.len();
    assert(script.subrange(w_at - 17, w_at) =~= h.subrange(h.len() - 17, h.len() as int));
    assert(h.subrange(h.len() - 17, h.len() as int) =~= "var whitelist = \u{5b}"@);
    assert(script.subrange(w_at, w_at + wl.len()) =~= wl);
    assert(script.subrange(w_at + wl.len(), w_at + wl.len() + 2) =~= t.subrange(0, 2));
    assert(t.subrange(0, 2) =~= "\u{5d};"@);
    assert(script.subrange(b_at - 17, b_at) =~= t.subrange(t.len() - 17, t.len() as int));
    assert(t.subrange(t.len() - 17, t.len() as int) =~= "var blacklist = \u{5b}"@);
    assert(script.subrange(b_at, b_at + bl.len()) =~= bl);
    assert(script.subrange(b_at + bl.len(), b_at + bl.len() + 2) =~= r.subrange(0, 2));
    assert(r.subrange(0, 2) =~= "\u{5d};"@);
}


// ---------------------------------------------------------------------------
// The URL of the script
// ---------------------------------------------------------------------------

/// `http://<lan_ip>:<port>/proxy.pac`.
pub open spec fn pac_url(lan_ip: Seq<char>, port: u16) -> Seq<char> {
    "http://"@ + lan_ip + seq![':'] + decimal(port as nat) + "/proxy.pac"@
}

/// The URL under which devices on the LAN fetch the PAC script.
pub fn make_pac_url(lan_ip: &str, pac_port: u16) -> (s: String)
    ensures
        s@ == pac_url(lan_ip@, pac_port),
{
    let mut s = String::new();
    append_str(&mut s, "http://");
    append_str(&mut s, lan_ip);
    push_char(&mut s, ':');
    push_decimal(&mut s, pac_port as u64);
    append_str(&mut s, "/proxy.pac");
    s
}

/// What starting the PAC server does once the script is updated.
pub enum PacStart {
    /// The server already runs on `port`: it stays there and its URL becomes
    /// `url`.
    Running { port: u16, url: String },
    /// No server runs: a port is to be found and bound.
    Bind,
}

/// The start decision: `running_port` is the port of the server already
/// running, if any, and `lan_ip` the LAN address just chosen.
pub fn pac_server_start(running_port: Option<u16>, lan_ip: &str) -> (r: PacStart)
    ensures
        match running_port {
            Some(p) => r matches PacStart::Running { port, url } && port == p && url@ == pac_url(
                lan_ip@,
                p,
            ),
            None => r is Bind,
        },
{
    match running_port {
        Some(p) => PacStart::Running { port: p, url: make_pac_url(lan_ip, p) },
        None => PacStart::Bind,
    }
}

} // verus!
