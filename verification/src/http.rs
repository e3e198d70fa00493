//! The PAC server's request handling: reading the request line, choosing what
//! to answer, and the exact bytes of each answer, with the cache that keeps
//! the last PAC answer.

use vstd::prelude::*;

use crate::hash::{hash_bytes, simple_hash};
use crate::pac::{is_direct_script, pac_url};
use crate::setup_page::{make_setup_html, setup_page};
use crate::text::{
    append_bytes, append_str, chars_equal, chars_of, contains_chars, decimal, digit_char, ends_with,
    ends_with_chars, find, find_char, find_char_spec, find_spec, first_char_at, first_occurrence,
    is_white_space_char, lemma_find_char_spec, lemma_find_spec, lemma_split_by_push, occurs_at,
    push_decimal, split_by, sub_chars, white_space,
};

verus! {

// ---------------------------------------------------------------------------
// Paths
// ---------------------------------------------------------------------------

/// The path of a request target: for an absolute URL the part from the first
/// `/` after `://` (or `/` when there is none), otherwise the target itself.
pub open spec fn normalized_path(raw: Seq<char>) -> Seq<char> {
    match find_spec(raw, "://"@) {
        Some(p) => {
            let after = raw.subrange(p + 3, raw.len() as int);
            match find_char_spec(after, '/') {
                Some(q) => after.subrange(q, after.len() as int),
                None => seq!['/'],
            }
        },
        None => raw,
    }
}

/// Where the path of `cs` starts, or `None` when the path is `/` alone.
fn path_start(cs: &Vec<char>) -> (r: Option<usize>)
    ensures
        r matches Some(k) ==> k <= cs@.len() && cs@.subrange(k as int, cs@.len() as int)
            == normalized_path(cs@),
        r is None ==> normalized_path(cs@) == seq!['/'],
{
    let sep = chars_of("://");
    proof {
        reveal_strlit("://");
    }
    assert(sep@.len() == 3);
    let n = cs.len();
    match find(cs, &sep) {
        Some(p) => {
            assert(p + 3 <= n);
            let after = sub_chars(cs, p + 3, n);
            match find_char(&after, '/') {
                Some(q) => {
                    assert(after@.subrange(q as int, after@.len() as int) =~= cs@.subrange(
                        p + 3 + q,
                        cs@.len() as int,
                    ));
                    Some(p + 3 + q)
                },
                None => None,
            }
        },
        None => {
            assert(cs@.subrange(0, cs@.len() as int) =~= cs@);
            Some(0)
        },
    }
}

/// The path part of a request target, e.g. `/proxy.pac` for
/// `http://192.168.1.5:8787/proxy.pac`; a relative target is unchanged.
pub fn normalize_path(raw: &str) -> (p: &str)
    ensures
        p@ == normalized_path(raw@),
{
    let cs = chars_of(raw);
    match path_start(&cs) {
        Some(k) => raw.substring_char(k, cs.len()),
        None => {
            proof {
                reveal_strlit("/");
            }
            assert("/"@ =~= seq!['/']);
            "/"
        },
    }
}

fn normalized_path_chars(cs: &Vec<char>) -> (r: Vec<char>)
    ensures
        r@ == normalized_path(cs@),
{
    match path_start(cs) {
        Some(k) => sub_chars(cs, k, cs.len()),
        None => {
            let v = vec!['/'];
            assert(v@ =~= seq!['/']);
            v
        },
    }
}

// ---------------------------------------------------------------------------
// The request line
// ---------------------------------------------------------------------------

/// The pieces that are not empty, in order.
pub open spec fn nonempty_pieces(pieces: Seq<Seq<char>>) -> Seq<Seq<char>>
    decreases pieces.len(),
{
    if pieces.len() == 0 {
        Seq::empty()
    } else {
        let front = nonempty_pieces(pieces.drop_last());
        if pieces.last().len() > 0 {
            front.push(pieces.last())
        } else {
            front
        }
    }
}

/// The maximal runs of non-white-space characters of `s`, in order
/// (`str::split_whitespace`).
pub open spec fn words(s: Seq<char>) -> Seq<Seq<char>> {
    nonempty_pieces(split_by(s, white_space()))
}

/// The character sequences held by a vector of character vectors.
pub open spec fn views(v: Seq<Vec<char>>) -> Seq<Seq<char>> {
    v.map_values(|x: Vec<char>| x@)
}

fn push_word(done: &mut Vec<Vec<char>>, cur: Vec<char>, Ghost(pieces): Ghost<Seq<Seq<char>>>)
    requires
        views(old(done)@) == nonempty_pieces(pieces),
    ensures
        views(final(done)@) == nonempty_pieces(pieces.push(cur@)),
{
    assert(pieces.push(cur@).drop_last() =~= pieces);
    if cur.len() > 0 {
        let ghost c = cur@;
        done.push(cur);
        assert(views(done@) =~= views(old(done)@).push(c));
    }
}

fn split_words(line: &Vec<char>) -> (w: Vec<Vec<char>>)
    ensures
        views(w@) == words(line@),
{
    let mut done: Vec<Vec<char>> = Vec::new();
    let mut cur: Vec<char> = Vec::new();
    let ghost mut pieces: Seq<Seq<char>> = Seq::empty();
    let mut i: usize = 0;
    assert(views(done@) =~= Seq::<Seq<char>>::empty());
    assert(line@.take(0) =~= Seq::<char>::empty());
    assert(pieces.push(cur@) =~= seq![Seq::<char>::empty()]);
    while i < line.len()
        invariant
            i <= line@.len(),
            split_by(line@.take(i as int), white_space()) == pieces.push(cur@),
            views(done@) == nonempty_pieces(pieces),
        decreases line@.len() - i,
    {
        let c = line[i];
        proof {
            assert(line@.take(i + 1) =~= line@.take(i as int).push(c));
            lemma_split_by_push(line@.take(i as int), c, white_space());
            assert(pieces.push(cur@).drop_last() =~= pieces);
        }
        if is_white_space_char(c) {
            push_word(&mut done, cur, Ghost(pieces));
            proof {
                pieces = pieces.push(cur@);
            }
            cur = Vec::new();
            assert(split_by(line@.take(i + 1), white_space()) =~= pieces.push(cur@));
        } else {
            cur.push(c);
            assert(split_by(line@.take(i + 1), white_space()) =~= pieces.push(cur@));
        }
        i += 1;
    }
    assert(line@.take(line@.len() as int) == line@);
    push_word(&mut done, cur, Ghost(pieces));
    done
}

/// `t` up to its first `?`.
pub open spec fn without_query(t: Seq<char>) -> Seq<char> {
    match find_char_spec(t, '?') {
        Some(q) => t.take(q),
        None => t,
    }
}

/// The request target of a request line: its second word up to the first
/// `?`, or `/` when the line has fewer than two words.
pub open spec fn request_target(line: Seq<char>) -> Seq<char> {
    let w = words(line);
    if w.len() >= 2 {
        without_query(w[1])
    } else {
        seq!['/']
    }
}

/// The line starts with `GET ` in any letter case; this is what testing the
/// upper-cased line for the prefix `GET ` amounts to.
pub open spec fn is_get_request(line: Seq<char>) -> bool {
    &&& line.len() >= 4
    &&& (line[0] == 'G' || line[0] == 'g')
    &&& (line[1] == 'E' || line[1] == 'e')
    &&& (line[2] == 'T' || line[2] == 't')
    &&& line[3] == ' '
}

/// What the PAC server answers.
#[derive(PartialEq, Eq, Structural, Debug, Clone, Copy)]
pub enum PacRoute {
    /// `GET /logo`: the application icon.
    Logo,
    /// `GET .../proxy.pac` or `GET .../wpad.dat`: the current PAC script.
    PacFile,
    /// Any method other than `GET`: an empty `404`.
    NotGet,
    /// `GET /`: the setup page.
    SetupPage,
    /// Any other `GET`: a `404` with an empty body.
    NotFound,
}

/// The route for a non-empty request line.
pub open spec fn route_of(line: Seq<char>) -> PacRoute {
    let path = normalized_path(request_target(line));
    let get = is_get_request(line);
    if get && path == "/logo"@ {
        PacRoute::Logo
    } else if get && (ends_with(path, "/proxy.pac"@) || ends_with(path, "/wpad.dat"@)) {
        PacRoute::PacFile
    } else if !get {
        PacRoute::NotGet
    } else if path == seq!['/'] || path.len() == 0 {
        PacRoute::SetupPage
    } else {
        PacRoute::NotFound
    }
}

fn is_get_chars(line: &Vec<char>) -> (b: bool)
    ensures
        b == is_get_request(line@),
{
    line.len() >= 4 && (line[0] == 'G' || line[0] == 'g') && (line[1] == 'E' || line[1] == 'e')
        && (line[2] == 'T' || line[2] == 't') && line[3] == ' '
}

/// How to answer a request whose first line is `first_line`; `None` when the
/// line is empty and nothing is answered.
pub fn route_request(first_line: &str) -> (r: Option<PacRoute>)
    ensures
        first_line@.len() == 0 ==> r is None,
        first_line@.len() > 0 ==> r == Some(route_of(first_line@)),
{
    let line = chars_of(first_line);
    if line.len() == 0 {
        return None;
    }
    let w = split_words(&line);
    let target = if w.len() >= 2 {
        let second = &w[1];
        assert(second@ == views(w@)[1]);
        match find_char(second, '?') {
            Some(q) => sub_chars(second, 0, q),
            None => sub_chars(second, 0, second.len()),
        }
    } else {
        vec!['/']
    };
    assert(target@ =~= request_target(line@));
    let path = normalized_path_chars(&target);
    let get = is_get_chars(&line);
    let slash = vec!['/'];
    assert(slash@ =~= seq!['/']);
    if get && chars_equal(&path, &chars_of("/logo")) {
        Some(PacRoute::Logo)
    } else if get && (ends_with_chars(&path, &chars_of("/proxy.pac")) || ends_with_chars(
        &path,
        &chars_of("/wpad.dat"),
    )) {
        Some(PacRoute::PacFile)
    } else if !get {
        Some(PacRoute::NotGet)
    } else if chars_equal(&path, &slash) || path.len() == 0 {
        Some(PacRoute::SetupPage)
    } else {
        Some(PacRoute::NotFound)
    }
}

// ---------------------------------------------------------------------------
// Answers
// ---------------------------------------------------------------------------

/// Status line and headers of the icon answer, up to its length.
pub const LOGO_RESPONSE_START: &'static str =
    "HTTP/1.1 200 OK\r\nContent-Type: image/png\r\nConnection: close\r\nContent-Length: ";

/// Status line and headers of a PAC answer, up to its cache header.
pub const PAC_RESPONSE_START: &'static str =
    "HTTP/1.1 200 OK\r\nContent-Type: application/x-ns-proxy-autoconfig\r\nConnection: close\r\nAccess-Control-Allow-Origin: *\r\n";

/// Cache header of a `DIRECT` PAC answer: devices must fetch it again.
pub const CACHE_DIRECT: &'static str =
    "Cache-Control: no-cache, no-store, must-revalidate, max-age=0";

/// Cache header of a proxying PAC answer.
pub const CACHE_PROXY: &'static str = "Cache-Control: max-age=60";

/// Separates the preceding header from the length header.
pub const CONTENT_LENGTH: &'static str = "\r\nContent-Length: ";

/// Ends the headers.
pub const HEADERS_END: &'static str = "\r\n\r\n";

/// The whole answer to a request that is not a `GET`.
pub const NOT_GET_RESPONSE: &'static str =
    "HTTP/1.1 404 Not Found\r\nConnection: close\r\nContent-Length: 0\r\n\r\n";

/// The headers of a page answer between its content type and its length.
pub const PAGE_HEADERS: &'static str =
    "\r\nConnection: close\r\nAccess-Control-Allow-Origin: *\r\nCache-Control: no-cache";

/// The number of UTF-8 bytes of `s`.
pub open spec fn byte_len(s: Seq<char>) -> nat {
    vstd::utf8::encode_utf8(s).len()
}

/// The icon answer: headers with the image's length, then the image.
pub open spec fn logo_response_bytes(img: Seq<u8>) -> Seq<u8> {
    vstd::utf8::encode_utf8(LOGO_RESPONSE_START@ + decimal(img.len()) + HEADERS_END@) + img
}

/// The cache header of a PAC answer for `body`.
pub open spec fn pac_cache_header(body: Seq<char>) -> Seq<char> {
    if is_direct_script(body) {
        CACHE_DIRECT@
    } else {
        CACHE_PROXY@
    }
}

/// The text of the PAC answer for `body`.
pub open spec fn pac_response_text(body: Seq<char>) -> Seq<char> {
    PAC_RESPONSE_START@ + pac_cache_header(body) + CONTENT_LENGTH@ + decimal(byte_len(body))
        + HEADERS_END@ + body
}

/// The bytes of the PAC answer for `body`.
pub open spec fn pac_response_bytes(body: Seq<char>) -> Seq<u8> {
    vstd::utf8::encode_utf8(pac_response_text(body))
}

/// The text of the setup page answer (`setup`) or of a `404` with an empty
/// body.
pub open spec fn page_response_text(setup: bool, pac_url: Seq<char>) -> Seq<char> {
    let status = if setup {
        "200 OK"@
    } else {
        "404 Not Found"@
    };
    let content_type = if setup {
        "text/html; charset=utf-8"@
    } else {
        "text/plain"@
    };
    let body = if setup {
        setup_page(pac_url)
    } else {
        Seq::empty()
    };
    "HTTP/1.1 "@ + status + "\r\nContent-Type: "@ + content_type + PAGE_HEADERS@ + CONTENT_LENGTH@
        + decimal(byte_len(body)) + HEADERS_END@ + body
}

fn push_text(out: &mut Vec<u8>, s: &String)
    ensures
        final(out)@ == old(out)@ + vstd::utf8::encode_utf8(s@),
{
    crate::text::append_utf8(out, s.as_str());
}

/// The answer to `GET /logo`.
pub fn logo_response(img: &[u8]) -> (r: Vec<u8>)
    ensures
        r@ == logo_response_bytes(img@),
{
    let mut head = String::new();
    append_str(&mut head, LOGO_RESPONSE_START);
    push_decimal(&mut head, img.len() as u64);
    append_str(&mut head, HEADERS_END);
    let mut r: Vec<u8> = Vec::new();
    push_text(&mut r, &head);
    append_bytes(&mut r, img);
    assert(head@ =~= LOGO_RESPONSE_START@ + decimal(img@.len()) + HEADERS_END@);
    assert(r@ =~= logo_response_bytes(img@));
    r
}

/// Whether `body` is the `DIRECT` fallback script (it has no `PROXY`).
pub fn is_direct_body(body: &str) -> (b: bool)
    ensures
        b == is_direct_script(body@),
{
    !contains_chars(&chars_of(body), &chars_of("PROXY"))
}

/// The PAC answer for `body`, built afresh.
pub fn build_pac_response(body: &str) -> (r: Vec<u8>)
    ensures
        r@ == pac_response_bytes(body@),
{
    let mut text = String::new();
    append_str(&mut text, PAC_RESPONSE_START);
    if is_direct_body(body) {
        append_str(&mut text, CACHE_DIRECT);
    } else {
        append_str(&mut text, CACHE_PROXY);
    }
    append_str(&mut text, CONTENT_LENGTH);
    push_decimal(&mut text, body.as_bytes().len() as u64);
    append_str(&mut text, HEADERS_END);
    append_str(&mut text, body);
    assert(text@ =~= pac_response_text(body@));
    let mut r: Vec<u8> = Vec::new();
    push_text(&mut r, &text);
    assert(r@ =~= pac_response_bytes(body@));
    r
}

/// The answer to a request that is not a `GET`.
pub fn not_get_response() -> (r: Vec<u8>)
    ensures
        r@ == vstd::utf8::encode_utf8(NOT_GET_RESPONSE@),
{
    let mut r: Vec<u8> = Vec::new();
    crate::text::append_utf8(&mut r, NOT_GET_RESPONSE);
    assert(r@ =~= vstd::utf8::encode_utf8(NOT_GET_RESPONSE@));
    r
}

/// The answer to `GET /` (`setup`) or to an unknown `GET` path.
pub fn page_response(setup: bool, pac_url: &str) -> (r: Vec<u8>)
    ensures
        r@ == vstd::utf8::encode_utf8(page_response_text(setup, pac_url@)),
{
    let body = if setup {
        make_setup_html(pac_url)
    } else {
        String::new()
    };
    let mut text = String::new();
    append_str(&mut text, "HTTP/1.1 ");
    if setup {
        append_str(&mut text, "200 OK");
    } else {
        append_str(&mut text, "404 Not Found");
    }
    append_str(&mut text, "\r\nContent-Type: ");
    if setup {
        append_str(&mut text, "text/html; charset=utf-8");
    } else {
        append_str(&mut text, "text/plain");
    }
    append_str(&mut text, PAGE_HEADERS);
    append_str(&mut text, CONTENT_LENGTH);
    push_decimal(&mut text, body.as_str().as_bytes().len() as u64);
    append_str(&mut text, HEADERS_END);
    append_str(&mut text, body.as_str());
    assert(text@ =~= page_response_text(setup, pac_url@));
    let mut r: Vec<u8> = Vec::new();
    push_text(&mut r, &text);
    assert(r@ =~= vstd::utf8::encode_utf8(page_response_text(setup, pac_url@)));
    r
}

// ---------------------------------------------------------------------------
// The PAC answer cache
// ---------------------------------------------------------------------------

/// The last PAC answer, kept so that it is built once per body.
pub struct PacCache {
    /// The bytes of the last PAC answer (empty: nothing kept).
    pub pac_response: Vec<u8>,
    /// The key of the body that answer was built for.
    pub body_hash: u64,
}

/// The cache key of a body: its hash, plus one for a `DIRECT` body, modulo
/// 2^64.
pub open spec fn cache_key(body: Seq<char>) -> u64 {
    let bit: nat = if is_direct_script(body) {
        1
    } else {
        0
    };
    ((hash_bytes(vstd::utf8::encode_utf8(body)) as nat + bit) % 0x1_0000_0000_0000_0000) as u64
}

/// The kept answer cannot be used for `body`: it was built for another key,
/// or nothing is kept.
pub open spec fn cache_is_stale(body_hash: u64, kept: Seq<u8>, body: Seq<char>) -> bool {
    body_hash != cache_key(body) || kept.len() == 0
}

/// Serving `body` from a cache: the bytes sent, then the key and the answer
/// kept afterwards.
pub open spec fn serve_from_cache(body_hash: u64, kept: Seq<u8>, body: Seq<char>) -> (
    Seq<u8>,
    u64,
    Seq<u8>,
) {
    if cache_is_stale(body_hash, kept, body) {
        (pac_response_bytes(body), cache_key(body), pac_response_bytes(body))
    } else {
        (kept, body_hash, kept)
    }
}

/// The cache key of `body`.
pub fn pac_cache_key(body: &str) -> (k: u64)
    ensures
        k == cache_key(body@),
{
    let h = simple_hash(body);
    let bit: u64 = if is_direct_body(body) {
        1
    } else {
        0
    };
    h.wrapping_add(bit)
}

impl PacCache {
    /// An empty cache.
    pub fn new() -> (c: PacCache)
        ensures
            c.pac_response@.len() == 0,
            c.body_hash == 0,
    {
        PacCache { pac_response: Vec::new(), body_hash: 0 }
    }

    /// Forgets the kept answer, so that the next request builds it afresh.
    pub fn invalidate(&mut self)
        ensures
            final(self).pac_response@.len() == 0,
            final(self).body_hash == 0,
    {
        self.body_hash = 0;
        self.pac_response.clear();
    }

    /// The PAC answer for `body`: the kept one when it was built for the same
    /// key, otherwise a fresh one, which is then kept.
    pub fn pac_file_response(&mut self, body: &str) -> (r: Vec<u8>)
        ensures
            (r@, final(self).body_hash, final(self).pac_response@) == serve_from_cache(
                old(self).body_hash,
                old(self).pac_response@,
                body@,
            ),
    {
        let key = pac_cache_key(body);
        if self.body_hash != key || self.pac_response.len() == 0 {
            self.pac_response = build_pac_response(body);
            self.body_hash = key;
        }
        let mut r: Vec<u8> = Vec::new();
        append_bytes(&mut r, self.pac_response.as_slice());
        assert(r@ =~= self.pac_response@);
        r
    }
}

/// The answer to a request routed to `route`: the bytes sent, then the key
/// and the answer the cache keeps afterwards. Only the PAC file goes through
/// the cache; `body` is the current PAC script, `pac_url` its URL and `icon`
/// the application icon.
pub open spec fn route_answer(
    route: PacRoute,
    body_hash: u64,
    kept: Seq<u8>,
    body: Seq<char>,
    pac_url: Seq<char>,
    icon: Seq<u8>,
) -> (Seq<u8>, u64, Seq<u8>) {
    match route {
        PacRoute::Logo => (logo_response_bytes(icon), body_hash, kept),
        PacRoute::PacFile => serve_from_cache(body_hash, kept, body),
        PacRoute::NotGet => (vstd::utf8::encode_utf8(NOT_GET_RESPONSE@), body_hash, kept),
        PacRoute::SetupPage => (
            vstd::utf8::encode_utf8(page_response_text(true, pac_url)),
            body_hash,
            kept,
        ),
        PacRoute::NotFound => (
            vstd::utf8::encode_utf8(page_response_text(false, pac_url)),
            body_hash,
            kept,
        ),
    }
}

/// The bytes to send for a request routed to `route`, as `route_answer`
/// states; the cache is used and refreshed for the PAC file only.
pub fn pac_answer(cache: &mut PacCache, route: PacRoute, body: &str, pac_url: &str, icon: &[u8]) -> (r:
    Vec<u8>)
    ensures
        (r@, final(cache).body_hash, final(cache).pac_response@) == route_answer(
            route,
            old(cache).body_hash,
            old(cache).pac_response@,
            body@,
            pac_url@,
            icon@,
        ),
{
    match route {
        PacRoute::Logo => logo_response(icon),
        PacRoute::PacFile => cache.pac_file_response(body),
        PacRoute::NotGet => not_get_response(),
        PacRoute::SetupPage => page_response(true, pac_url),
        PacRoute::NotFound => page_response(false, pac_url),
    }
}

// ---------------------------------------------------------------------------
// Laws of the answers and the cache
// ---------------------------------------------------------------------------

/// A PAC answer is never empty: it always carries its status line.
pub proof fn lemma_pac_response_nonempty(body: Seq<char>)
    ensures
        pac_response_bytes(body).len() > 0,
{
    let t = pac_response_text(body);
    assert(t.len() > 0) by {
        reveal_strlit("\r\n\r\n");
        assert(HEADERS_END@.len() == 4);
    }
    assert(vstd::utf8::encode_utf8(t) == vstd::utf8::encode_scalar(t[0] as u32)
        + vstd::utf8::encode_utf8(t.drop_first()));
}

/// After the cache is invalidated (or when it is new), the next PAC request
/// is answered with a freshly built answer for the current body.
pub proof fn lemma_invalidated_cache_serves_fresh(body: Seq<char>)
    ensures
        serve_from_cache(0, Seq::empty(), body).0 == pac_response_bytes(body),
{
}

/// Serving the same body twice in a row sends the same bytes and leaves the
/// cache as the first request left it.
pub proof fn lemma_serving_is_idempotent(body_hash: u64, kept: Seq<u8>, body: Seq<char>)
    ensures
        ({
            let (sent, h, k) = serve_from_cache(body_hash, kept, body);
            serve_from_cache(h, k, body) == (sent, h, k)
        }),
{
    lemma_pac_response_nonempty(body);
}

/// A cache that is empty, or that keeps the answer built for some body
/// `earlier`, answers `body` with the answer built for `body`, unless
/// `earlier` is another body with the same cache key.
pub proof fn lemma_cache_answers_current_body(
    body_hash: u64,
    kept: Seq<u8>,
    earlier: Seq<char>,
    body: Seq<char>,
)
    requires
        kept.len() == 0 || (body_hash == cache_key(earlier) && kept == pac_response_bytes(
            earlier,
        )),
    ensures
        serve_from_cache(body_hash, kept, body).0 == pac_response_bytes(body) || (earlier != body
            && cache_key(earlier) == cache_key(body)),
        ({
            let (_, h, k) = serve_from_cache(body_hash, kept, body);
            exists|b: Seq<char>| h == cache_key(b) && k == pac_response_bytes(b) && cache_key(b)
                == cache_key(body)
        }),
{
    let (_, h, k) = serve_from_cache(body_hash, kept, body);
    if cache_is_stale(body_hash, kept, body) {
        assert(h == cache_key(body) && k == pac_response_bytes(body));
    } else {
        assert(h == cache_key(earlier) && k == pac_response_bytes(earlier));
    }
}

proof fn lemma_decimal_has_no_slash(n: nat)
    ensures
        forall|i: int| 0 <= i < decimal(n).len() ==> #[trigger] decimal(n)[i] != '/',
    decreases n,
{
    if n >= 10 {
        lemma_decimal_has_no_slash(n / 10);
        let d = decimal(n);
        assert forall|i: int| 0 <= i < d.len() implies #[trigger] d[i] != '/' by {
            if i < d.len() - 1 {
                assert(d[i] == decimal(n / 10)[i]);
            }
        }
    }
}

/// The PAC URL advertised to devices is served as the PAC script: for a LAN
/// address without `/`, the path of `pac_url(ip, port)` is `/proxy.pac`, a
/// path that the server answers with the PAC script.
pub proof fn lemma_advertised_url_serves_pac(lan_ip: Seq<char>, port: u16)
    requires
        forall|i: int| 0 <= i < lan_ip.len() ==> lan_ip[i] != '/',
    ensures
        normalized_path(pac_url(lan_ip, port)) == "/proxy.pac"@,
        ends_with(normalized_path(pac_url(lan_ip, port)), "/proxy.pac"@),
        normalized_path(pac_url(lan_ip, port)) != "/logo"@,
{
    reveal_strlit("http://");
    reveal_strlit("://");
    reveal_strlit("/proxy.pac");
    reveal_strlit("/logo");
    let url = pac_url(lan_ip, port);
    let dec = decimal(port as nat);
    lemma_decimal_has_no_slash(port as nat);
    assert(url.subrange(4, 7) =~= "://"@);
    assert forall|j: int| 0 <= j < 4 implies !occurs_at(url, "://"@, j) by {
        assert(url.subrange(j, j + 3)[0] == url[j]);
        assert(url.subrange(j, j + 3)[1] == url[j + 1]);
    }
    assert(first_occurrence(url, "://"@, 4));
    lemma_find_spec(url, "://"@, 4);
    let after = url.subrange(7, url.len() as int);
    assert(after =~= lan_ip + seq![':'] + dec + "/proxy.pac"@);
    let q: int = (lan_ip.len() + 1 + dec.len()) as int;
    assert forall|j: int| 0 <= j < q implies after[j] != '/' by {
        if j < lan_ip.len() {
            assert(after[j] == lan_ip[j]);
        } else if j == lan_ip.len() {
            assert(after[j] == ':');
        } else {
            assert(after[j] == dec[j - lan_ip.len() - 1]);
        }
    }
    assert(after[q] == '/');
    assert(first_char_at(after, '/', q));
    lemma_find_char_spec(after, '/', q);
    assert(after.subrange(q, after.len() as int) =~= "/proxy.pac"@);
    let path = normalized_path(url);
    assert(path.subrange(0, 10) =~= path);
    assert(path.len() != "/logo"@.len());
}

} // verus!
