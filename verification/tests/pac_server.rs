use xzual_tauri_lib::http::{
    build_pac_response, is_direct_body, logo_response, normalize_path, not_get_response,
    pac_answer, pac_cache_key, page_response, route_request, PacCache, PacRoute,
};
use xzual_tauri_lib::hash::simple_hash;
use xzual_tauri_lib::pac::{
    make_pac_body, make_pac_direct_body, make_pac_url, pac_server_start, PacStart,
};
use xzual_tauri_lib::setup_page::{html_escape, make_setup_html};

#[test]
fn normalize_path_documented_examples() {
    assert_eq!(normalize_path("http://192.168.1.5:8787/proxy.pac"), "/proxy.pac");
    assert_eq!(normalize_path("http://192.168.1.5:8787/"), "/");
    assert_eq!(normalize_path("/proxy.pac"), "/proxy.pac");
}

#[test]
fn normalize_path_edge_cases() {
    assert_eq!(normalize_path("http://host:1"), "/");
    assert_eq!(normalize_path(""), "");
    assert_eq!(normalize_path("a://b/c://d/e"), "/c://d/e");
    assert_eq!(normalize_path("://x"), "/");
    assert_eq!(normalize_path("http://ğ.example/şey"), "/şey");
}

#[test]
fn advertised_url_is_served_as_pac() {
    let url = make_pac_url("192.168.1.5", 8787);
    assert_eq!(normalize_path(&url), "/proxy.pac");
    let line = format!("GET {} HTTP/1.1\r\n", url);
    assert_eq!(route_request(&line), Some(PacRoute::PacFile));
}

#[test]
fn routes_of_request_lines() {
    assert_eq!(route_request(""), None);
    assert_eq!(route_request("GET /logo HTTP/1.1\r\n"), Some(PacRoute::Logo));
    assert_eq!(route_request("get /proxy.pac HTTP/1.1\r\n"), Some(PacRoute::PacFile));
    assert_eq!(route_request("GET /wpad.dat HTTP/1.0\r\n"), Some(PacRoute::PacFile));
    assert_eq!(route_request("GET /x/proxy.pac?v=2 HTTP/1.1\r\n"), Some(PacRoute::PacFile));
    assert_eq!(route_request("GET http://1.2.3.4:8787/wpad.dat HTTP/1.1\r\n"), Some(PacRoute::PacFile));
    assert_eq!(route_request("POST /proxy.pac HTTP/1.1\r\n"), Some(PacRoute::NotGet));
    assert_eq!(route_request("GET\r\n"), Some(PacRoute::NotGet));
    assert_eq!(route_request("GET / HTTP/1.1\r\n"), Some(PacRoute::SetupPage));
    assert_eq!(route_request("GET /?x=1 HTTP/1.1\r\n"), Some(PacRoute::SetupPage));
    assert_eq!(route_request("GET ?x=1 HTTP/1.1\r\n"), Some(PacRoute::SetupPage));
    assert_eq!(route_request("GET  HTTP/1.1\r\n"), Some(PacRoute::NotFound));
    assert_eq!(route_request("GET /favicon.ico HTTP/1.1\r\n"), Some(PacRoute::NotFound));
    assert_eq!(route_request("GEt /logo\r\n"), Some(PacRoute::Logo));
    assert_eq!(route_request("GET\t/logo\r\n"), Some(PacRoute::NotGet));
    assert_eq!(route_request("GET /logo/ HTTP/1.1\r\n"), Some(PacRoute::NotFound));
}

#[test]
fn logo_answer() {
    let r = logo_response(&[1, 2, 3]);
    let mut expected =
        b"HTTP/1.1 200 OK\r\nContent-Type: image/png\r\nConnection: close\r\nContent-Length: 3\r\n\r\n".to_vec();
    expected.extend_from_slice(&[1, 2, 3]);
    assert_eq!(r, expected);
}

fn expected_pac_answer(body: &str) -> Vec<u8> {
    let cache_header = if !body.contains("PROXY") {
        "Cache-Control: no-cache, no-store, must-revalidate, max-age=0"
    } else {
        "Cache-Control: max-age=60"
    };
    format!(
        "HTTP/1.1 200 OK\r\nContent-Type: application/x-ns-proxy-autoconfig\r\nConnection: close\r\nAccess-Control-Allow-Origin: *\r\n{}\r\nContent-Length: {}\r\n\r\n{}",
        cache_header,
        body.len(),
        body
    )
    .into_bytes()
}

#[test]
fn pac_answers_and_cache_headers() {
    let direct = make_pac_direct_body();
    let proxied = make_pac_body("192.168.1.5", 8080, "a.com", "");
    assert!(is_direct_body(&direct));
    assert!(!is_direct_body(&proxied));
    let d = build_pac_response(&direct);
    assert_eq!(d, expected_pac_answer(&direct));
    assert!(String::from_utf8(d).unwrap().contains("max-age=0"));
    let p = build_pac_response(&proxied);
    assert_eq!(p, expected_pac_answer(&proxied));
    assert!(String::from_utf8(p).unwrap().contains("Cache-Control: max-age=60\r\n"));
    // Content-Length counts bytes, not characters.
    let s = String::from_utf8(build_pac_response("ğ")).unwrap();
    assert!(s.contains("Content-Length: 2\r\n"));
}

#[test]
fn cache_key_values() {
    let direct = make_pac_direct_body();
    assert_eq!(pac_cache_key(&direct), simple_hash(&direct).wrapping_add(1));
    let proxied = make_pac_body("1.1.1.1", 1, "", "");
    assert_eq!(pac_cache_key(&proxied), simple_hash(&proxied));
}

#[test]
fn cache_builds_then_reuses() {
    let body = make_pac_body("192.168.1.5", 8080, "", "");
    let mut cache = PacCache::new();
    assert!(cache.pac_response.is_empty());
    assert_eq!(cache.body_hash, 0);
    let first = cache.pac_file_response(&body);
    assert_eq!(first, expected_pac_answer(&body));
    assert_eq!(cache.body_hash, pac_cache_key(&body));
    assert_eq!(cache.pac_response, first);
    let second = cache.pac_file_response(&body);
    assert_eq!(second, first);
    assert_eq!(cache.pac_response, first);
}

#[test]
fn cache_follows_body_changes_and_invalidation() {
    let proxied = make_pac_body("192.168.1.5", 8080, "", "");
    let direct = make_pac_direct_body();
    let mut cache = PacCache::new();
    let _ = cache.pac_file_response(&proxied);
    let after_stop = cache.pac_file_response(&direct);
    assert_eq!(after_stop, expected_pac_answer(&direct));
    cache.invalidate();
    assert!(cache.pac_response.is_empty());
    assert_eq!(cache.body_hash, 0);
    let again = cache.pac_file_response(&direct);
    assert_eq!(again, expected_pac_answer(&direct));
}

#[test]
fn stale_cache_with_same_key_is_reused() {
    // A kept answer is reused whenever the key matches, whatever it holds.
    let body = make_pac_body("10.0.0.1", 8080, "", "");
    let mut cache = PacCache { pac_response: b"kept".to_vec(), body_hash: pac_cache_key(&body) };
    assert_eq!(cache.pac_file_response(&body), b"kept".to_vec());
    let mut cache = PacCache { pac_response: b"kept".to_vec(), body_hash: pac_cache_key(&body) ^ 1 };
    assert_eq!(cache.pac_file_response(&body), expected_pac_answer(&body));
}

#[test]
fn not_get_answer() {
    assert_eq!(
        not_get_response(),
        b"HTTP/1.1 404 Not Found\r\nConnection: close\r\nContent-Length: 0\r\n\r\n".to_vec()
    );
}

#[test]
fn page_answers() {
    let url = "http://192.168.1.5:8787/proxy.pac";
    let html = make_setup_html(url);
    let r = String::from_utf8(page_response(true, url)).unwrap();
    assert_eq!(
        r,
        format!(
            "HTTP/1.1 200 OK\r\nContent-Type: text/html; charset=utf-8\r\nConnection: close\r\nAccess-Control-Allow-Origin: *\r\nCache-Control: no-cache\r\nContent-Length: {}\r\n\r\n{}",
            html.len(),
            html
        )
    );
    let nf = String::from_utf8(page_response(false, url)).unwrap();
    assert_eq!(
        nf,
        "HTTP/1.1 404 Not Found\r\nContent-Type: text/plain\r\nConnection: close\r\nAccess-Control-Allow-Origin: *\r\nCache-Control: no-cache\r\nContent-Length: 0\r\n\r\n"
    );
}

#[test]
fn setup_page_shows_url() {
    let html = make_setup_html("http://10.1.2.3:8790/proxy.pac");
    assert!(html.starts_with("<!DOCTYPE html>\n<html lang=\"tr\">"));
    assert!(html.contains("<div class=\"input-box\" id=\"url-box\">http://10.1.2.3:8790/proxy.pac</div>"));
    assert!(html.ends_with("</html>"));
    assert!(html.contains(":root {\n    --bg: #09090b;"));
}

#[test]
fn html_escape_values() {
    assert_eq!(html_escape(""), "");
    assert_eq!(
        html_escape("<a href=\"x\">&amp;</a>"),
        "&lt;a href=&quot;x&quot;&gt;&amp;amp;&lt;/a&gt;"
    );
    assert_eq!(html_escape("it's ğ"), "it's ğ");
    let escaped = html_escape("<<\"\">>&");
    assert!(!escaped.contains('<') && !escaped.contains('>') && !escaped.contains('"'));
}

#[test]
fn answers_follow_the_route() {
    let body = make_pac_body("192.168.1.5", 8080, "", "");
    let url = "http://192.168.1.5:8787/proxy.pac";
    let icon = [1u8, 2, 3];
    let mut cache = PacCache::new();
    assert_eq!(pac_answer(&mut cache, PacRoute::Logo, &body, url, &icon), logo_response(&icon));
    assert_eq!(cache.body_hash, 0);
    assert!(cache.pac_response.is_empty());
    assert_eq!(pac_answer(&mut cache, PacRoute::NotGet, &body, url, &icon), not_get_response());
    assert_eq!(pac_answer(&mut cache, PacRoute::SetupPage, &body, url, &icon), page_response(true, url));
    assert_eq!(pac_answer(&mut cache, PacRoute::NotFound, &body, url, &icon), page_response(false, url));
    assert!(cache.pac_response.is_empty());
    let pac = pac_answer(&mut cache, PacRoute::PacFile, &body, url, &icon);
    assert_eq!(pac, build_pac_response(&body));
    assert_eq!(cache.body_hash, pac_cache_key(&body));
    assert_eq!(cache.pac_response, pac);
}

#[test]
fn running_server_keeps_its_port() {
    match pac_server_start(Some(8790), "10.0.0.4") {
        PacStart::Running { port, url } => {
            assert_eq!(port, 8790);
            assert_eq!(url, "http://10.0.0.4:8790/proxy.pac");
        }
        PacStart::Bind => panic!("a running server is not bound again"),
    }
    assert!(matches!(pac_server_start(None, "10.0.0.4"), PacStart::Bind));
}
