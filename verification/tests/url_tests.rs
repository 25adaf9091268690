use session_history::urls::{resolve_url, Url};

fn plain(scheme: &str, host: &str, path: &str) -> Url {
    Url {
        scheme: scheme.to_string(),
        username: String::new(),
        password: None,
        host: Some(host.to_string()),
        port: None,
        path: path.to_string(),
        query: None,
        fragment: None,
    }
}

#[test]
fn rewrite_is_reflexive_on_a_plain_url() {
    let u = plain("https", "a", "/x");
    assert!(Url::can_have_url_rewritten(&u, &u));
}

#[test]
fn rewrite_is_reflexive_with_query_and_fragment() {
    let mut u = plain("file", "", "/x");
    u.host = None;
    u.query = Some("q=1".to_string());
    u.fragment = Some("f".to_string());
    assert!(Url::can_have_url_rewritten(&u, &u));
}

#[test]
fn rewrite_rejects_different_scheme() {
    let a = plain("https", "a", "/x");
    let b = plain("http", "a", "/x");
    assert!(!Url::can_have_url_rewritten(&a, &b));
}

#[test]
fn rewrite_rejects_different_host() {
    let a = plain("https", "a", "/x");
    let b = plain("https", "b", "/x");
    assert!(!Url::can_have_url_rewritten(&a, &b));
}

#[test]
fn rewrite_rejects_different_port() {
    let a = plain("https", "a", "/x");
    let mut b = plain("https", "a", "/x");
    b.port = Some(8443);
    assert!(!Url::can_have_url_rewritten(&a, &b));
}

#[test]
fn rewrite_rejects_different_username_or_password() {
    let a = plain("https", "a", "/x");
    let mut b = plain("https", "a", "/x");
    b.username = "u".to_string();
    assert!(!Url::can_have_url_rewritten(&a, &b));
    let mut c = plain("https", "a", "/x");
    c.password = Some("p".to_string());
    assert!(!Url::can_have_url_rewritten(&a, &c));
}

#[test]
fn http_may_change_path_and_query() {
    let a = plain("https", "a", "/x");
    let mut b = plain("https", "a", "/y");
    b.query = Some("n=2".to_string());
    assert!(Url::can_have_url_rewritten(&a, &b));
}

#[test]
fn file_ignores_query_but_requires_exact_path() {
    let mut a = plain("file", "", "/x");
    a.host = None;
    a.query = Some("q=1".to_string());
    let mut same_path = plain("file", "", "/x");
    same_path.host = None;
    same_path.query = Some("q=2".to_string());
    assert!(Url::can_have_url_rewritten(&a, &same_path));
    let mut other_path = plain("file", "", "/y");
    other_path.host = None;
    other_path.query = Some("q=1".to_string());
    assert!(!Url::can_have_url_rewritten(&a, &other_path));
}

#[test]
fn other_schemes_require_exact_path_and_query() {
    let a = plain("ftp", "a", "/x");
    let mut same = plain("ftp", "a", "/x");
    same.query = None;
    assert!(Url::can_have_url_rewritten(&a, &same));
    let b = plain("ftp", "a", "/y");
    assert!(!Url::can_have_url_rewritten(&a, &b));
    let mut c = plain("ftp", "a", "/x");
    c.query = Some("q".to_string());
    assert!(!Url::can_have_url_rewritten(&a, &c));
}

#[test]
fn href_renders_all_components() {
    let u = Url {
        scheme: "https".to_string(),
        username: "user".to_string(),
        password: Some("pw".to_string()),
        host: Some("example.test".to_string()),
        port: Some(8443),
        path: "/a/b".to_string(),
        query: Some("k=v".to_string()),
        fragment: Some("frag".to_string()),
    };
    assert_eq!(u.href(), "https://user:pw@example.test:8443/a/b?k=v#frag");
}

#[test]
fn href_renders_the_largest_port() {
    let mut u = plain("https", "h", "/");
    u.port = Some(65535);
    assert_eq!(u.href(), "https://h:65535/");
    u.port = Some(80);
    assert_eq!(u.href(), "https://h:80/");
}

#[test]
fn href_of_a_plain_url() {
    let u = plain("https", "a", "/x");
    assert_eq!(u.href(), "https://a/x");
}

#[test]
fn resolve_relative_path_against_document_url() {
    let base = plain("https", "a", "/x/y");
    let r = resolve_url(&base, "z").expect("relative reference should resolve");
    assert_eq!(r.scheme, "https");
    assert_eq!(r.host.as_deref(), Some("a"));
    assert_eq!(r.path, "/x/z");
    assert_eq!(r.fragment, None);
}

#[test]
fn resolve_absolute_url_replaces_origin() {
    let base = plain("https", "a", "/");
    let r = resolve_url(&base, "http://other.example/p?q#f").expect("absolute URL should parse");
    assert_eq!(r.scheme, "http");
    assert_eq!(r.host.as_deref(), Some("other.example"));
    assert_eq!(r.path, "/p");
    assert_eq!(r.query.as_deref(), Some("q"));
    assert_eq!(r.fragment.as_deref(), Some("f"));
}

#[test]
fn resolve_garbage_fails() {
    let base = plain("https", "a", "/");
    assert!(resolve_url(&base, "http://[not a host/").is_none());
}

#[test]
fn duplicate_preserves_every_component() {
    let u = Url {
        scheme: "wss".to_string(),
        username: "u".to_string(),
        password: Some("p".to_string()),
        host: Some("h".to_string()),
        port: Some(1),
        path: "/p".to_string(),
        query: Some("q".to_string()),
        fragment: Some("f".to_string()),
    };
    let d = u.duplicate();
    assert_eq!(d.scheme, u.scheme);
    assert_eq!(d.username, u.username);
    assert_eq!(d.password, u.password);
    assert_eq!(d.host, u.host);
    assert_eq!(d.port, u.port);
    assert_eq!(d.path, u.path);
    assert_eq!(d.query, u.query);
    assert_eq!(d.fragment, u.fragment);
}
