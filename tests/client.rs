use paperless_client::pagination::Paginated;
use paperless_client::{Auth, Client, Method};

fn pair(a: &str, b: &str) -> (String, String) {
    (a.to_string(), b.to_string())
}

#[test]
fn request_carries_fixed_headers_first() {
    let client = Client::new("https://docs.example".to_string(), Auth::new("Token abc".to_string()));
    let r = client.build(Method::GET, "/api/share_links/", None);
    assert_eq!(r.method, Method::GET);
    assert_eq!(r.url, "https://docs.example/api/share_links/");
    assert_eq!(
        r.headers,
        vec![pair("accept", "application/json; version=9"), pair("authorization", "Token abc")]
    );
    assert_eq!(r.body, None);
}

#[test]
fn additional_headers_follow_in_order() {
    let client = Client::with_headers(
        "http://localhost:8000".to_string(),
        Auth::new("Basic dXNlcjpwYXNz".to_string()),
        vec![pair("x-b", "2"), pair("accept", "text/plain"), pair("x-b", "3")],
    );
    let r = client.build(Method::POST, "/api/share_links/", Some("{\"document\":1}".to_string()));
    assert_eq!(r.url, "http://localhost:8000/api/share_links/");
    assert_eq!(
        r.headers,
        vec![
            pair("accept", "application/json; version=9"),
            pair("authorization", "Basic dXNlcjpwYXNz"),
            pair("content-type", "application/json"),
            pair("x-b", "2"),
            pair("accept", "text/plain"),
            pair("x-b", "3"),
        ]
    );
    assert_eq!(r.body, Some("{\"document\":1}".to_string()));
}

#[test]
fn additional_headers_can_be_changed() {
    let mut client = Client::new("http://h".to_string(), Auth::new("Token t".to_string()));
    assert!(client.additional_headers().is_empty());
    client.additional_headers_mut().push(pair("x-request-id", "1"));
    assert_eq!(client.additional_headers(), &[pair("x-request-id", "1")][..]);
    let r = client.build_for_url(Method::GET, "http://h/api/share_links/?page=2".to_string(), None);
    assert_eq!(r.url, "http://h/api/share_links/?page=2");
    assert_eq!(r.headers[2], pair("x-request-id", "1"));
    assert_eq!(r.headers.len(), 3);
}

#[test]
fn auth_header_value_is_kept() {
    let auth = Auth::new("Token SECRET-REDACTED".to_string());
    assert_eq!(auth.header_value(), "Token SECRET-REDACTED");
}

fn page(next: Option<&str>, previous: Option<&str>) -> Paginated<u32> {
    Paginated {
        count: 3,
        next: next.map(String::from),
        previous: previous.map(String::from),
        results: vec![1, 2],
    }
}

#[test]
fn last_page_has_no_next_and_makes_no_call() {
    let p = page(None, Some("http://h/api/share_links/?page=1"));
    let mut calls = 0;
    let r = p.next_page(|_target| {
        calls += 1;
        0u32
    });
    assert!(r.is_none());
    assert_eq!(calls, 0);
}

#[test]
fn next_page_fetches_once_with_the_locator() {
    let p = page(Some("http://h/api/share_links/?page=3"), Some("http://h/api/share_links/?page=1"));
    let mut seen = Vec::new();
    let r = p.next_page(|target| {
        seen.push(target.clone());
        Ok::<String, String>(format!("fetched {target}"))
    });
    assert_eq!(seen, vec!["http://h/api/share_links/?page=3".to_string()]);
    assert_eq!(r, Some(Ok("fetched http://h/api/share_links/?page=3".to_string())));
}

#[test]
fn previous_page_follows_its_locator() {
    let p = page(Some("http://h/api/share_links/?page=3"), Some("http://h/api/share_links/?page=1"));
    let r = p.previous_page(|target| target);
    assert_eq!(r, Some("http://h/api/share_links/?page=1".to_string()));
    let first = page(Some("http://h/api/share_links/?page=2"), None);
    assert_eq!(first.previous_page(|target| target), None);
}
