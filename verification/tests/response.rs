use embridge::response::{parse_cookie_pair, response_to_host, translate_response};

#[test]
fn cookies_extracted_from_cookie_headers() {
    let headers = vec![
        ("content-type".to_owned(), "text/html".to_owned()),
        ("set-cookie".to_owned(), "sid=abc123; Path=/; HttpOnly".to_owned()),
        ("set-cookie".to_owned(), "theme=dark".to_owned()),
    ];
    let resp = translate_response(
        200,
        "https://example.test/final".to_owned(),
        &headers,
        "<html></html>".to_owned(),
    );
    assert_eq!(resp.status, 200);
    assert_eq!(resp.url, "https://example.test/final");
    assert_eq!(resp.body, "<html></html>");
    assert_eq!(resp.headers.get("content-type").map(|s| s.as_str()), Some("text/html"));
    assert_eq!(resp.cookies.len(), 2);
    assert_eq!(resp.cookies.get("sid").map(|s| s.as_str()), Some("abc123"));
    assert_eq!(resp.cookies.get("theme").map(|s| s.as_str()), Some("dark"));
}

#[test]
fn malformed_cookie_headers_are_skipped() {
    let headers = vec![
        ("set-cookie".to_owned(), "no-equals-here".to_owned()),
        ("set-cookie".to_owned(), "=value-without-name".to_owned()),
        ("set-cookie".to_owned(), "good=yes".to_owned()),
    ];
    let resp = translate_response(204, "https://example.test".to_owned(), &headers, String::new());
    assert_eq!(resp.cookies.len(), 1);
    assert_eq!(resp.cookies.get("good").map(|s| s.as_str()), Some("yes"));
}

#[test]
fn cookie_pair_parsing_is_exact() {
    assert_eq!(
        parse_cookie_pair("a=b; Path=/"),
        Some(("a".to_owned(), "b".to_owned())),
    );
    assert_eq!(parse_cookie_pair("a="), Some(("a".to_owned(), String::new())));
    assert_eq!(parse_cookie_pair("token=x=y; Secure"), Some(("token".to_owned(), "x=y".to_owned())));
    assert_eq!(parse_cookie_pair("=b"), None);
    assert_eq!(parse_cookie_pair("plain"), None);
    assert_eq!(parse_cookie_pair(""), None);
}

#[test]
fn later_cookie_with_same_name_overwrites() {
    let headers = vec![
        ("set-cookie".to_owned(), "sid=first".to_owned()),
        ("set-cookie".to_owned(), "sid=second".to_owned()),
    ];
    let resp = translate_response(200, "https://example.test".to_owned(), &headers, String::new());
    assert_eq!(resp.cookies.len(), 1);
    assert_eq!(resp.cookies.get("sid").map(|s| s.as_str()), Some("second"));
}

#[test]
fn duplicate_headers_overwrite_in_the_mapping() {
    let headers = vec![
        ("x-a".to_owned(), "1".to_owned()),
        ("x-b".to_owned(), "2".to_owned()),
        ("x-a".to_owned(), "3".to_owned()),
    ];
    let resp = translate_response(200, "https://example.test".to_owned(), &headers, String::new());
    assert_eq!(resp.headers.len(), 2);
    assert_eq!(resp.headers.get("x-a").map(|s| s.as_str()), Some("3"));
    assert_eq!(resp.headers.key_at(0).as_str(), "x-a");
    assert_eq!(resp.headers.key_at(1).as_str(), "x-b");
}

#[test]
fn host_round_trip_reproduces_every_field() {
    let headers = vec![
        ("content-type".to_owned(), "application/json".to_owned()),
        ("set-cookie".to_owned(), "sid=abc".to_owned()),
        ("x-order".to_owned(), "kept".to_owned()),
    ];
    let resp = translate_response(
        301,
        "https://example.test/after-redirect".to_owned(),
        &headers,
        "{\"ok\":true}".to_owned(),
    );
    let host = response_to_host(&resp);
    assert_eq!(host.status, resp.status);
    assert_eq!(host.url, resp.url);
    assert_eq!(host.body, resp.body);
    assert_eq!(host.headers.len(), resp.headers.len());
    for i in 0..resp.headers.len() {
        assert_eq!(host.headers.key_at(i), resp.headers.key_at(i));
        assert_eq!(host.headers.value_at(i), resp.headers.value_at(i));
    }
    assert_eq!(host.cookies.len(), resp.cookies.len());
    for i in 0..resp.cookies.len() {
        assert_eq!(host.cookies.key_at(i), resp.cookies.key_at(i));
        assert_eq!(host.cookies.value_at(i), resp.cookies.value_at(i));
    }
}
