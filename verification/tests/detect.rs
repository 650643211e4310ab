use miniproxee::detect::{determine_http11, LARGEST_HTTP_METHOD};

fn detect(input: &[u8]) -> bool {
    determine_http11(input, input.len())
}

#[test]
fn test_determine_http11_get() {
    assert_eq!(detect(b"GET /some/long/path?a=b HTTP/1.1"), true);
}

#[test]
fn test_determine_http11_post() {
    assert_eq!(detect(b"POST /some/long/path?a=b HTTP/1.1"), true);
}

#[test]
fn test_determine_http11_put() {
    assert_eq!(detect(b"PUT /some/long/path?a=b HTTP/1.1"), true);
}

#[test]
fn test_determine_http11_patch() {
    assert_eq!(detect(b"PATCH /some/long/path?a=b HTTP/1.1"), true);
}

#[test]
fn test_determine_http11_head() {
    assert_eq!(detect(b"HEAD /some/long/path?a=b HTTP/1.1"), true);
}

#[test]
fn test_determine_http11_options() {
    assert_eq!(detect(b"OPTIONS /some/long/path?a=b HTTP/1.1"), true);
}

#[test]
fn test_determine_http11_connect() {
    assert_eq!(detect(b"CONNECT /some/long/path?a=b HTTP/1.1"), true);
}

#[test]
fn test_determine_http11_trace() {
    assert_eq!(detect(b"TRACE /some/long/path?a=b HTTP/1.1"), true);
}

#[test]
fn test_determine_http11_delete() {
    assert_eq!(detect(b"DELETE /some/long/path?a=b HTTP/1.1"), true);
}

#[test]
fn test_determine_http11_got_prefix() {
    assert_eq!(detect(b"GOTME /some/long/path?a=b HTTP/1.1"), false);
}

#[test]
fn test_determine_http11_post_prefix() {
    assert_eq!(detect(b"POSTED /some/long/path?a=b HTTP/1.1"), true);
}

#[test]
fn test_determine_http11_invalid_prefix() {
    assert_eq!(detect(b"LONGD /some/long/path?a=b HTTP/1.1"), false);
}

#[test]
fn nothing_read_is_not_http() {
    assert!(!determine_http11(b"GET / HTTP/1.1", 0));
    assert!(!determine_http11(b"", 0));
}

#[test]
fn a_bare_method_is_http() {
    assert!(detect(b"GET"));
    assert!(detect(b"HEAD"));
    assert!(detect(b"CONNECT"));
}

#[test]
fn methods_are_case_sensitive() {
    assert!(!detect(b"get /index.html"));
}

#[test]
fn only_the_first_bytes_decide() {
    // Two reads that agree on their first seven bytes give the same answer.
    let a = b"OPTIONS * HTTP/1.1";
    let b = b"OPTIONSxxxxxxxxxxxxxxxxxxxxxx";
    assert_eq!(LARGEST_HTTP_METHOD, 7);
    assert_eq!(detect(a), detect(b));
    let c = b"TRACKER and more";
    let d = b"TRACKERS";
    assert_eq!(detect(c), false);
    assert_eq!(detect(d), false);
}

#[test]
fn short_reads_are_decided_too() {
    assert!(!determine_http11(b"GE", 2));
    assert!(!determine_http11(b"HEA", 3));
    assert!(determine_http11(b"PUT", 3));
    assert!(!determine_http11(b"XXXXXX", 6));
    assert!(!determine_http11(b"G", 1));
    assert!(determine_http11(b"PATCH", 5));
}
