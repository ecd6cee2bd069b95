use toy_load_balancer::proxy::create_proxy_url;

#[test]
fn proxy_url_is_host_path_and_query() {
    let url = create_proxy_url("http://localhost:9000", "/ping", None).unwrap();
    assert_eq!(url, "http://localhost:9000/ping");
    // The query is appended without a '?'.
    let url = create_proxy_url("http://localhost:9000", "/custom-payload", Some("size=10")).unwrap();
    assert_eq!(url, "http://localhost:9000/custom-payloadsize=10");
}

#[test]
fn proxy_url_that_does_not_parse() {
    let err = create_proxy_url("", "", None).unwrap_err();
    assert_eq!(err.url, "");
    let err = create_proxy_url("http://", "", None).unwrap_err();
    assert_eq!(err.url, "http://");
}

#[test]
fn parser_rule_on_texts_without_a_scheme() {
    // Asterisk form, origin form and authority form are accepted.
    assert_eq!(create_proxy_url("*", "", None).unwrap(), "*");
    assert_eq!(create_proxy_url("/", "ping", None).unwrap(), "/ping");
    assert_eq!(create_proxy_url("localhost:3001", "", None).unwrap(), "localhost:3001");
    // Without `://`, a `/` or `?` that does not start the text is refused.
    assert!(create_proxy_url("localhost:3001", "/a/b", Some("x=1")).is_err());
    assert!(create_proxy_url("localhost", "", Some("?q")).is_err());
}

#[test]
fn parser_rule_on_the_authority() {
    // The authority is taken from three bytes past the first ':'.
    assert!(create_proxy_url("a:b://x", "", None).is_ok());
    assert!(create_proxy_url("a[:b://x]", "", None).is_err());
    assert!(create_proxy_url("http://[::1]", "/x", None).is_ok());
    assert!(create_proxy_url("http://[::1", "/x", None).is_err());
    assert!(create_proxy_url("http://", "?q", None).is_err());
}
