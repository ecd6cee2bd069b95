use toy_load_balancer::host_resolver::HostResolver;
use toy_load_balancer::router::{Action, Exchange, Method, Phase, RequestHead, Router, UpstreamResult};

fn resolver() -> HostResolver {
    HostResolver::new(vec![
        "h1:3001".to_string(),
        "h2:3002".to_string(),
        "h3:3003".to_string(),
    ])
}

fn head(method: Method, path: &str, query: Option<&str>) -> RequestHead {
    RequestHead { method, path: path.to_string(), query: query.map(|q| q.to_string()) }
}

fn sent_url(action: &Action) -> (String, u32) {
    match action {
        Action::SendUpstream { url, attempt } => (url.clone(), *attempt),
        other => panic!("expected a request upstream, got {:?}", other),
    }
}

#[test]
fn create_url_joins_host_path_and_query() {
    let url = Router::create_url("h1:3001", "/ping", Some("size=100")).unwrap();
    assert_eq!(url, "http://h1:3001/ping?size=100");
    let url = Router::create_url("h1:3001", "/ping", None).unwrap();
    assert_eq!(url, "http://h1:3001/ping");
}

#[test]
fn create_url_refuses_an_empty_host() {
    let err = Router::create_url("", "/ping", None).unwrap_err();
    assert_eq!(err.url, "http:///ping");
}

#[test]
fn create_url_refuses_an_unbalanced_bracket() {
    let err = Router::create_url("[::1", "/", None).unwrap_err();
    assert_eq!(err.url, "http://[::1/");
}

#[test]
fn get_requests_are_cacheable_others_not() {
    assert!(Router::req_is_cacheable(Method::Get));
    assert!(!Router::req_is_cacheable(Method::Post));
    assert!(!Router::req_is_cacheable(Method::Head));
    assert_eq!(Router::cache_key("/medium-payload"), "/medium-payload");
}

#[test]
fn get_asks_the_cache_first() {
    let router = Router::new(1024);
    let mut res = resolver();
    let (ex, action) = router.dispatch_request(head(Method::Get, "/ping", None), &mut res).unwrap();
    assert!(matches!(action, Action::LookupCache { ref key } if key == "/ping"));
    assert!(ex.via_cache);
    assert!(matches!(ex.phase, Phase::CacheLookup));
    // The resolver was not used: the next host is still the first one.
    assert_eq!(res.get_next(), "h1:3001");
}

#[test]
fn cache_hit_is_served_without_going_upstream() {
    let router = Router::new(1024);
    let mut res = resolver();
    let (mut ex, _) = router.dispatch_request(head(Method::Get, "/ping", None), &mut res).unwrap();
    let action = router.on_cache_result(&mut ex, Some(b"Pong".to_vec()), &mut res).unwrap();
    assert!(matches!(action, Action::ServeCached { ref body } if body == b"Pong"));
    assert!(matches!(ex.phase, Phase::Finished));
    assert_eq!(res.get_next(), "h1:3001");
}

#[test]
fn post_goes_upstream_at_once_and_is_not_retried() {
    let router = Router::new(1024);
    let mut res = resolver();
    let (mut ex, action) =
        router.dispatch_request(head(Method::Post, "/echo", None), &mut res).unwrap();
    assert_eq!(sent_url(&action), ("http://h1:3001/echo".to_string(), 1));
    assert!(!ex.via_cache);
    let action = router.on_upstream_result(&mut ex, UpstreamResult::Failed, &mut res).unwrap();
    assert!(matches!(action, Action::ServiceUnavailable));
    assert!(matches!(ex.phase, Phase::Finished));
    // Only one host was used.
    assert_eq!(res.get_next(), "h2:3002");
}

#[test]
fn post_response_is_returned_as_it_is() {
    let router = Router::new(1024);
    let mut res = resolver();
    let (mut ex, _) = router.dispatch_request(head(Method::Post, "/echo", None), &mut res).unwrap();
    let reply = UpstreamResult::Replied { status: 200, content_length: Some(9) };
    let action = router.on_upstream_result(&mut ex, reply, &mut res).unwrap();
    assert!(matches!(action, Action::ReturnUpstream));
}

#[test]
fn failing_get_is_tried_three_times_on_successive_hosts() {
    let router = Router::new(1024);
    let mut res = resolver();
    let (mut ex, _) =
        router.dispatch_request(head(Method::Get, "/custom-payload", Some("size=100")), &mut res).unwrap();
    let action = router.on_cache_result(&mut ex, None, &mut res).unwrap();
    assert_eq!(sent_url(&action), ("http://h1:3001/custom-payload?size=100".to_string(), 1));
    let action = router.on_upstream_result(&mut ex, UpstreamResult::Failed, &mut res).unwrap();
    assert_eq!(sent_url(&action), ("http://h2:3002/custom-payload?size=100".to_string(), 2));
    let action = router.on_upstream_result(&mut ex, UpstreamResult::Failed, &mut res).unwrap();
    assert_eq!(sent_url(&action), ("http://h3:3003/custom-payload?size=100".to_string(), 3));
    let action = router.on_upstream_result(&mut ex, UpstreamResult::Failed, &mut res).unwrap();
    // The attempts are used up: the client gets a 503.
    assert!(matches!(action, Action::ServiceUnavailable));
    assert!(matches!(ex.phase, Phase::Finished));
}

#[test]
fn small_ok_response_is_buffered_and_stored() {
    let router = Router::new(1024);
    let mut res = resolver();
    let (mut ex, _) = router.dispatch_request(head(Method::Get, "/ping", None), &mut res).unwrap();
    router.on_cache_result(&mut ex, None, &mut res).unwrap();
    let reply = UpstreamResult::Replied { status: 200, content_length: Some(4) };
    let action = router.on_upstream_result(&mut ex, reply, &mut res).unwrap();
    assert!(matches!(action, Action::ReadBody));
    assert!(matches!(ex.phase, Phase::Buffering { status: 200 }));
    let action = router.on_body_read(&mut ex, b"Pong".to_vec());
    match action {
        Action::RespondBuffered { body, body_length, store_key } => {
            assert_eq!(body, b"Pong".to_vec());
            assert_eq!(body_length, 4);
            assert_eq!(store_key, Some("/ping".to_string()));
        }
        other => panic!("unexpected {:?}", other),
    }
}

#[test]
fn small_error_response_is_buffered_but_not_stored() {
    let router = Router::new(1024);
    let mut res = resolver();
    let (mut ex, _) = router.dispatch_request(head(Method::Get, "/missing", None), &mut res).unwrap();
    router.on_cache_result(&mut ex, None, &mut res).unwrap();
    let reply = UpstreamResult::Replied { status: 404, content_length: Some(0) };
    assert!(matches!(router.on_upstream_result(&mut ex, reply, &mut res).unwrap(), Action::ReadBody));
    match router.on_body_read(&mut ex, Vec::new()) {
        Action::RespondBuffered { body, body_length, store_key } => {
            assert!(body.is_empty());
            assert_eq!(body_length, 0);
            assert_eq!(store_key, None);
        }
        other => panic!("unexpected {:?}", other),
    }
}

#[test]
fn large_or_unsized_response_is_returned_as_it_came() {
    let router = Router::new(1024);
    let mut res = resolver();
    for length in [Some(1025u64), None] {
        let (mut ex, _) = router.dispatch_request(head(Method::Get, "/large-payload", None), &mut res).unwrap();
        router.on_cache_result(&mut ex, None, &mut res).unwrap();
        let reply = UpstreamResult::Replied { status: 206, content_length: length };
        let action = router.on_upstream_result(&mut ex, reply, &mut res).unwrap();
        assert!(matches!(action, Action::ReturnUpstream));
        assert!(matches!(ex.phase, Phase::Finished));
    }
}

#[test]
fn response_at_the_limit_is_buffered() {
    // A cache of size 0 (the no-op cache) still buffers empty bodies.
    let router = Router::new(0);
    let mut res = resolver();
    let (mut ex, _) = router.dispatch_request(head(Method::Get, "/", None), &mut res).unwrap();
    router.on_cache_result(&mut ex, None, &mut res).unwrap();
    let reply = UpstreamResult::Replied { status: 200, content_length: Some(0) };
    assert!(matches!(router.on_upstream_result(&mut ex, reply, &mut res).unwrap(), Action::ReadBody));
    let reply = UpstreamResult::Replied { status: 200, content_length: Some(1) };
    let (mut ex2, _) = router.dispatch_request(head(Method::Get, "/", None), &mut res).unwrap();
    router.on_cache_result(&mut ex2, None, &mut res).unwrap();
    assert!(matches!(
        router.on_upstream_result(&mut ex2, reply, &mut res).unwrap(),
        Action::ReturnUpstream
    ));
}

#[test]
fn unparsable_upstream_url_is_reported() {
    let router = Router::new(1024);
    let mut res = HostResolver::new(vec!["".to_string()]);
    let err = router.dispatch_request(head(Method::Delete, "/x", None), &mut res).unwrap_err();
    assert_eq!(err.url, "http:///x");
}

#[test]
fn exchange_fields_are_plain_data() {
    let ex = Exchange { head: head(Method::Get, "/p", None), via_cache: true, phase: Phase::Forwarding { attempt: 1 } };
    let router = Router::new(10);
    let mut ex = ex;
    let mut res = resolver();
    let action = router.on_upstream_result(&mut ex, UpstreamResult::Failed, &mut res).unwrap();
    assert_eq!(sent_url(&action), ("http://h1:3001/p".to_string(), 2));
}

#[test]
fn streamed_request_is_sent_once() {
    let router = Router::new(1024);
    let mut res = resolver();
    let (mut ex, action) = router
        .forward_to_server_stream(head(Method::Get, "/large-payload", None), &mut res)
        .unwrap();
    assert_eq!(sent_url(&action), ("http://h1:3001/large-payload".to_string(), 1));
    assert!(matches!(ex.phase, Phase::Streaming));
    let action = router.on_stream_result(&mut ex, UpstreamResult::Failed);
    assert!(matches!(action, Action::ServiceUnavailable));
    assert!(matches!(ex.phase, Phase::Finished));
    assert_eq!(res.get_next(), "h2:3002");
}

#[test]
fn streamed_response_is_passed_on() {
    let router = Router::new(1024);
    let mut res = resolver();
    let (mut ex, _) = router.forward_to_server_stream(head(Method::Post, "/echo", None), &mut res).unwrap();
    let reply = UpstreamResult::Replied { status: 500, content_length: None };
    assert!(matches!(router.on_stream_result(&mut ex, reply), Action::ReturnUpstream));
}

#[test]
fn create_url_with_port_and_query() {
    assert_eq!(
        Router::create_url("localhost:3001", "/a/b", Some("x=1")).unwrap(),
        "http://localhost:3001/a/b?x=1"
    );
}
