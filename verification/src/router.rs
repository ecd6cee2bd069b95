use vstd::prelude::*;

use crate::host_resolver::{next_id_after, HostResolver};
use crate::uri::{checked_url, opt_string_view, opt_view, uri_accepts, InvalidUrl};

verus! {

/// The request method, as far as routing needs it.
#[derive(Clone, Copy, Debug)]
pub enum Method {
    Get,
    Head,
    Post,
    Put,
    Delete,
    Connect,
    Options,
    Trace,
    Patch,
    Other,
}

/// What routing reads of an incoming request: its method and the path and
/// query of its URI.
#[derive(Debug)]
pub struct RequestHead {
    pub method: Method,
    pub path: String,
    pub query: Option<String>,
}

/// Where a request stands in its exchange with the cache and the upstream hosts.
#[derive(Clone, Copy, Debug)]
pub enum Phase {
    /// Waiting for the answer of the cache.
    CacheLookup,
    /// The request was sent upstream, on the given attempt (counted from 1).
    Forwarding { attempt: u32 },
    /// The request was sent upstream once, its response to be passed on as
    /// it comes.
    Streaming,
    /// Reading the whole body of an upstream response with this status.
    Buffering { status: u16 },
    /// The response to the client is decided.
    Finished,
}

/// The state of one request being routed.
#[derive(Debug)]
pub struct Exchange {
    pub head: RequestHead,
    /// Whether the request goes through the cache (GET requests do).
    pub via_cache: bool,
    pub phase: Phase,
}

/// The mathematical view of an [`Exchange`].
pub struct ExchangeView {
    pub method: Method,
    pub path: Seq<char>,
    pub query: Option<Seq<char>>,
    pub via_cache: bool,
    pub phase: Phase,
}

impl View for Exchange {
    type V = ExchangeView;

    open spec fn view(&self) -> ExchangeView {
        ExchangeView {
            method: self.head.method,
            path: self.head.path@,
            query: opt_string_view(self.head.query),
            via_cache: self.via_cache,
            phase: self.phase,
        }
    }
}

/// How an upstream request ended.
#[derive(Clone, Copy, Debug)]
pub enum UpstreamResult {
    /// A response came back, with this status and `Content-Length` header.
    Replied { status: u16, content_length: Option<u64> },
    /// The connection failed.
    Failed,
}

/// What the caller is to do next.
#[derive(Debug)]
pub enum Action {
    /// Look the key up in the cache, then call `on_cache_result`.
    LookupCache { key: String },
    /// Send the request to this URL, then call `on_upstream_result`.
    SendUpstream { url: String, attempt: u32 },
    /// Answer with a plain response carrying this cached body.
    ServeCached { body: Vec<u8> },
    /// Answer with the upstream response as it came (status, headers and body).
    ReturnUpstream,
    /// Answer with an empty `503 Service Unavailable` response.
    ServiceUnavailable,
    /// Read the whole body of the upstream response, then call `on_body_read`.
    ReadBody,
    /// Answer with the upstream status and headers, a `Content-Length` of
    /// `body_length` and this body; first store the body in the cache under the key, if any.
    RespondBuffered { body: Vec<u8>, body_length: u64, store_key: Option<String> },
}

/// The mathematical view of an [`Action`].
pub enum ActionView {
    LookupCache { key: Seq<char> },
    SendUpstream { url: Seq<char>, attempt: u32 },
    ServeCached { body: Seq<u8> },
    ReturnUpstream,
    ServiceUnavailable,
    ReadBody,
    RespondBuffered { body: Seq<u8>, body_length: u64, store_key: Option<Seq<char>> },
}

impl View for Action {
    type V = ActionView;

    open spec fn view(&self) -> ActionView {
        match self {
            Action::LookupCache { key } => ActionView::LookupCache { key: key@ },
            Action::SendUpstream { url, attempt } => ActionView::SendUpstream {
                url: url@,
                attempt: *attempt,
            },
            Action::ServeCached { body } => ActionView::ServeCached { body: body@ },
            Action::ReturnUpstream => ActionView::ReturnUpstream,
            Action::ServiceUnavailable => ActionView::ServiceUnavailable,
            Action::ReadBody => ActionView::ReadBody,
            Action::RespondBuffered { body, body_length, store_key } =>
                ActionView::RespondBuffered {
                    body: body@,
                    body_length: *body_length,
                    store_key: opt_string_view(*store_key),
                },
        }
    }
}

/// The outcome of a routing step: the new state of the exchange, and the
/// action or the text of a URL that the URI parser refused.
pub type StepView = (ExchangeView, Result<ActionView, Seq<char>>);

/// The URL of a request forwarded to `host`: `http://`, the host, the path
/// and, when there is a query, `?` and the query.
pub open spec fn url_text(host: Seq<char>, path: Seq<char>, query: Option<Seq<char>>) -> Seq<char> {
    let base = "http://"@ + host + path;
    match query {
        Some(q) => base + "?"@ + q,
        None => base,
    }
}

/// The exchange with its phase replaced.
pub open spec fn with_phase(ex: ExchangeView, phase: Phase) -> ExchangeView {
    ExchangeView {
        method: ex.method,
        path: ex.path,
        query: ex.query,
        via_cache: ex.via_cache,
        phase,
    }
}

/// Sending the request to `host`, on attempt `attempt`.
pub open spec fn forward_step(ex: ExchangeView, attempt: u32, host: Seq<char>) -> StepView {
    let url = url_text(host, ex.path, ex.query);
    if uri_accepts(url) {
        (with_phase(ex, Phase::Forwarding { attempt }), Ok(ActionView::SendUpstream { url, attempt }))
    } else {
        (ex, Err(url))
    }
}

/// Whether a request with this method goes through the cache.
pub open spec fn is_cacheable(method: Method) -> bool {
    method is Get
}

/// The exchange of a request that has just arrived.
pub open spec fn fresh_exchange(head: RequestHead) -> ExchangeView {
    ExchangeView {
        method: head.method,
        path: head.path@,
        query: opt_string_view(head.query),
        via_cache: is_cacheable(head.method),
        phase: Phase::CacheLookup,
    }
}

/// The first step: GET requests ask the cache, the others go upstream.
pub open spec fn dispatch_step(head: RequestHead, host: Seq<char>) -> StepView {
    let ex = fresh_exchange(head);
    if is_cacheable(head.method) {
        (ex, Ok(ActionView::LookupCache { key: head.path@ }))
    } else {
        forward_step(ex, 1, host)
    }
}

/// The answer of the cache: a hit is served, a miss goes upstream.
pub open spec fn cache_result_step(ex: ExchangeView, cached: Option<Seq<u8>>, host: Seq<char>) -> StepView {
    match cached {
        Some(body) => (with_phase(ex, Phase::Finished), Ok(ActionView::ServeCached { body })),
        None => forward_step(ex, 1, host),
    }
}

/// The body of a response that is buffered: it is returned with its length,
/// and stored in the cache under the request path when the status is 200.
pub open spec fn body_step(ex: ExchangeView, body: Seq<u8>) -> (ExchangeView, ActionView) {
    let store_key = match ex.phase {
        Phase::Buffering { status } => if status == 200 {
            Some(ex.path)
        } else {
            None
        },
        _ => None,
    };
    (
        with_phase(ex, Phase::Finished),
        ActionView::RespondBuffered { body, body_length: body.len() as u64, store_key },
    )
}

/// Sending the request once to `host`, its response to be passed on as it comes.
pub open spec fn stream_step(head: RequestHead, host: Seq<char>) -> StepView {
    let ex = ExchangeView {
        method: head.method,
        path: head.path@,
        query: opt_string_view(head.query),
        via_cache: false,
        phase: Phase::Streaming,
    };
    let url = url_text(host, ex.path, ex.query);
    if uri_accepts(url) {
        (ex, Ok(ActionView::SendUpstream { url, attempt: 1 }))
    } else {
        (ex, Err(url))
    }
}

/// The outcome of a streamed request: the response as it came, or a `503`.
pub open spec fn stream_result_step(ex: ExchangeView, result: UpstreamResult) -> (ExchangeView, ActionView) {
    (
        with_phase(ex, Phase::Finished),
        match result {
            UpstreamResult::Replied { .. } => ActionView::ReturnUpstream,
            UpstreamResult::Failed => ActionView::ServiceUnavailable,
        },
    )
}

/// Whether the host resolver is left as it was, or advanced by one call.
pub open spec fn resolver_moved(before: HostResolver, after: HostResolver, used: bool) -> bool {
    &&& after.host_list() == before.host_list()
    &&& after.next_id() == if used {
        next_id_after(before.next_id())
    } else {
        before.next_id()
    }
}

/// The host that the resolver hands out on its next call.
pub open spec fn next_host(r: HostResolver) -> Seq<char> {
    r.host_for(r.next_id())
}

/// The decisions taken for each request: cache use, upstream forwarding with
/// retries, and the shape of the response.
pub struct Router {
    max_retry: u32,
    max_length_cache: u64,
}

impl Router {
    /// Every request gets at least one attempt upstream.
    #[verifier::type_invariant]
    closed spec fn at_least_one_attempt(&self) -> bool {
        self.max_retry >= 1
    }

    /// The number of attempts a GET request gets upstream.
    pub closed spec fn retry_limit(&self) -> u32 {
        self.max_retry
    }

    /// The largest `Content-Length` of a response that is buffered and may be cached.
    pub closed spec fn cache_size_limit(&self) -> u64 {
        self.max_length_cache
    }

    /// Whether a failed upstream attempt is tried again.
    pub open spec fn retries(&self, ex: ExchangeView, result: UpstreamResult) -> bool {
        &&& result is Failed
        &&& ex.phase matches Phase::Forwarding { attempt } && attempt < self.retry_limit()
        &&& ex.method is Get
    }

    /// How an upstream outcome is answered.
    pub open spec fn upstream_step(&self, ex: ExchangeView, result: UpstreamResult, host: Seq<char>) -> StepView {
        let attempt = match ex.phase {
            Phase::Forwarding { attempt } => attempt,
            _ => 0,
        };
        match result {
            UpstreamResult::Failed => if self.retries(ex, result) {
                forward_step(ex, (attempt + 1) as u32, host)
            } else {
                (with_phase(ex, Phase::Finished), Ok(ActionView::ServiceUnavailable))
            },
            UpstreamResult::Replied { status, content_length } => if ex.via_cache
                && content_length is Some && content_length->0 <= self.cache_size_limit() {
                (with_phase(ex, Phase::Buffering { status }), Ok(ActionView::ReadBody))
            } else {
                (with_phase(ex, Phase::Finished), Ok(ActionView::ReturnUpstream))
            },
        }
    }

    /// The invariant of an exchange: only GET requests use the cache or are
    /// retried, and the attempt number stays within the limit.
    pub open spec fn wf(&self, ex: ExchangeView) -> bool {
        &&& ex.via_cache ==> ex.method is Get
        &&& ex.phase is CacheLookup ==> ex.via_cache
        &&& ex.phase is Buffering ==> ex.via_cache
        &&& ex.phase is Streaming ==> !ex.via_cache
        &&& ex.phase matches Phase::Forwarding { attempt } ==> {
            &&& 1 <= attempt <= self.retry_limit()
            &&& attempt > 1 ==> ex.method is Get
        }
    }

    /// A router that tries each GET request upstream at most three times and
    /// buffers responses up to `max_length_cache` bytes.
    pub fn new(max_length_cache: u64) -> (r: Router)
        ensures
            r.retry_limit() == 3,
            r.cache_size_limit() == max_length_cache,
    {
        Router { max_retry: 3, max_length_cache }
    }

    /// GET requests go through the cache.
    pub fn req_is_cacheable(method: Method) -> (r: bool)
        ensures
            r == is_cacheable(method),
    {
        match method {
            Method::Get => true,
            _ => false,
        }
    }

    /// The cache key of a request: its path.
    pub fn cache_key(path: &str) -> (r: String)
        ensures
            r@ == path@,
    {
        String::from_str(path)
    }

    /// The URL of the request on `host`, checked with the URI parser.
    pub fn create_url(host: &str, path: &str, query: Option<&str>) -> (r: Result<String, InvalidUrl>)
        ensures
            r matches Ok(u) ==> u@ == url_text(host@, path@, opt_view(query)) && uri_accepts(u@),
            r matches Err(e) ==> e.url@ == url_text(host@, path@, opt_view(query)) && !uri_accepts(
                e.url@,
            ),
            ({
                let text = match query {
                    Some(q) => "http://"@ + host@ + path@ + "?"@ + q@,
                    None => "http://"@ + host@ + path@,
                };
                &&& r matches Ok(u) ==> u@ == text
                &&& r matches Err(e) ==> e.url@ == text
            }),
    {
        let mut url = String::from_str("http://");
        url.append(host);
        url.append(path);
        match query {
            Some(q) => {
                url.append("?");
                url.append(q);
            },
            None => {},
        }
        checked_url(url)
    }

    /// The URL of the request on the next host of the resolver.
    fn uri_with_new_host(ex: &Exchange, resolver: &mut HostResolver) -> (r: Result<String, InvalidUrl>)
        requires
            old(resolver).host_list().len() > 0,
        ensures
            resolver_moved(*old(resolver), *final(resolver), true),
            ({
                let url = url_text(next_host(*old(resolver)), ex@.path, ex@.query);
                &&& r matches Ok(u) ==> u@ == url && uri_accepts(url)
                &&& r matches Err(e) ==> e.url@ == url && !uri_accepts(url)
            }),
    {
        let host = resolver.get_next();
        let query = match &ex.head.query {
            Some(q) => Some(q.as_str()),
            None => None,
        };
        Self::create_url(host.as_str(), ex.head.path.as_str(), query)
    }

    /// Sends the request to the next host, as attempt `attempt`.
    fn forward_to_server(ex: &mut Exchange, attempt: u32, resolver: &mut HostResolver) -> (r: Result<
        Action,
        InvalidUrl,
    >)
        requires
            old(resolver).host_list().len() > 0,
        ensures
            resolver_moved(*old(resolver), *final(resolver), true),
            ({
                let (ex2, res) = forward_step(old(ex)@, attempt, next_host(*old(resolver)));
                &&& final(ex)@ == ex2
                &&& r matches Ok(a) ==> res == Ok::<ActionView, Seq<char>>(a@)
                &&& r matches Err(e) ==> res == Err::<ActionView, Seq<char>>(e.url@)
            }),
    {
        match Self::uri_with_new_host(ex, resolver) {
            Ok(url) => {
                ex.phase = Phase::Forwarding { attempt };
                Ok(Action::SendUpstream { url, attempt })
            },
            Err(e) => Err(e),
        }
    }

    /// The first step for an incoming request: a GET request asks the cache
    /// for its path, any other request is sent to the next host.  `Err` when
    /// the URL of that host is refused by the URI parser.
    pub fn dispatch_request(&self, head: RequestHead, resolver: &mut HostResolver) -> (r: Result<
        (Exchange, Action),
        InvalidUrl,
    >)
        requires
            !is_cacheable(head.method) ==> old(resolver).host_list().len() > 0,
        ensures
            resolver_moved(*old(resolver), *final(resolver), !is_cacheable(head.method)),
            ({
                let (ex2, res) = dispatch_step(head, next_host(*old(resolver)));
                &&& r matches Ok((ex, a)) ==> ex@ == ex2 && res == Ok::<ActionView, Seq<char>>(a@)
                &&& r matches Err(e) ==> res == Err::<ActionView, Seq<char>>(e.url@)
            }),
            r matches Ok((ex, a)) ==> self.wf(ex@),
            head.method is Get ==> (r matches Ok((ex, a)) && a@ == (ActionView::LookupCache {
                key: head.path@,
            })),
            !(head.method is Get) ==> (r matches Ok((ex, a)) ==> a@ == (ActionView::SendUpstream {
                url: url_text(next_host(*old(resolver)), head.path@, opt_string_view(head.query)),
                attempt: 1,
            }) && ex.phase == (Phase::Forwarding { attempt: 1 }) && !ex.via_cache),
    {
        proof {
            use_type_invariant(self);
        }
        let cacheable = Self::req_is_cacheable(head.method);
        let mut ex = Exchange { head, via_cache: cacheable, phase: Phase::CacheLookup };
        if cacheable {
            let key = Self::cache_key(ex.head.path.as_str());
            Ok((ex, Action::LookupCache { key }))
        } else {
            match Self::forward_to_server(&mut ex, 1, resolver) {
                Ok(a) => Ok((ex, a)),
                Err(e) => Err(e),
            }
        }
    }

    /// The answer of the cache (`None` for a miss or a cache error): a hit is
    /// served as it is, a miss is sent to the next host.
    pub fn on_cache_result(
        &self,
        ex: &mut Exchange,
        cached: Option<Vec<u8>>,
        resolver: &mut HostResolver,
    ) -> (r: Result<Action, InvalidUrl>)
        requires
            old(ex).phase is CacheLookup,
            self.wf(old(ex)@),
            cached is None ==> old(resolver).host_list().len() > 0,
        ensures
            resolver_moved(*old(resolver), *final(resolver), cached is None),
            ({
                let cached_view = match cached {
                    Some(b) => Some(b@),
                    None => None,
                };
                let (ex2, res) = cache_result_step(old(ex)@, cached_view, next_host(*old(resolver)));
                &&& final(ex)@ == ex2
                &&& r matches Ok(a) ==> res == Ok::<ActionView, Seq<char>>(a@)
                &&& r matches Err(e) ==> res == Err::<ActionView, Seq<char>>(e.url@)
            }),
            self.wf(final(ex)@),
            cached matches Some(b) ==> (r matches Ok(a) && a@ == (ActionView::ServeCached {
                body: b@,
            }) && final(ex).phase is Finished),
    {
        proof {
            use_type_invariant(self);
        }
        match cached {
            Some(body) => {
                ex.phase = Phase::Finished;
                Ok(Action::ServeCached { body })
            },
            None => Self::forward_to_server(ex, 1, resolver),
        }
    }

    /// The outcome of the upstream request.  A failed GET is sent to the next
    /// host until the attempts are used up; then, and for other requests,
    /// the client gets a `503`.  Through the cache, a response whose
    /// `Content-Length` is within the limit is read whole (to be answered
    /// with its status, headers and body, and maybe stored); any other
    /// response is returned to the client as it came.
    pub fn on_upstream_result(
        &self,
        ex: &mut Exchange,
        result: UpstreamResult,
        resolver: &mut HostResolver,
    ) -> (r: Result<Action, InvalidUrl>)
        requires
            old(ex).phase is Forwarding,
            self.wf(old(ex)@),
            self.retries(old(ex)@, result) ==> old(resolver).host_list().len() > 0,
        ensures
            resolver_moved(*old(resolver), *final(resolver), self.retries(old(ex)@, result)),
            ({
                let (ex2, res) = self.upstream_step(old(ex)@, result, next_host(*old(resolver)));
                &&& final(ex)@ == ex2
                &&& r matches Ok(a) ==> res == Ok::<ActionView, Seq<char>>(a@)
                &&& r matches Err(e) ==> res == Err::<ActionView, Seq<char>>(e.url@)
            }),
            self.wf(final(ex)@),
    {
        let attempt = match ex.phase {
            Phase::Forwarding { attempt } => attempt,
            _ => 0,
        };
        match result {
            UpstreamResult::Failed => {
                if attempt < self.max_retry && Self::req_is_cacheable(ex.head.method) {
                    Self::forward_to_server(ex, attempt + 1, resolver)
                } else {
                    ex.phase = Phase::Finished;
                    Ok(Action::ServiceUnavailable)
                }
            },
            UpstreamResult::Replied { status, content_length } => {
                if !ex.via_cache {
                    ex.phase = Phase::Finished;
                    Ok(Action::ReturnUpstream)
                } else {
                    match content_length {
                        Some(len) if len <= self.max_length_cache => {
                            ex.phase = Phase::Buffering { status };
                            Ok(Action::ReadBody)
                        },
                        _ => {
                            ex.phase = Phase::Finished;
                            Ok(Action::ReturnUpstream)
                        },
                    }
                }
            },
        }
    }

    /// Sends the request once to the next host, without the cache and
    /// without retries.  `Err` when the URL of that host is refused by the
    /// URI parser.
    pub fn forward_to_server_stream(&self, head: RequestHead, resolver: &mut HostResolver) -> (r: Result<
        (Exchange, Action),
        InvalidUrl,
    >)
        requires
            old(resolver).host_list().len() > 0,
        ensures
            resolver_moved(*old(resolver), *final(resolver), true),
            ({
                let (ex2, res) = stream_step(head, next_host(*old(resolver)));
                &&& r matches Ok((ex, a)) ==> ex@ == ex2 && res == Ok::<ActionView, Seq<char>>(a@)
                &&& r matches Err(e) ==> res == Err::<ActionView, Seq<char>>(e.url@)
            }),
            r matches Ok((ex, a)) ==> a@ == (ActionView::SendUpstream {
                url: url_text(next_host(*old(resolver)), head.path@, opt_string_view(head.query)),
                attempt: 1,
            }) && ex.phase is Streaming && !ex.via_cache,
            r matches Ok((ex, a)) ==> self.wf(ex@),
    {
        let ex = Exchange { head, via_cache: false, phase: Phase::Streaming };
        match Self::uri_with_new_host(&ex, resolver) {
            Ok(url) => Ok((ex, Action::SendUpstream { url, attempt: 1 })),
            Err(e) => Err(e),
        }
    }

    /// The outcome of a streamed request: the upstream response is passed on
    /// as it came; a failure is answered with a `503`.
    pub fn on_stream_result(&self, ex: &mut Exchange, result: UpstreamResult) -> (r: Action)
        requires
            old(ex).phase is Streaming,
            self.wf(old(ex)@),
        ensures
            (final(ex)@, r@) == stream_result_step(old(ex)@, result),
            self.wf(final(ex)@),
            result is Replied ==> r@ == ActionView::ReturnUpstream,
            result is Failed ==> r@ == ActionView::ServiceUnavailable,
            final(ex).phase is Finished,
    {
        ex.phase = Phase::Finished;
        match result {
            UpstreamResult::Replied { .. } => Action::ReturnUpstream,
            UpstreamResult::Failed => Action::ServiceUnavailable,
        }
    }

    /// The whole body of a buffered upstream response: it is returned with
    /// its length as `Content-Length`, and stored in the cache under the
    /// request path when the upstream status is 200.
    pub fn on_body_read(&self, ex: &mut Exchange, body: Vec<u8>) -> (r: Action)
        requires
            old(ex).phase is Buffering,
            self.wf(old(ex)@),
        ensures
            (final(ex)@, r@) == body_step(old(ex)@, body@),
            self.wf(final(ex)@),
    {
        let status = match ex.phase {
            Phase::Buffering { status } => status,
            _ => 0,
        };
        let store_key = if status == 200 {
            Some(Self::cache_key(ex.head.path.as_str()))
        } else {
            None
        };
        ex.phase = Phase::Finished;
        let body_length = body.len() as u64;
        Action::RespondBuffered { body, body_length, store_key }
    }
}

/// Retries are bounded: a failed attempt of a well-formed exchange is sent
/// again only for a GET request, as the next attempt, and never beyond the
/// router's limit; below the limit a failed GET is always sent again (to the
/// next host, with the same path and query); at the limit (and for any other
/// method) the client is answered with a `503`.  With the first attempt
/// numbered 1, a request is thus sent upstream at most `retry_limit` times.
pub proof fn lemma_retries_bounded(r: Router, ex: ExchangeView, host: Seq<char>)
    requires
        r.wf(ex),
        ex.phase is Forwarding,
    ensures
        ({
            let (ex2, res) = r.upstream_step(ex, UpstreamResult::Failed, host);
            &&& res matches Ok(ActionView::SendUpstream { attempt, .. }) ==> {
                &&& attempt == ex.phase->attempt + 1
                &&& attempt <= r.retry_limit()
                &&& ex.method is Get
            }
            &&& (ex.method is Get && ex.phase->attempt < r.retry_limit() && uri_accepts(
                url_text(host, ex.path, ex.query),
            )) ==> res == Ok::<ActionView, Seq<char>>(
                ActionView::SendUpstream {
                    url: url_text(host, ex.path, ex.query),
                    attempt: (ex.phase->attempt + 1) as u32,
                },
            )
            &&& (ex.phase->attempt == r.retry_limit() || !(ex.method is Get)) ==> {
                &&& ex2.phase is Finished
                &&& res == Ok::<ActionView, Seq<char>>(ActionView::ServiceUnavailable)
            }
        }),
{
}

/// Only GET requests touch the cache: any other request is never looked up,
/// never buffered and never stored.
pub proof fn lemma_only_get_uses_cache(r: Router, head: RequestHead, host: Seq<char>)
    requires
        !is_cacheable(head.method),
    ensures
        ({
            let (ex, res) = dispatch_step(head, host);
            &&& !ex.via_cache
            &&& !(res matches Ok(ActionView::LookupCache { .. }))
            &&& forall|result: UpstreamResult, h: Seq<char>|
                !(#[trigger] r.upstream_step(ex, result, h).0.phase is Buffering)
        }),
{
}

/// Every upstream response reaches the client: one that is not buffered is
/// returned as it came, and a buffered one is answered with its status and
/// headers and exactly the body that was read.
///
/// What is stored in the cache: a body is stored only after a response
/// with a `Content-Length` within the limit was buffered for a GET request,
/// and then only when its status was 200, under the request path, with
/// exactly the body that was read.
pub proof fn lemma_what_is_cached(
    r: Router,
    ex: ExchangeView,
    status: u16,
    content_length: Option<u64>,
    host: Seq<char>,
    body: Seq<u8>,
)
    requires
        r.wf(ex),
        ex.phase is Forwarding,
    ensures
        ({
            let (ex2, res) = r.upstream_step(
                ex,
                UpstreamResult::Replied { status, content_length },
                host,
            );
            &&& ex2.phase is Buffering <==> (ex.via_cache && content_length is Some
                && content_length->0 <= r.cache_size_limit())
            &&& !(ex2.phase is Buffering) ==> {
                &&& ex2.phase is Finished
                &&& res == Ok::<ActionView, Seq<char>>(ActionView::ReturnUpstream)
            }
            &&& ex2.phase is Buffering ==> {
                &&& ex.method is Get
                &&& r.wf(ex2)
                &&& body_step(ex2, body).1 == ActionView::RespondBuffered {
                    body,
                    body_length: body.len() as u64,
                    store_key: if status == 200 {
                        Some(ex.path)
                    } else {
                        None
                    },
                }
            }
        }),
{
}

/// The cache key is the request path alone: the first step of a GET asks
/// the cache under its path, whatever its query, and that is the key under
/// which the response is stored once it is buffered with status 200.
pub proof fn lemma_cache_key_is_path(
    head: RequestHead,
    other_query: Option<String>,
    host: Seq<char>,
    body: Seq<u8>,
)
    requires
        head.method is Get,
    ensures
        ({
            let (ex, res) = dispatch_step(head, host);
            let other = RequestHead { method: head.method, path: head.path, query: other_query };
            &&& res == Ok::<ActionView, Seq<char>>(ActionView::LookupCache { key: head.path@ })
            &&& dispatch_step(other, host).1 == res
            &&& body_step(with_phase(ex, Phase::Buffering { status: 200 }), body).1
                == ActionView::RespondBuffered {
                body,
                body_length: body.len() as u64,
                store_key: Some(head.path@),
            }
        }),
{
}

/// The upstream URL is `http://`, the host and the path, then, when there is
/// a query, `?` and the whole query: the query is kept to its last character
/// and can be read back from the URL.
pub proof fn lemma_url_layout(host: Seq<char>, path: Seq<char>, query: Seq<char>)
    ensures
        url_text(host, path, None) == "http://"@ + host + path,
        url_text(host, path, Some(query)) == url_text(host, path, None) + "?"@ + query,
        url_text(host, path, Some(query)).len() == url_text(host, path, None).len() + 1
            + query.len(),
        url_text(host, path, Some(query)).subrange(
            url_text(host, path, None).len() + 1int,
            url_text(host, path, Some(query)).len() as int,
        ) == query,
{
    reveal_strlit("?");
    let base = url_text(host, path, None);
    let full = url_text(host, path, Some(query));
    assert(full.len() == base.len() + 1 + query.len());
    assert(full.subrange(base.len() + 1int, full.len() as int) =~= query);
}

/// A streamed request passes on every reply, whatever its status and
/// `Content-Length`; only a failed connection gives a `503`.
pub proof fn lemma_stream_passes_every_reply(
    ex: ExchangeView,
    status: u16,
    content_length: Option<u64>,
    other_status: u16,
    other_length: Option<u64>,
)
    ensures
        stream_result_step(ex, UpstreamResult::Replied { status, content_length }).1
            == ActionView::ReturnUpstream,
        stream_result_step(ex, UpstreamResult::Replied { status, content_length })
            == stream_result_step(
            ex,
            UpstreamResult::Replied { status: other_status, content_length: other_length },
        ),
        stream_result_step(ex, UpstreamResult::Failed).1 == ActionView::ServiceUnavailable,
        stream_result_step(ex, UpstreamResult::Failed).0.phase is Finished,
{
}

/// A cache hit is served with exactly the cached body, whatever it holds
/// (the empty body included), without a host being used.
pub proof fn lemma_cache_hit_served_as_stored(
    ex: ExchangeView,
    body: Seq<u8>,
    host: Seq<char>,
    other_host: Seq<char>,
)
    ensures
        cache_result_step(ex, Some(body), host).1 == Ok::<ActionView, Seq<char>>(
            ActionView::ServeCached { body },
        ),
        cache_result_step(ex, Some(body), host) == cache_result_step(ex, Some(body), other_host),
        cache_result_step(ex, Some(body), host).0.phase is Finished,
        cache_result_step(ex, Some(body), host).0.path == ex.path,
{
}

/// Sending upstream goes to the given host with the request's own path and
/// query, as the given attempt; the exchange then waits for that attempt.
pub proof fn lemma_forward_targets_host(ex: ExchangeView, attempt: u32, host: Seq<char>)
    ensures
        ({
            let (ex2, res) = forward_step(ex, attempt, host);
            &&& res matches Ok(a) ==> a == (ActionView::SendUpstream {
                url: "http://"@ + host + ex.path + match ex.query {
                    Some(q) => "?"@ + q,
                    None => Seq::<char>::empty(),
                },
                attempt,
            })
            &&& res matches Ok(_) ==> ex2.phase == (Phase::Forwarding { attempt })
                && ex2.path == ex.path && ex2.query == ex.query && ex2.method == ex.method
                && ex2.via_cache == ex.via_cache
        }),
{
    let url = url_text(host, ex.path, ex.query);
    match ex.query {
        Some(q) => {
            assert(url =~= "http://"@ + host + ex.path + ("?"@ + q));
        },
        None => {
            assert(url =~= "http://"@ + host + ex.path + Seq::<char>::empty());
        },
    }
}

} // verus!
