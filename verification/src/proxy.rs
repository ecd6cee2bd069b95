use vstd::prelude::*;

use crate::uri::{checked_url, opt_view, uri_accepts, InvalidUrl};

verus! {

/// The URL of a proxied request: the host, the path and the query (without
/// a `?` in between).
pub open spec fn proxy_url_text(host: Seq<char>, path: Seq<char>, query: Option<Seq<char>>) -> Seq<char> {
    match query {
        Some(q) => host + path + q,
        None => host + path,
    }
}

/// The URL of the request on `host`, checked with the URI parser.
pub fn create_proxy_url(host: &str, path: &str, query: Option<&str>) -> (r: Result<String, InvalidUrl>)
    ensures
        r matches Ok(u) ==> u@ == proxy_url_text(host@, path@, opt_view(query)) && uri_accepts(u@),
        r matches Err(e) ==> e.url@ == proxy_url_text(host@, path@, opt_view(query)) && !uri_accepts(
            e.url@,
        ),
        ({
            let text = match query {
                Some(q) => host@ + path@ + q@,
                None => host@ + path@,
            };
            &&& r matches Ok(u) ==> u@ == text
            &&& r matches Err(e) ==> e.url@ == text
        }),
{
    let mut url = String::from_str(host);
    url.append(path);
    match query {
        Some(q) => url.append(q),
        None => {},
    }
    checked_url(url)
}

/// The proxy URL is the host, the path and the whole query, one after the
/// other: the query can be read back from the URL, and an empty query gives
/// the URL without one.
pub proof fn lemma_proxy_url_layout(host: Seq<char>, path: Seq<char>, query: Seq<char>)
    ensures
        proxy_url_text(host, path, None) == host + path,
        proxy_url_text(host, path, Some(query)) == proxy_url_text(host, path, None) + query,
        proxy_url_text(host, path, Some(query)).len() == host.len() + path.len() + query.len(),
        proxy_url_text(host, path, Some(query)).subrange(
            (host.len() + path.len()) as int,
            proxy_url_text(host, path, Some(query)).len() as int,
        ) == query,
        proxy_url_text(host, path, Some(Seq::empty())) == proxy_url_text(host, path, None),
{
    let full = proxy_url_text(host, path, Some(query));
    assert(full.subrange((host.len() + path.len()) as int, full.len() as int) =~= query);
    assert(host + path + Seq::<char>::empty() =~= host + path);
}

} // verus!
