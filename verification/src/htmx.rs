//! Middleware support for the in-page hypertext client: responses to
//! requests that did not come from it are whole pages and get their body
//! wrapped with a configured page shell, while in-page responses are
//! marked uncacheable.

use vstd::prelude::*;

verus! {

/// Implemented by routers that can wrap every non-client response body
/// with the given page-shell function.
pub trait HtmxRouting<F> {
    /// Adds the wrapping middleware as a route layer.
    fn wrap_non_htmx(self, wrapper: F) -> Self;
}

/// Layer that rewrites responses according to one request signal, the
/// presence of the in-page client's request header: full-page responses
/// get their body passed through the configured wrapper, and every
/// response gets a hypertext content type.
pub struct HtmxLayer<F> {
    pub wrapper: F,
}

impl<F> HtmxLayer<F> {
    /// A layer around the given body wrapper.
    pub fn wrap(wrapper: F) -> (r: Self)
        ensures
            r.wrapper == wrapper,
    {
        HtmxLayer { wrapper }
    }

    /// The middleware serving requests through the given inner service.
    pub fn layer<S>(self, inner: S) -> (r: HtmxMiddleware<S, F>)
        ensures
            r.wrapper == self.wrapper,
            r.inner == inner,
    {
        HtmxMiddleware { wrapper: self.wrapper, inner }
    }
}

/// The middleware behind the layer: the configured body wrapper and the
/// wrapped inner service.
pub struct HtmxMiddleware<S, F> {
    pub wrapper: F,
    pub inner: S,
}

/// How one response must be rewritten before it is returned.
pub struct ResponsePlan {
    /// The content type set on every response.
    pub content_type: String,
    /// Whether the body is passed through the configured wrapper.
    pub wrap_body: bool,
    /// Whether the stale content-length header must be dropped.
    pub drop_content_length: bool,
    /// The cache-control header to set, if any.
    pub cache_control: Option<String>,
}

/// Decides the rewrite of one response from the one request signal the
/// middleware reads, the presence of the in-page client's header: a
/// full-page response gets its body wrapped and its content length
/// recomputed, an in-page response is marked uncacheable; both carry the
/// hypertext content type.
pub fn plan_response(htmx_request: bool) -> (r: ResponsePlan)
    ensures
        r.content_type@ == "text/html"@,
        r.wrap_body == !htmx_request,
        r.drop_content_length == !htmx_request,
        htmx_request ==> (r.cache_control matches Some(c) && c@
            == "max-age=0, no-cache, must-revalidate, proxy-revalidate"@),
        !htmx_request ==> r.cache_control is None,
{
    if htmx_request {
        ResponsePlan {
            content_type: "text/html".to_owned(),
            wrap_body: false,
            drop_content_length: false,
            cache_control: Some(
                "max-age=0, no-cache, must-revalidate, proxy-revalidate".to_owned(),
            ),
        }
    } else {
        ResponsePlan {
            content_type: "text/html".to_owned(),
            wrap_body: true,
            drop_content_length: true,
            cache_control: None,
        }
    }
}

} // verus!
