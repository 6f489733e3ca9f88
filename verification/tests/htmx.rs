use prest::htmx::{plan_response, HtmxLayer};

#[test]
fn wrap_stores_the_wrapper() {
    let layer = HtmxLayer::wrap(|page: String| format!("<body>{page}</body>"));
    assert_eq!((layer.wrapper)("x".to_string()), "<body>x</body>");
}

#[test]
fn layer_builds_the_middleware_around_the_inner_service() {
    let layer = HtmxLayer::wrap(|page: String| format!("<html>{page}</html>"));
    let middleware = layer.layer("inner-service");
    assert_eq!(middleware.inner, "inner-service");
    assert_eq!((middleware.wrapper)("p".to_string()), "<html>p</html>");
}

#[test]
fn full_page_responses_are_wrapped_and_length_recomputed() {
    let plan = plan_response(false);
    assert_eq!(plan.content_type, "text/html");
    assert!(plan.wrap_body);
    assert!(plan.drop_content_length);
    assert!(plan.cache_control.is_none());
}

#[test]
fn in_page_responses_pass_through_uncached() {
    let plan = plan_response(true);
    assert_eq!(plan.content_type, "text/html");
    assert!(!plan.wrap_body);
    assert!(!plan.drop_content_length);
    assert_eq!(
        plan.cache_control.as_deref(),
        Some("max-age=0, no-cache, must-revalidate, proxy-revalidate")
    );
}
