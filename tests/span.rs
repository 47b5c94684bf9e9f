use rocket_tracing_opentelemetry::span::{
    install_span, record_response_status, RecordingSpan, SpanFields, SpanUnavailable, TraceContext,
    INTERNAL_SERVER_ERROR,
};

#[test]
fn span_fields_for_a_widget_request() {
    let f = SpanFields::of_request("GET", "/widgets/7?full=1", "/widgets/7");
    assert_eq!(f.otel_name, "GET /widgets/7");
    assert_eq!(f.method, "GET");
    assert_eq!(f.path, "/widgets/7");
    assert_eq!(f.target, "/widgets/7?full=1");
}

#[test]
fn span_fields_for_the_root_path() {
    let f = SpanFields::of_request("GET", "/", "/");
    assert_eq!(f.otel_name, "GET /");
    assert_eq!(f.path, "/");
}

#[test]
fn status_handed_over_when_a_span_is_present() {
    let mut slot = Some(RecordingSpan::new(tracing::Span::none()));
    assert!(record_response_status(&mut slot, 404));
    assert!(slot.is_some());
    assert!(slot.as_ref().unwrap().span().is_none());
}

#[test]
fn status_not_handed_over_without_a_span() {
    let mut slot: Option<RecordingSpan> = None;
    assert!(!record_response_status(&mut slot, 404));
    assert!(slot.is_none());
}

#[test]
fn accessor_returns_the_same_span_every_time() {
    let slot = Some(tracing::Span::none());
    let a = TraceContext::from_request(&slot).unwrap();
    let b = TraceContext::from_request(&slot).unwrap();
    assert!(std::ptr::eq(a.span(), b.span()));
    assert!(std::ptr::eq(a.span(), slot.as_ref().unwrap()));
}

#[test]
fn new_context_refers_to_the_given_span() {
    let span = tracing::Span::none();
    let tc = TraceContext::new(&span);
    assert!(std::ptr::eq(tc.span(), &span));
}

#[test]
fn accessor_without_interceptor_fails_with_server_fault() {
    assert!(TraceContext::from_request(&None).is_none());
    let e = TraceContext::require(&None).unwrap_err();
    assert_eq!(e, SpanUnavailable::InterceptorMissing);
    assert_eq!(e.status_code(), 500);
    assert_eq!(INTERNAL_SERVER_ERROR, 500);
}

#[test]
fn require_hands_out_the_stored_span() {
    let slot = Some(tracing::Span::none());
    let tc = TraceContext::require(&slot).unwrap();
    assert!(std::ptr::eq(tc.span(), slot.as_ref().unwrap()));
}

#[test]
fn slot_is_written_once() {
    let mut slot: Option<tracing::Span> = None;
    assert!(install_span(&mut slot, tracing::Span::none()));
    assert!(slot.is_some());
    assert!(!install_span(&mut slot, tracing::Span::none()));
    assert!(slot.is_some());
    assert!(TraceContext::from_request(&slot).is_some());
}
