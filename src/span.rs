//! The request span: the attributes it is created with, the per-request slot
//! that holds it, the accessor that hands it to handler code, and the status
//! handed to it when the response is ready.

use vstd::prelude::*;
use vstd::string::StringExecFns;

verus! {

#[verifier::external_type_specification]
#[verifier::external_body]
pub struct ExSpan(tracing::Span);

/// Status code with which a handler's request fails when no span is available.
pub const INTERNAL_SERVER_ERROR: u16 = 500;

/// The `otel.name` of a request span: the method, a space, and the path.
pub open spec fn otel_name_of(method: Seq<char>, path: Seq<char>) -> Seq<char> {
    method + seq![' '] + path
}

/// The attributes with which a request span is created.
pub struct SpanFields {
    /// `otel.name`: method and path.
    pub otel_name: String,
    /// `http.target`: the full URI.
    pub target: String,
    /// `http.path`: the path alone.
    pub path: String,
    /// `http.method`.
    pub method: String,
}

impl SpanFields {
    /// The attributes of the span for a request with `method`, full URI `target`
    /// and `path`. The span is to declare the `http.status_code` field empty,
    /// for `record_response_status` to fill once the response is ready.
    pub fn of_request(method: &str, target: &str, path: &str) -> (r: SpanFields)
        ensures
            r.otel_name@ == otel_name_of(method@, path@),
            r.target@ == target@,
            r.path@ == path@,
            r.method@ == method@,
    {
        let mut otel_name = method.to_owned();
        proof {
            reveal_strlit(" ");
        }
        otel_name.append(" ");
        otel_name.append(path);
        assert(otel_name@ =~= otel_name_of(method@, path@));
        SpanFields {
            otel_name,
            target: target.to_owned(),
            path: path.to_owned(),
            method: method.to_owned(),
        }
    }
}

/// Handler code's view of the current request's span.
#[derive(Debug)]
pub struct TraceContext<'r> {
    span: &'r tracing::Span,
}

/// Why a handler could not be given the request span.
#[derive(Debug, Clone, Copy, PartialEq, Eq)]
pub enum SpanUnavailable {
    /// No span was stored for the request: the interceptor is not attached.
    InterceptorMissing,
}

impl SpanUnavailable {
    /// The status code with which the request fails.
    pub fn status_code(&self) -> (r: u16)
        ensures
            r == INTERNAL_SERVER_ERROR,
    {
        INTERNAL_SERVER_ERROR
    }
}

impl<'r> TraceContext<'r> {
    /// The span this context refers to.
    pub closed spec fn span_view(&self) -> tracing::Span {
        *self.span
    }

    /// A context referring to `span`.
    pub fn new(span: &'r tracing::Span) -> (r: TraceContext<'r>)
        ensures
            r.span_view() == *span,
    {
        TraceContext { span }
    }

    /// The context for a request whose span slot is `slot`: present exactly
    /// when the slot holds a span, and then referring to that span.
    pub fn from_request(slot: &'r Option<tracing::Span>) -> (r: Option<TraceContext<'r>>)
        ensures
            accessor_result(*slot, r),
    {
        match slot {
            Some(span) => Some(TraceContext::new(span)),
            None => None,
        }
    }

    /// As `from_request`, with the missing span reported as a fault.
    pub fn require(slot: &'r Option<tracing::Span>) -> (r: Result<TraceContext<'r>, SpanUnavailable>)
        ensures
            r is Ok <==> slot is Some,
            r matches Ok(tc) ==> tc.span_view() == slot->Some_0,
            r matches Err(e) ==> e == SpanUnavailable::InterceptorMissing,
    {
        match TraceContext::from_request(slot) {
            Some(tc) => Ok(tc),
            None => Err(SpanUnavailable::InterceptorMissing),
        }
    }

    /// The span, to parent the handler's own spans.
    pub fn span(&self) -> (r: &'r tracing::Span)
        ensures
            *r == self.span_view(),
    {
        self.span
    }
}

/// `r` is what the accessor hands out for a request whose slot is `slot`:
/// a context referring to the slot's span, or nothing when the slot is empty.
pub open spec fn accessor_result<'r>(slot: Option<tracing::Span>, r: Option<TraceContext<'r>>) -> bool {
    &&& (r is Some <==> slot is Some)
    &&& (r matches Some(tc) ==> tc.span_view() == slot->Some_0)
}

/// Calling the accessor several times during one request's handling gives
/// the same span each time.
pub proof fn lemma_accessor_idempotent<'r>(
    slot: Option<tracing::Span>,
    first: Option<TraceContext<'r>>,
    second: Option<TraceContext<'r>>,
)
    requires
        accessor_result(slot, first),
        accessor_result(slot, second),
    ensures
        first is Some <==> second is Some,
        first matches Some(a) ==> (second matches Some(b) && a.span_view() == b.span_view()),
{
}

/// Stores `span` in a request's span slot unless the slot already holds one:
/// the slot is written once.
pub fn install_span(slot: &mut Option<tracing::Span>, span: tracing::Span) -> (stored: bool)
    ensures
        stored == (*old(slot) is None),
        *final(slot) == if stored { Some(span) } else { *old(slot) },
{
    if slot.is_none() {
        *slot = Some(span);
        true
    } else {
        false
    }
}

/// Name of the span field that holds the response status.
pub open spec fn status_key() -> Seq<char> {
    "http.status_code"@
}

/// A handle to a request span, with the values handed to the span's `record`
/// through this handle. The span keeps such a value only where the field was
/// declared when the span was created and the span is enabled; the handle
/// models the calls made, not what the span holds.
pub struct RecordingSpan {
    span: tracing::Span,
    handed: Ghost<Map<Seq<char>, u16>>,
}

impl RecordingSpan {
    /// The span this handle refers to.
    pub closed spec fn span_view(&self) -> tracing::Span {
        self.span
    }

    /// For each field name, the last value handed to the span's `record`
    /// through this handle.
    pub closed spec fn handed_to_record(&self) -> Map<Seq<char>, u16> {
        self.handed@
    }

    /// The status last handed to the span's `record` under `http.status_code`
    /// through this handle, if any.
    pub open spec fn status_handed(&self) -> Option<u16> {
        if self.handed_to_record().contains_key(status_key()) {
            Some(self.handed_to_record()[status_key()])
        } else {
            None
        }
    }

    /// A handle to `span` through which no value has been handed to `record`
    /// yet.
    pub fn new(span: tracing::Span) -> (r: RecordingSpan)
        ensures
            r.span_view() == span,
            r.handed_to_record() == Map::<Seq<char>, u16>::empty(),
            r.status_handed() is None,
    {
        RecordingSpan { span, handed: Ghost(Map::empty()) }
    }

    /// The span.
    pub fn span(&self) -> (r: &tracing::Span)
        ensures
            *r == self.span_view(),
    {
        &self.span
    }

    /// Relies on `tracing::Span::record`, which this calls once with `key` and
    /// `value`; whether the span keeps the value is tracing's affair.
    #[verifier::external_body]
    fn record_u16(&mut self, key: &str, value: u16)
        ensures
            final(self).span_view() == old(self).span_view(),
            final(self).handed_to_record() == old(self).handed_to_record().insert(key@, value),
    {
        self.span.record(key, value);
    }
}

/// Hands the response status `code` to the `record` of the span in `slot`,
/// under `http.status_code`, if there is a span; nothing else is handed over.
/// A span created with that field declared empty and enabled then holds the
/// status. Returns whether a span was there.
pub fn record_response_status(slot: &mut Option<RecordingSpan>, code: u16) -> (recorded: bool)
    ensures
        recorded == (*old(slot) is Some),
        (*final(slot) is Some) == (*old(slot) is Some),
        *final(slot) matches Some(s) ==> {
            &&& s.status_handed() == Some(code)
            &&& s.span_view() == old(slot)->Some_0.span_view()
            &&& s.handed_to_record() == old(slot)->Some_0.handed_to_record().insert(
                status_key(),
                code,
            )
        },
{
    match slot {
        Some(s) => {
            let key = "http.status_code";
            s.record_u16(key, code);
            true
        },
        None => false,
    }
}

} // verus!
