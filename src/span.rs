use vstd::prelude::*;
use crate::telemetry::{LatencyUnit, Level, TracePolicy};

verus! {

/// How a request ended, as far as the tracing layer classifies it.
#[derive(Debug, Clone, Copy, PartialEq, Eq, Structural)]
pub enum StatusClass {
    Success,
    ClientFailure,
    ServerError,
}

/// What the handler chain produced for a request.
#[derive(Debug, Clone, Copy, PartialEq, Eq, Structural)]
pub enum Outcome {
    /// A response with this status code.
    Responded { status: u16 },
    /// The handler failed (panicked or raised a server-side fault).
    HandlerFault,
    /// The transport layer failed while serving the request.
    TransportError,
    /// The client went away before the response was complete.
    Aborted,
}

/// Server errors are the 5xx codes, client errors the 4xx codes.
pub open spec fn status_class(status: u16) -> StatusClass {
    if 500 <= status && status <= 599 {
        StatusClass::ServerError
    } else if 400 <= status && status <= 499 {
        StatusClass::ClientFailure
    } else {
        StatusClass::Success
    }
}

pub open spec fn outcome_class(o: Outcome) -> StatusClass {
    match o {
        Outcome::Responded { status } => status_class(status),
        Outcome::HandlerFault => StatusClass::ServerError,
        Outcome::TransportError => StatusClass::ServerError,
        Outcome::Aborted => StatusClass::ClientFailure,
    }
}

/// Classifies a status code; only server errors count as failures of the service.
pub fn classify_status(status: u16) -> (c: StatusClass)
    ensures
        c == status_class(status),
{
    if 500 <= status && status <= 599 {
        StatusClass::ServerError
    } else if 400 <= status && status <= 499 {
        StatusClass::ClientFailure
    } else {
        StatusClass::Success
    }
}

/// Classifies an outcome: handler and transport faults are server errors, an
/// aborted connection is the client's doing.
pub fn classify_outcome(o: &Outcome) -> (c: StatusClass)
    ensures
        c == outcome_class(*o),
{
    match o {
        Outcome::Responded { status } => classify_status(*status),
        Outcome::HandlerFault => StatusClass::ServerError,
        Outcome::TransportError => StatusClass::ServerError,
        Outcome::Aborted => StatusClass::ClientFailure,
    }
}

/// An event handed to the log sink. None of them has room for a header or
/// for body content.
#[derive(Debug)]
pub enum TraceEvent {
    SpanOpen { level: Level, method: String, route: String },
    RequestReceived { level: Level },
    SpanClose { level: Level, latency: u64, unit: LatencyUnit, class: StatusClass },
}

pub enum EventView {
    SpanOpen { level: Level, method: Seq<char>, route: Seq<char> },
    RequestReceived { level: Level },
    SpanClose { level: Level, latency: u64, unit: LatencyUnit, class: StatusClass },
}

impl View for TraceEvent {
    type V = EventView;

    open spec fn view(&self) -> EventView {
        match self {
            TraceEvent::SpanOpen { level, method, route } => EventView::SpanOpen {
                level: *level,
                method: method@,
                route: route@,
            },
            TraceEvent::RequestReceived { level } => EventView::RequestReceived { level: *level },
            TraceEvent::SpanClose { level, latency, unit, class } => EventView::SpanClose {
                level: *level,
                latency: *latency,
                unit: *unit,
                class: *class,
            },
        }
    }
}

pub open spec fn events_view(v: Seq<TraceEvent>) -> Seq<EventView> {
    v.map_values(|e: TraceEvent| e@)
}

pub open spec fn count_opens(s: Seq<EventView>) -> nat
    decreases s.len(),
{
    if s.len() == 0 {
        0
    } else {
        count_opens(s.drop_last()) + if s.last() is SpanOpen {
            1nat
        } else {
            0nat
        }
    }
}

pub open spec fn count_received(s: Seq<EventView>) -> nat
    decreases s.len(),
{
    if s.len() == 0 {
        0
    } else {
        count_received(s.drop_last()) + if s.last() is RequestReceived {
            1nat
        } else {
            0nat
        }
    }
}

pub open spec fn count_closes(s: Seq<EventView>) -> nat
    decreases s.len(),
{
    if s.len() == 0 {
        0
    } else {
        count_closes(s.drop_last()) + if s.last() is SpanClose {
            1nat
        } else {
            0nat
        }
    }
}

/// The event that closes a span: error level on a server failure, the
/// response level otherwise, with the latency in the matching unit.
pub open spec fn close_event(o: Outcome, latency: u64, p: TracePolicy) -> EventView {
    if outcome_class(o) == StatusClass::ServerError {
        EventView::SpanClose {
            level: p.failure_level,
            latency,
            unit: p.failure_latency_unit,
            class: StatusClass::ServerError,
        }
    } else {
        EventView::SpanClose {
            level: p.response_level,
            latency,
            unit: p.response_latency_unit,
            class: outcome_class(o),
        }
    }
}

/// The events of one request: its span opens, the request is marked received,
/// and the span closes.
pub open spec fn request_trace(
    method: Seq<char>,
    route: Seq<char>,
    o: Outcome,
    latency: u64,
    p: TracePolicy,
) -> Seq<EventView> {
    seq![
        EventView::SpanOpen { level: p.span_level, method, route },
        EventView::RequestReceived { level: p.request_level },
        close_event(o, latency, p),
    ]
}

/// An inbound request as the tracing layer sees it.
pub struct HttpRequest {
    pub method: String,
    pub route: String,
    pub headers: Vec<(String, String)>,
    pub body: Vec<u8>,
}

/// The tracing state of one request, from span open to span close.
///
/// This is the event policy of the request-tracing layer stated as a state
/// machine: which events a request yields, at which level, and that a span
/// opens and closes exactly once. The service's transport layer emits its own
/// events from the same `TracePolicy`; what is proved here holds of this model.
pub struct RequestSpan {
    events: Vec<TraceEvent>,
    received: bool,
    closed: bool,
}

impl View for RequestSpan {
    type V = Seq<EventView>;

    closed spec fn view(&self) -> Seq<EventView> {
        events_view(self.events@)
    }
}

impl RequestSpan {
    pub closed spec fn is_received(&self) -> bool {
        self.received
    }

    pub closed spec fn is_closed(&self) -> bool {
        self.closed
    }

    /// One open event first, then at most one received marker, then at most
    /// one close event, which is last.
    pub open spec fn wf(&self) -> bool {
        &&& self@.len() == 1 + (if self.is_received() {
            1int
        } else {
            0int
        }) + (if self.is_closed() {
            1int
        } else {
            0int
        })
        &&& self@[0] is SpanOpen
        &&& self.is_received() ==> self@[1] is RequestReceived
        &&& self.is_closed() ==> self@.last() is SpanClose
    }

    /// Opens the span of a request arriving with this method and route.
    pub fn open(method: &str, route: &str, policy: &TracePolicy) -> (s: RequestSpan)
        ensures
            s.wf(),
            !s.is_received(),
            !s.is_closed(),
            s@ == seq![EventView::SpanOpen { level: policy.span_level, method: method@, route: route@ }],
    {
        let mut events: Vec<TraceEvent> = Vec::new();
        events.push(
            TraceEvent::SpanOpen {
                level: policy.span_level,
                method: String::from_str(method),
                route: String::from_str(route),
            },
        );
        let s = RequestSpan { events, received: false, closed: false };
        assert(s@ =~= seq![EventView::SpanOpen { level: policy.span_level, method: method@, route: route@ }]);
        s
    }

    /// Marks the request received, once, while the span is open.
    pub fn on_request(&mut self, policy: &TracePolicy)
        requires
            old(self).wf(),
        ensures
            final(self).wf(),
            final(self).is_closed() == old(self).is_closed(),
            if !old(self).is_received() && !old(self).is_closed() {
                &&& final(self)@ == old(self)@.push(EventView::RequestReceived { level: policy.request_level })
                &&& final(self).is_received()
            } else {
                &&& final(self)@ == old(self)@
                &&& final(self).is_received() == old(self).is_received()
            },
    {
        if !self.received && !self.closed {
            self.events.push(TraceEvent::RequestReceived { level: policy.request_level });
            self.received = true;
            assert(self@ =~= old(self)@.push(EventView::RequestReceived { level: policy.request_level }));
        }
    }

    /// A chunk of a body was read: nothing is recorded and nothing is kept.
    pub fn on_body_chunk(&self, _chunk: &[u8]) {
    }

    /// A body was read to its end: nothing is recorded.
    pub fn on_eos(&self) {
    }

    /// Closes the span for this outcome, unless it is already closed.
    pub fn close(&mut self, outcome: &Outcome, latency: u64, policy: &TracePolicy)
        requires
            old(self).wf(),
        ensures
            final(self).wf(),
            final(self).is_closed(),
            final(self).is_received() == old(self).is_received(),
            !old(self).is_closed() ==> final(self)@ == old(self)@.push(close_event(*outcome, latency, *policy)),
            old(self).is_closed() ==> final(self)@ == old(self)@,
    {
        if !self.closed {
            let event = if classify_outcome(outcome) == StatusClass::ServerError {
                TraceEvent::SpanClose {
                    level: policy.failure_level,
                    latency,
                    unit: policy.failure_latency_unit,
                    class: StatusClass::ServerError,
                }
            } else {
                TraceEvent::SpanClose {
                    level: policy.response_level,
                    latency,
                    unit: policy.response_latency_unit,
                    class: classify_outcome(outcome),
                }
            };
            self.events.push(event);
            self.closed = true;
            assert(self@ =~= old(self)@.push(close_event(*outcome, latency, *policy)));
        }
    }

    pub fn closed(&self) -> (r: bool)
        ensures
            r == self.is_closed(),
    {
        self.closed
    }

    /// The events recorded so far.
    pub fn into_events(self) -> (r: Vec<TraceEvent>)
        ensures
            events_view(r@) == self@,
    {
        self.events
    }
}

/// A closed span holds exactly one open event, at most one received marker and
/// exactly one close event, whatever the outcome.
pub proof fn lemma_closed_span_counts(s: RequestSpan)
    requires
        s.wf(),
        s.is_closed(),
    ensures
        count_opens(s@) == 1,
        count_received(s@) <= 1,
        count_closes(s@) == 1,
{
    let v = s@;
    reveal_with_fuel(count_opens, 4);
    reveal_with_fuel(count_received, 4);
    reveal_with_fuel(count_closes, 4);
    if s.is_received() {
        assert(v.drop_last().drop_last().drop_last() =~= Seq::<EventView>::empty());
        assert(v.drop_last().drop_last().last() == v[0]);
        assert(v.drop_last().last() == v[1]);
    } else {
        assert(v.drop_last().drop_last() =~= Seq::<EventView>::empty());
        assert(v.drop_last().last() == v[0]);
    }
}

/// Traces one request through its whole span: open, received marker, the
/// body streamed without a record, and close for the outcome. The events
/// depend on the request's method and route alone, never on its headers or body.
pub fn trace_request(req: &HttpRequest, outcome: &Outcome, latency: u64, policy: &TracePolicy) -> (r:
    Vec<TraceEvent>)
    ensures
        events_view(r@) == request_trace(req.method@, req.route@, *outcome, latency, *policy),
        count_opens(events_view(r@)) == 1,
        count_received(events_view(r@)) == 1,
        count_closes(events_view(r@)) == 1,
{
    let mut span = RequestSpan::open(req.method.as_str(), req.route.as_str(), policy);
    span.on_request(policy);
    span.on_body_chunk(req.body.as_slice());
    span.on_eos();
    span.close(outcome, latency, policy);
    proof {
        lemma_closed_span_counts(span);
        assert(span@ =~= request_trace(req.method@, req.route@, *outcome, latency, *policy));
        reveal_with_fuel(count_received, 4);
        let v = span@;
        assert(v.drop_last().drop_last().drop_last() =~= Seq::<EventView>::empty());
        assert(v.drop_last().drop_last().last() == v[0]);
        assert(v.drop_last().last() == v[1]);
    }
    span.into_events()
}

/// A server failure closes the span at the policy's failure level; any other
/// outcome at its response level.
pub proof fn lemma_close_level(o: Outcome, latency: u64, p: TracePolicy)
    ensures
        close_event(o, latency, p) matches EventView::SpanClose { level, .. } && level == (if outcome_class(o) == StatusClass::ServerError {
            p.failure_level
        } else {
            p.response_level
        }),
{
}

} // verus!
