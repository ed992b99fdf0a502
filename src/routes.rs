use vstd::prelude::*;
use crate::envelope::{envelope_text, minimal_failure_text, wire_text, Response, UntypedResponse};
use crate::span::{events_view, request_trace, trace_request, HttpRequest, Outcome, TraceEvent};
use crate::telemetry::TracePolicy;

verus! {

/// What a handler returns: a success envelope sent with status 200, or a
/// status code with a failure envelope.
pub type HandlerResult = Result<UntypedResponse, (u16, UntypedResponse)>;

/// How a handler ended.
pub enum HandlerOutcome {
    /// It returned a result.
    Completed(HandlerResult),
    /// It raised a server-side fault instead of returning.
    Fault,
}

pub open spec fn greeting() -> Seq<char> {
    "Hello world!"@
}

/// `GET /`: a success envelope with a greeting and nothing else.
pub fn root_handler() -> (r: HandlerResult)
    ensures
        r matches Ok(env) && env.success && env.data is None && env.error is None && env.message
            is Some && env.message->0@ == greeting(),
        result_wf(&r),
{
    Ok(Response::ok(None, Some(String::from_str("Hello world!"))))
}

/// A handler's result can be sent as it is: a well-formed success envelope on
/// `Ok`, a well-formed failure envelope on `Err`.
pub open spec fn result_wf(r: &HandlerResult) -> bool {
    match r {
        Ok(env) => env.wf() && env.success,
        Err((_, env)) => env.wf() && !env.success,
    }
}

/// The handler faulted, or returned a result that breaks the envelope's rules;
/// either way the request is answered as a server fault.
pub open spec fn is_fault(o: &HandlerOutcome) -> bool {
    match o {
        HandlerOutcome::Completed(r) => !result_wf(r),
        HandlerOutcome::Fault => true,
    }
}

/// Tests whether a handler's result can be sent as it is.
pub fn result_is_wf(r: &HandlerResult) -> (b: bool)
    ensures
        b == result_wf(r),
{
    match r {
        Ok(env) => env.success && env.error.is_none(),
        Err((_, env)) => !env.success && env.data.is_none(),
    }
}

/// The status code sent for a handler's outcome.
pub open spec fn reply_status(o: &HandlerOutcome) -> u16 {
    if is_fault(o) {
        500
    } else {
        match o {
            HandlerOutcome::Completed(Err((status, _))) => *status,
            _ => 200,
        }
    }
}

/// The outcome the tracing layer sees for a handler's outcome.
pub open spec fn traced_outcome(o: &HandlerOutcome) -> Outcome {
    if o is Fault {
        Outcome::HandlerFault
    } else {
        Outcome::Responded { status: reply_status(o) }
    }
}

/// A request served at the request boundary.
pub struct Served {
    pub status: u16,
    pub body: String,
    pub events: Vec<TraceEvent>,
}

/// Turns a handler's outcome into the status and envelope sent back. A fault,
/// or a result that breaks the envelope's rules, becomes status 500 with the
/// minimal failure envelope.
pub fn reply_for(outcome: HandlerOutcome) -> (r: (u16, UntypedResponse))
    ensures
        r.0 == reply_status(&outcome),
        r.1.wf(),
        r.1.success ==> r.0 == 200,
        r.0 >= 500 ==> !r.1.success && r.1.data is None,
        outcome matches HandlerOutcome::Completed(Ok(env)) ==> (!is_fault(&outcome) ==> r.1 == env),
        outcome matches HandlerOutcome::Completed(Err((_, env))) ==> (!is_fault(&outcome) ==> r.1
            == env),
        is_fault(&outcome) ==> !r.1.success && r.1.message is None && r.1.data is None
            && r.1.error is None,
{
    match outcome {
        HandlerOutcome::Completed(result) => {
            if result_is_wf(&result) {
                match result {
                    Ok(env) => (200, env),
                    Err((status, env)) => (status, env),
                }
            } else {
                (500, Response::err(None, None))
            }
        },
        HandlerOutcome::Fault => (500, Response::err(None, None)),
    }
}

/// Serves one request: the handler's outcome is recovered into a status and
/// a rendered envelope, and the request's span is traced from open to close.
pub fn serve(req: &HttpRequest, outcome: HandlerOutcome, latency: u64, policy: &TracePolicy) -> (r:
    Served)
    ensures
        r.status == reply_status(&outcome),
        outcome matches HandlerOutcome::Completed(Ok(env)) ==> (!is_fault(&outcome) ==> r.body@
            == wire_text(&env)),
        outcome matches HandlerOutcome::Completed(Err((_, env))) ==> (!is_fault(&outcome) ==> r.body@
            == wire_text(&env)),
        is_fault(&outcome) ==> r.body@ == minimal_failure_text(),
        events_view(r.events@) == request_trace(
            req.method@,
            req.route@,
            traced_outcome(&outcome),
            latency,
            *policy,
        ),
{
    let fault = match &outcome {
        HandlerOutcome::Completed(result) => !result_is_wf(result),
        HandlerOutcome::Fault => true,
    };
    let traced = match &outcome {
        HandlerOutcome::Fault => Outcome::HandlerFault,
        HandlerOutcome::Completed(Err((status, _))) if !fault => Outcome::Responded {
            status: *status,
        },
        HandlerOutcome::Completed(Ok(_)) if !fault => Outcome::Responded { status: 200 },
        HandlerOutcome::Completed(_) => Outcome::Responded { status: 500 },
    };
    let (status, env) = reply_for(outcome);
    let body = env.to_json();
    proof {
        if is_fault(&outcome) {
            reveal_strlit("{\"success\":");
            reveal_strlit("false");
            reveal_strlit("}");
            reveal_strlit("{\"success\":false}");
            assert(envelope_text(false, None, None, None) =~= minimal_failure_text());
        }
    }
    let events = trace_request(req, &traced, latency, policy);
    Served { status, body, events }
}

} // verus!
