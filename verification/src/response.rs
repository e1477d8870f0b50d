//! What goes back to the caller of the relay.

use vstd::prelude::*;
use crate::exchange::{outcome_view, Outcome, Payload, PayloadView, UpstreamFailure};

verus! {

/// The status of a response that hands on what the upstream sent.
pub const OK: u16 = 200;

/// The status of a response to an exchange that failed at the upstream.
pub const BAD_GATEWAY: u16 = 502;

/// The status of a response to an exchange that ran out of time.
pub const GATEWAY_TIMEOUT: u16 = 504;

/// The body of a response.
#[derive(Debug, PartialEq, Eq)]
pub enum ResponseBody {
    /// No content.
    Empty,
    /// An HTML page.
    Html(String),
    /// Plain text.
    Text(String),
    /// A document, to be written as JSON.
    Json(Payload),
}

/// What a [`ResponseBody`] holds.
pub enum ResponseBodyView {
    Empty,
    Html(Seq<char>),
    Text(Seq<char>),
    Json(PayloadView),
}

impl View for ResponseBody {
    type V = ResponseBodyView;

    open spec fn view(&self) -> ResponseBodyView {
        match self {
            ResponseBody::Empty => ResponseBodyView::Empty,
            ResponseBody::Html(page) => ResponseBodyView::Html(page@),
            ResponseBody::Text(text) => ResponseBodyView::Text(text@),
            ResponseBody::Json(payload) => ResponseBodyView::Json(payload@),
        }
    }
}

/// The relay's answer to an inbound request.
#[derive(Debug, PartialEq, Eq)]
pub struct InboundResponse {
    pub status: u16,
    pub body: ResponseBody,
}

/// What an [`InboundResponse`] holds.
pub struct InboundResponseView {
    pub status: u16,
    pub body: ResponseBodyView,
}

impl View for InboundResponse {
    type V = InboundResponseView;

    open spec fn view(&self) -> InboundResponseView {
        InboundResponseView { status: self.status, body: self.body@ }
    }
}

/// The status that answers a failed exchange: 504 where the call ran out of
/// time, 502 for every other failure.
pub open spec fn failure_status(failure: UpstreamFailure) -> u16 {
    match failure {
        UpstreamFailure::Transport { timed_out: true } => GATEWAY_TIMEOUT,
        _ => BAD_GATEWAY,
    }
}

/// The fixed text that goes with a failure status.
pub open spec fn failure_text(status: u16) -> Seq<char> {
    if status == GATEWAY_TIMEOUT {
        "Gateway Timeout"@
    } else {
        "Bad Gateway"@
    }
}

/// The response to a failed exchange. The kind of failure picks one of two
/// fixed responses; nothing else enters it.
pub open spec fn failure_reported(failure: UpstreamFailure) -> InboundResponseView {
    InboundResponseView {
        status: failure_status(failure),
        body: ResponseBodyView::Text(failure_text(failure_status(failure))),
    }
}

/// The response that hands on the outcome of an exchange: the document as it
/// came, an empty body where none was taken, or the report of the failure.
pub open spec fn forwarded(outcome: Result<Option<PayloadView>, UpstreamFailure>)
    -> InboundResponseView {
    match outcome {
        Ok(Some(payload)) => InboundResponseView {
            status: OK,
            body: ResponseBodyView::Json(payload),
        },
        Ok(None) => InboundResponseView { status: OK, body: ResponseBodyView::Empty },
        Err(failure) => failure_reported(failure),
    }
}

/// The response to a failed exchange.
pub fn report_failure(failure: UpstreamFailure) -> (response: InboundResponse)
    ensures
        response@ == failure_reported(failure),
{
    match failure {
        UpstreamFailure::Transport { timed_out: true } => InboundResponse {
            status: GATEWAY_TIMEOUT,
            body: ResponseBody::Text("Gateway Timeout".to_owned()),
        },
        _ => InboundResponse {
            status: BAD_GATEWAY,
            body: ResponseBody::Text("Bad Gateway".to_owned()),
        },
    }
}

/// The response that hands on the outcome of an exchange.
pub fn forward(outcome: Outcome) -> (response: InboundResponse)
    ensures
        response@ == forwarded(outcome_view(outcome)),
{
    match outcome {
        Ok(Some(payload)) => InboundResponse { status: OK, body: ResponseBody::Json(payload) },
        Ok(None) => InboundResponse { status: OK, body: ResponseBody::Empty },
        Err(failure) => report_failure(failure),
    }
}

/// A failed exchange is answered with 502 or 504 and a fixed text, whatever the
/// failure holds.
pub proof fn lemma_failure_is_a_gateway_error(failure: UpstreamFailure)
    ensures
        failure_reported(failure).status == BAD_GATEWAY || failure_reported(failure).status
            == GATEWAY_TIMEOUT,
        500 <= failure_reported(failure).status <= 599,
        failure_reported(failure).status == GATEWAY_TIMEOUT <==> failure
            == (UpstreamFailure::Transport { timed_out: true }),
        failure_reported(failure).body == ResponseBodyView::Text("Bad Gateway"@)
            || failure_reported(failure).body == ResponseBodyView::Text("Gateway Timeout"@),
{
}

/// An exchange is answered with 200 exactly when it succeeded. A failed one is
/// answered with the report of its failure: a gateway error that holds nothing
/// of what the upstream sent.
pub proof fn lemma_response_is_ok_or_gateway_error(
    outcome: Result<Option<PayloadView>, UpstreamFailure>,
)
    ensures
        forwarded(outcome).status == OK <==> outcome is Ok,
        outcome matches Err(failure) ==> forwarded(outcome) == failure_reported(failure),
        outcome matches Ok(Some(payload)) ==> forwarded(outcome).body == ResponseBodyView::Json(
            payload,
        ),
        outcome matches Ok(None) ==> forwarded(outcome).body == ResponseBodyView::Empty,
{
}

} // verus!
